//! The identity of a configured server.

use vstd::prelude::*;

verus! {

/// Which server something is about.
pub struct ServerContext {
    id: String,
}

impl View for ServerContext {
    type V = Seq<char>;

    closed spec fn view(&self) -> Seq<char> {
        self.id@
    }
}

impl ServerContext {
    /// The context of the server with this identifier.
    pub fn new(id: String) -> (context: ServerContext)
        ensures
            context@ == id@,
    {
        ServerContext { id }
    }

    /// The identifier of the server.
    pub fn id(&self) -> (id: &str)
        ensures
            id@ == self@,
    {
        self.id.as_str()
    }
}

} // verus!
