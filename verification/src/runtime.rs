//! The runtime of a server: the public listener, the proxy and the sleeping responder.

pub mod activation;
pub mod connect;
pub mod run;
pub mod serving;
