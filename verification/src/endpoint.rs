//! Hosts and ports.

use vstd::prelude::*;
use vstd::string::{StrSliceExecFns, StringExecFns};

use crate::text::{append_decimal, characters, decimal};

verus! {

/// A host and a port. The host is kept without the brackets that an address may be written
/// with.
#[derive(Clone, Debug, PartialEq, Eq)]
pub struct Endpoint {
    host: String,
    port: u16,
}

/// An [`Endpoint`] with its host as a sequence of characters.
pub struct EndpointView {
    pub host: Seq<char>,
    pub port: u16,
}

impl View for Endpoint {
    type V = EndpointView;

    closed spec fn view(&self) -> EndpointView {
        EndpointView { host: self.host@, port: self.port }
    }
}

/// That a host is written in brackets.
pub open spec fn bracketed(host: Seq<char>) -> bool {
    host.len() >= 2 && host[0] == '[' && host.last() == ']'
}

/// A host without the brackets that it may be written with.
pub open spec fn unbracketed(host: Seq<char>) -> Seq<char> {
    if bracketed(host) {
        host.subrange(1, host.len() - 1)
    } else {
        host
    }
}

/// A host and port as one text: a host with colons in it stands in brackets.
pub open spec fn endpoint_text(host: Seq<char>, port: u16) -> Seq<char> {
    if host.contains(':') {
        "["@ + host + "]:"@ + decimal(port as nat)
    } else {
        host + ":"@ + decimal(port as nat)
    }
}

/// Whether a character occurs in a text.
pub fn contains_char(text: &str, wanted: char) -> (found: bool)
    ensures
        found == text@.contains(wanted),
{
    let chars = characters(text);
    let mut i: usize = 0;
    while i < chars.len()
        invariant
            i <= chars.len(),
            chars@ == text@,
            forall|j: int| 0 <= j < i ==> text@[j] != wanted,
        decreases chars.len() - i,
    {
        if chars[i] == wanted {
            assert(text@[i as int] == wanted);
            return true;
        }
        i += 1;
    }
    false
}

impl Endpoint {
    /// An endpoint. One pair of brackets around the host is taken off.
    pub fn new(host: &str, port: u16) -> (endpoint: Endpoint)
        ensures
            endpoint@ == (EndpointView { host: unbracketed(host@), port }),
    {
        let chars = characters(host);
        if chars.len() >= 2 && chars[0] == '[' && chars[chars.len() - 1] == ']' {
            let inner = host.substring_char(1, chars.len() - 1);
            return Endpoint { host: inner.to_owned(), port };
        }
        Endpoint { host: host.to_owned(), port }
    }

    /// The host.
    pub fn host(&self) -> (host: &str)
        ensures
            host@ == self@.host,
    {
        self.host.as_str()
    }

    /// The port.
    pub fn port(&self) -> (port: u16)
        ensures
            port == self@.port,
    {
        self.port
    }

    /// Host and port as one text.
    pub fn to_string(&self) -> (text: String)
        ensures
            text@ == endpoint_text(self@.host, self@.port),
    {
        let mut text = String::new();
        if contains_char(self.host.as_str(), ':') {
            text.append("[");
            text.append(self.host.as_str());
            text.append("]:");
        } else {
            text.append(self.host.as_str());
            text.append(":");
        }
        append_decimal(&mut text, self.port as u64);
        assert(text@ =~= endpoint_text(self@.host, self@.port));
        text
    }
}

/// An endpoint keeps no brackets, so the same host in brackets gives the same endpoint.
pub proof fn brackets_make_no_difference(host: Seq<char>)
    requires
        !bracketed(host),
    ensures
        unbracketed(seq!['['] + host + seq![']']) == unbracketed(host),
{
    assert((seq!['['] + host + seq![']']).subrange(1, (host.len() + 1) as int) =~= host);
}

/// An address with colons is written in brackets, any other as it is; the port follows behind a
/// colon.
pub proof fn ports_follow_the_host(host: Seq<char>, port: u16)
    ensures
        host.contains(':') ==> endpoint_text(host, port) == seq!['['] + host + seq![']', ':']
            + decimal(port as nat),
        !host.contains(':') ==> endpoint_text(host, port) == host + seq![':'] + decimal(
            port as nat,
        ),
        unbracketed(seq!['['] + host + seq![']']) == host,
        !(host.len() >= 2 && host[0] == '[' && host.last() == ']') ==> unbracketed(host) == host,
{
    reveal_strlit("[");
    reveal_strlit("]:");
    reveal_strlit(":");
    assert("["@ =~= seq!['[']);
    assert("]:"@ =~= seq![']', ':']);
    assert(":"@ =~= seq![':']);
    let longer = seq!['['] + host + seq![']'];
    assert(longer.subrange(1, longer.len() - 1) =~= host);
}

} // verus!
