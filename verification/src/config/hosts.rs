//! Addresses and hosts in the configuration.

use vstd::prelude::*;
use vstd::string::{StringExecFns, StringSliceAdditionalSpecFns};
use vstd::utf8::{char_is_scalar, encode_utf8};

use crate::bytes::ascii_text;
use crate::endpoint::{unbracketed, Endpoint, EndpointView};
use crate::text::{characters, in_context, with_context};

verus! {

/// A numeric address.
#[derive(Clone, Copy, Debug, PartialEq, Eq, Structural)]
pub enum IpAddress {
    V4(u32),
    V6(u128),
}

impl IpAddress {
    /// That the address stands for every address of its family.
    pub open spec fn unspecified(self) -> bool {
        match self {
            IpAddress::V4(bits) => bits == 0,
            IpAddress::V6(bits) => bits == 0,
        }
    }

    /// That the address stands for a group: 224.0.0.0 to 239.255.255.255, or one that begins
    /// with ff.
    pub open spec fn multicast(self) -> bool {
        match self {
            IpAddress::V4(bits) => 0xe000_0000 <= bits <= 0xefff_ffff,
            IpAddress::V6(bits) => bits >= 0xff00_0000_0000_0000_0000_0000_0000_0000,
        }
    }

    /// Whether the address stands for every address of its family.
    pub fn is_unspecified(self) -> (unspecified: bool)
        ensures
            unspecified == self.unspecified(),
    {
        match self {
            IpAddress::V4(bits) => bits == 0,
            IpAddress::V6(bits) => bits == 0,
        }
    }

    /// Whether the address stands for a group.
    pub fn is_multicast(self) -> (multicast: bool)
        ensures
            multicast == self.multicast(),
    {
        match self {
            IpAddress::V4(bits) => 0xe000_0000 <= bits && bits <= 0xefff_ffff,
            IpAddress::V6(bits) => bits >= 0xff00_0000_0000_0000_0000_0000_0000_0000,
        }
    }
}

/// That two addresses are of the same family.
pub open spec fn one_family(left: IpAddress, right: IpAddress) -> bool {
    left is V4 <==> right is V4
}

/// Whether two addresses are of the same family.
pub fn same_ip_family(left: IpAddress, right: IpAddress) -> (same: bool)
    ensures
        same == one_family(left, right),
{
    match (left, right) {
        (IpAddress::V4(_), IpAddress::V4(_)) => true,
        (IpAddress::V6(_), IpAddress::V6(_)) => true,
        _ => false,
    }
}

/// A numeric address and how it is written in the usual form.
pub struct IpLiteral {
    pub address: IpAddress,
    pub text: String,
}

/// A host as it was written, and the numeric address that it spells, or why it spells none.
pub struct HostText {
    pub text: String,
    pub literal: Result<IpLiteral, String>,
}

/// Where a server listens.
pub struct ListenerSchema {
    pub address: HostText,
    pub port: u16,
}

/// Where something is connected to.
pub struct TargetSchema {
    pub host: HostText,
    pub port: u16,
}

/// A host in the form in which hosts are compared.
pub enum CanonicalHost {
    Ip(IpAddress),
    Dns(String),
}

/// A [`CanonicalHost`] with its name as a sequence of characters.
pub enum HostView {
    Ip(IpAddress),
    Dns(Seq<char>),
}

impl View for CanonicalHost {
    type V = HostView;

    open spec fn view(&self) -> HostView {
        match *self {
            CanonicalHost::Ip(address) => HostView::Ip(address),
            CanonicalHost::Dns(name) => HostView::Dns(name@),
        }
    }
}

/// That a host begins or ends with a bracket.
pub open spec fn edged_by_bracket(text: Seq<char>) -> bool {
    text.len() > 0 && (text[0] == '[' || text.last() == ']')
}

/// Whether a host begins or ends with a bracket.
fn is_edged_by_bracket(text: &Vec<char>) -> (edged: bool)
    ensures
        edged == edged_by_bracket(text@),
{
    text.len() > 0 && (text[0] == '[' || text[text.len() - 1] == ']')
}

/// What is wrong with a listener, if anything is.
pub open spec fn listener_fault(listener: ListenerSchema) -> Option<Seq<char>> {
    if listener.port == 0 {
        Some("listener port must not be zero"@)
    } else if edged_by_bracket(listener.address.text@) {
        Some("listener address must be an unbracketed numeric IP literal"@)
    } else {
        match listener.address.literal {
            Ok(_) => None,
            Err(cause) => Some(
                in_context(
                    "listener address must be an unbracketed numeric IPv4 or IPv6 literal"@,
                    cause@,
                ),
            ),
        }
    }
}

/// The address of a listener.
pub open spec fn listener_address(listener: ListenerSchema) -> IpAddress {
    (listener.address.literal->Ok_0).address
}

/// Checks a listener and gives its address.
pub fn validate_listener(listener: &ListenerSchema) -> (result: Result<IpAddress, String>)
    ensures
        match listener_fault(*listener) {
            None => result == Ok::<IpAddress, String>(listener_address(*listener)),
            Some(text) => result matches Err(error) && error@ == text,
        },
{
    if listener.port == 0 {
        return Err("listener port must not be zero".to_owned());
    }
    if is_edged_by_bracket(&characters(listener.address.text.as_str())) {
        return Err("listener address must be an unbracketed numeric IP literal".to_owned());
    }
    match &listener.address.literal {
        Ok(literal) => Ok(literal.address),
        Err(cause) => Err(
            with_context(
                "listener address must be an unbracketed numeric IPv4 or IPv6 literal",
                cause.as_str(),
            ),
        ),
    }
}

/// That a byte is a letter or a digit.
pub open spec fn alphanumeric(byte: u8) -> bool {
    0x30 <= byte <= 0x39 || 0x41 <= byte <= 0x5a || 0x61 <= byte <= 0x7a
}

/// Whether a byte is a letter or a digit.
pub fn is_alphanumeric(byte: u8) -> (yes: bool)
    ensures
        yes == alphanumeric(byte),
{
    (0x30 <= byte && byte <= 0x39) || (0x41 <= byte && byte <= 0x5a) || (0x61 <= byte && byte
        <= 0x7a)
}

/// The parts of a name between its dots.
pub open spec fn labels(name: Seq<u8>) -> Seq<Seq<u8>>
    decreases name.len(),
{
    if name.contains(0x2e) {
        let at = name.index_of_first(0x2e)->0;
        if 0 <= at < name.len() {
            seq![name.take(at)] + labels(name.skip(at + 1))
        } else {
            seq![name]
        }
    } else {
        seq![name]
    }
}

/// That a part of a name is one that every resolver takes: 1 to 63 letters, digits and hyphens,
/// with no hyphen at either end.
pub open spec fn portable_label(label: Seq<u8>) -> bool {
    &&& 1 <= label.len() <= 63
    &&& forall|i: int|
        0 <= i < label.len() ==> alphanumeric(#[trigger] label[i]) || label[i] == 0x2d
    &&& alphanumeric(label[0])
    &&& alphanumeric(label.last())
}

/// What is wrong with a host name, if anything is.
pub open spec fn hostname_fault(name: Seq<u8>) -> Option<Seq<char>> {
    if name.len() > 253 || (name.len() > 0 && name.last() == 0x2e) {
        Some("target hostname must be at most 253 characters and must not have a trailing dot"@)
    } else if exists|i: int|
        #![trigger labels(name)[i]]
        0 <= i < labels(name).len() && !portable_label(labels(name)[i]) {
        Some("target host is not a portable ASCII hostname"@)
    } else {
        None
    }
}

/// Whether the bytes from `from` to `to` are a portable part of a name.
fn is_portable_label(name: &[u8], from: usize, to: usize) -> (portable: bool)
    requires
        from <= to <= name@.len(),
    ensures
        portable == portable_label(name@.subrange(from as int, to as int)),
{
    let ghost label = name@.subrange(from as int, to as int);
    if to == from || to - from > 63 {
        return false;
    }
    let mut i: usize = from;
    while i < to
        invariant
            from <= i <= to <= name@.len(),
            label == name@.subrange(from as int, to as int),
            forall|j: int|
                0 <= j < i - from ==> alphanumeric(#[trigger] label[j]) || label[j] == 0x2d,
        decreases to - i,
    {
        assert(label[i - from] == name@[i as int]);
        if !is_alphanumeric(name[i]) && name[i] != 0x2d {
            return false;
        }
        i += 1;
    }
    assert(label[0] == name@[from as int]);
    assert(label.last() == name@[to - 1]);
    is_alphanumeric(name[from]) && is_alphanumeric(name[to - 1])
}

/// A name up to its next dot is its first part.
proof fn lemma_next_label(name: Seq<u8>, at: int)
    requires
        0 <= at <= name.len(),
        forall|i: int| 0 <= i < at ==> name[i] != 0x2e,
        at < name.len() ==> name[at] == 0x2e,
    ensures
        at == name.len() ==> labels(name) == seq![name],
        at < name.len() ==> labels(name) == seq![name.take(at)] + labels(name.skip(at + 1)),
{
    if at == name.len() {
        assert(!name.contains(0x2e));
    } else {
        assert(name.contains(0x2e));
        name.index_of_first_ensures(0x2e);
    }
}

/// Checks a host name.
pub fn validate_hostname(host: &str) -> (result: Result<(), String>)
    ensures
        match hostname_fault(encode_utf8(host@)) {
            None => result is Ok,
            Some(text) => result matches Err(error) && error@ == text,
        },
{
    let name = host.as_bytes();
    if name.len() > 253 || (name.len() > 0 && name[name.len() - 1] == 0x2e) {
        return Err(
            "target hostname must be at most 253 characters and must not have a trailing dot".to_owned(),
        );
    }
    let ghost all = labels(name@);
    let ghost mut done: int = 0;
    let mut start: usize = 0;
    assert(name@.skip(0) =~= name@);
    assert(all.skip(0) =~= all);
    loop
        invariant
            start <= name@.len(),
            name@ == encode_utf8(host@),
            all == labels(name@),
            0 <= done < all.len(),
            all.skip(done) == labels(name@.skip(start as int)),
            forall|i: int| 0 <= i < done ==> portable_label(#[trigger] all[i]),
            !(name@.len() > 253 || (name@.len() > 0 && name@.last() == 0x2e)),
        decreases name@.len() - start,
    {
        let mut end: usize = start;
        while end < name.len() && name[end] != 0x2e
            invariant
                start <= end <= name@.len(),
                forall|i: int| start <= i < end ==> name@[i] != 0x2e,
            decreases name@.len() - end,
        {
            end += 1;
        }
        proof {
            let rest = name@.skip(start as int);
            lemma_next_label(rest, end - start);
            assert(rest.take(end - start) =~= name@.subrange(start as int, end as int));
            assert(all.skip(done)[0] == all[done]);
            if end == name@.len() {
                assert(rest =~= name@.subrange(start as int, end as int));
            }
        }
        if !is_portable_label(name, start, end) {
            assert(!portable_label(labels(name@)[done]));
            return Err("target host is not a portable ASCII hostname".to_owned());
        }
        if end == name.len() {
            assert(all.skip(done).len() == 1);
            assert(forall|i: int|
                #![trigger labels(name@)[i]]
                0 <= i < labels(name@).len() ==> portable_label(labels(name@)[i]));
            return Ok(());
        }
        proof {
            let rest = name@.skip(start as int);
            assert(rest.skip(end - start + 1) =~= name@.skip(end + 1));
            assert(all.skip(done + 1) =~= all.skip(done).skip(1));
            assert(all.skip(done).skip(1) =~= labels(name@.skip(end + 1)));
            assert(labels(name@.skip(end + 1)).len() > 0);
            done = done + 1;
        }
        start = end + 1;
    }
}

/// That a character is a space in ASCII: space, tab, line feed, form feed or carriage return.
pub open spec fn ascii_space(c: char) -> bool {
    c == ' ' || c == '\t' || c == '\n' || c == '\u{c}' || c == '\r'
}

/// That a host is written in ASCII without spaces and brackets around it.
pub open spec fn plainly_written(text: Seq<char>) -> bool {
    &&& forall|i: int|
        0 <= i < text.len() ==> (#[trigger] text[i] as int) < 128 && !ascii_space(text[i])
    &&& !edged_by_bracket(text)
}

/// Whether a host is written in ASCII without spaces and brackets around it.
fn is_plainly_written(text: &Vec<char>) -> (plain: bool)
    ensures
        plain == plainly_written(text@),
{
    let mut i: usize = 0;
    while i < text.len()
        invariant
            i <= text.len(),
            forall|j: int|
                0 <= j < i ==> (#[trigger] text@[j] as int) < 128 && !ascii_space(text@[j]),
        decreases text.len() - i,
    {
        let c = text[i];
        if c >= '\u{80}' || c == ' ' || c == '\t' || c == '\n' || c == '\u{c}' || c == '\r' {
            assert((text@[i as int] as int) >= 128 || ascii_space(text@[i as int]));
            return false;
        }
        i += 1;
    }
    !is_edged_by_bracket(text)
}

/// A letter in lower case; everything else as it is.
pub open spec fn lower(c: char) -> char {
    if 'A' <= c && c <= 'Z' {
        ((c as int) + 32) as char
    } else {
        c
    }
}

/// A text with its ASCII letters in lower case.
pub open spec fn lowered(text: Seq<char>) -> Seq<char> {
    text.map_values(|c: char| lower(c))
}

/// A text with its ASCII letters in lower case.
fn to_lower(text: &Vec<char>) -> (result: String)
    requires
        plainly_written(text@),
    ensures
        result@ == lowered(text@),
{
    let mut bytes: Vec<u8> = Vec::new();
    let mut i: usize = 0;
    while i < text.len()
        invariant
            i <= text.len(),
            plainly_written(text@),
            bytes@.len() == i,
            forall|j: int|
                0 <= j < i ==> #[trigger] bytes@[j] < 128 && bytes@[j] as char == lower(text@[j]),
        decreases text.len() - i,
    {
        assert((text@[i as int] as int) < 128);
        proof {
            char_is_scalar(text@[i as int]);
        }
        let code: u32 = text[i] as u32;
        assert(code < 128 ==> (code as u8) as u32 == code) by (bit_vector);
        let c: u8 = code as u8;
        if 0x41 <= c && c <= 0x5a {
            bytes.push(c + 32);
        } else {
            bytes.push(c);
        }
        i += 1;
    }
    let result = ascii_text(bytes.as_slice());
    assert(result@ =~= lowered(text@));
    result
}

/// What is wrong with a target, if anything is.
pub open spec fn target_fault(target: TargetSchema) -> Option<Seq<char>> {
    if target.port == 0 {
        Some("target port must not be zero"@)
    } else if target.host.text@.len() == 0 {
        Some("target host must not be empty"@)
    } else if !plainly_written(target.host.text@) {
        Some("target host must be an unbracketed IP literal or portable ASCII hostname"@)
    } else {
        match target.host.literal {
            Ok(literal) => if literal.address.unspecified() || literal.address.multicast() {
                Some("target IP address must not be unspecified or multicast"@)
            } else {
                None
            },
            Err(_) => hostname_fault(encode_utf8(target.host.text@)),
        }
    }
}

/// The host of a target in the form in which hosts are compared.
pub open spec fn target_host(target: TargetSchema) -> HostView {
    match target.host.literal {
        Ok(literal) => HostView::Ip(literal.address),
        Err(_) => HostView::Dns(lowered(target.host.text@)),
    }
}

/// Checks a target and gives its host in the form in which hosts are compared.
pub fn validate_target(target: &TargetSchema) -> (result: Result<CanonicalHost, String>)
    ensures
        match target_fault(*target) {
            None => result matches Ok(host) && host@ == target_host(*target),
            Some(text) => result matches Err(error) && error@ == text,
        },
{
    if target.port == 0 {
        return Err("target port must not be zero".to_owned());
    }
    let text = characters(target.host.text.as_str());
    if text.len() == 0 {
        return Err("target host must not be empty".to_owned());
    }
    if !is_plainly_written(&text) {
        return Err(
            "target host must be an unbracketed IP literal or portable ASCII hostname".to_owned(),
        );
    }
    match &target.host.literal {
        Ok(literal) => {
            if literal.address.is_unspecified() || literal.address.is_multicast() {
                return Err("target IP address must not be unspecified or multicast".to_owned());
            }
            Ok(CanonicalHost::Ip(literal.address))
        },
        Err(_) => match validate_hostname(target.host.text.as_str()) {
            Ok(_) => Ok(CanonicalHost::Dns(to_lower(&text))),
            Err(text) => Err(text),
        },
    }
}

/// The endpoint at which a server listens.
pub open spec fn listener_point(listener: ListenerSchema) -> EndpointView {
    EndpointView {
        host: unbracketed((listener.address.literal->Ok_0).text@),
        port: listener.port,
    }
}

/// The endpoint at which a server listens.
pub fn listener_endpoint(listener: &ListenerSchema) -> (result: Result<Endpoint, String>)
    ensures
        match listener_fault(*listener) {
            None => result matches Ok(endpoint) && endpoint@ == listener_point(*listener),
            Some(text) => result matches Err(error) && error@ == text,
        },
{
    match validate_listener(listener) {
        Ok(_) => {
            let host = match &listener.address.literal {
                Ok(literal) => literal.text.as_str(),
                Err(_) => "",
            };
            Ok(Endpoint::new(host, listener.port))
        },
        Err(text) => Err(text),
    }
}

/// The endpoint of a target.
pub open spec fn target_point(target: TargetSchema) -> EndpointView {
    EndpointView {
        host: unbracketed(
            match target.host.literal {
                Ok(literal) => literal.text@,
                Err(_) => lowered(target.host.text@),
            },
        ),
        port: target.port,
    }
}

/// The endpoint of a target.
pub fn target_endpoint(target: &TargetSchema) -> (result: Result<Endpoint, String>)
    ensures
        match target_fault(*target) {
            None => result matches Ok(endpoint) && endpoint@ == target_point(*target),
            Some(text) => result matches Err(error) && error@ == text,
        },
{
    match validate_target(target) {
        Ok(CanonicalHost::Dns(name)) => Ok(Endpoint::new(name.as_str(), target.port)),
        Ok(CanonicalHost::Ip(_)) => {
            let host = match &target.host.literal {
                Ok(literal) => literal.text.as_str(),
                Err(_) => "",
            };
            Ok(Endpoint::new(host, target.port))
        },
        Err(text) => Err(text),
    }
}

/// Host names are compared without regard to the case of their letters.
pub proof fn case_makes_no_difference(name: Seq<char>)
    ensures
        lowered(lowered(name)) == lowered(name),
{
    assert forall|i: int| 0 <= i < name.len() implies lowered(lowered(name))[i] == lowered(name)[i] by {
        let c = name[i];
        if 'A' <= c && c <= 'Z' {
            assert(((c as int) + 32) as char as int == (c as int) + 32);
        }
    }
    assert(lowered(lowered(name)) =~= lowered(name));
}

/// A listener is told no fault exactly if it has a port and an address that is a number without
/// brackets.
pub proof fn listeners_have_plain_addresses(listener: ListenerSchema)
    ensures
        listener_fault(listener) is None <==> listener.port > 0 && listener.address.literal is Ok
            && !(listener.address.text@.len() > 0 && (listener.address.text@[0] == '['
            || listener.address.text@.last() == ']')),
{
}

/// A target that is an address is told no fault exactly if it has a port, is written plainly, and
/// is neither unspecified nor a group: no IPv4 address from 224.0.0.0 to 239.255.255.255, no IPv6
/// address that begins with ff.
pub proof fn target_addresses_are_of_one_host(target: TargetSchema, literal: IpLiteral)
    requires
        target.host.literal == Ok::<IpLiteral, String>(literal),
    ensures
        target_fault(target) is None <==> target.port > 0 && target.host.text@.len() > 0
            && plainly_written(target.host.text@) && match literal.address {
            IpAddress::V4(bits) => bits != 0 && !(224 <= bits / 0x100_0000 <= 239),
            IpAddress::V6(bits) => bits != 0 && bits / 0x1_0000_0000_0000_0000_0000_0000_0000_00
                != 0xff,
        },
{
    match literal.address {
        IpAddress::V4(bits) => {
            assert((0xe000_0000 <= bits <= 0xefff_ffff) <==> 224 <= bits / 0x100_0000 <= 239);
        },
        IpAddress::V6(bits) => {
            assert(bits >= 0xff00_0000_0000_0000_0000_0000_0000_0000u128 <==> bits
                / 0x1_0000_0000_0000_0000_0000_0000_0000_00u128 == 0xff) by (bit_vector);
        },
    }
}

/// A text is written plainly exactly if all of it is ASCII without white space, and no bracket
/// stands at its edges.
pub proof fn plain_texts_are_ascii(text: Seq<char>)
    ensures
        plainly_written(text) <==> (forall|i: int|
            0 <= i < text.len() ==> (#[trigger] text[i] as int) <= 0x7f && text[i] != ' ' && text[i]
                != '\t' && text[i] != '\n' && text[i] != '\u{c}' && text[i] != '\r') && !(text.len()
            > 0 && (text[0] == '[' || text.last() == ']')),
{
    let plain = |i: int|
        (text[i] as int) <= 0x7f && text[i] != ' ' && text[i] != '\t' && text[i] != '\n' && text[i]
            != '\u{c}' && text[i] != '\r';
    if plainly_written(text) {
        assert forall|i: int| 0 <= i < text.len() implies (#[trigger] text[i] as int) <= 0x7f
            && text[i] != ' ' && text[i] != '\t' && text[i] != '\n' && text[i] != '\u{c}' && text[i]
            != '\r' by {
            assert((text[i] as int) < 128 && !ascii_space(text[i]));
        }
    }
}

/// The labels of a name, with dots between them, are the name; none of them holds a dot.
pub proof fn labels_stand_between_dots(name: Seq<u8>)
    ensures
        joined_labels(labels(name)) == name,
        labels(name).len() > 0,
        forall|i: int|
            #![trigger labels(name)[i]]
            0 <= i < labels(name).len() ==> !labels(name)[i].contains(0x2e),
    decreases name.len(),
{
    if name.contains(0x2e) {
        let at = name.index_of_first(0x2e)->0;
        name.index_of_first_ensures(0x2e);
        let rest = name.skip(at + 1);
        labels_stand_between_dots(rest);
        let first = name.take(at);
        let whole = labels(name);
        assert(whole.skip(1) =~= labels(rest));
        assert(first + seq![0x2eu8] + rest =~= name);
        assert forall|i: int| #![trigger whole[i]] 0 <= i < whole.len() implies !whole[i].contains(
            0x2e,
        ) by {
            if i > 0 {
                assert(whole[i] == labels(rest)[i - 1]);
            } else {
                assert(whole[0] == first);
            }
        }
    } else {
        assert(labels(name)[0] == name);
    }
}

/// Labels with a dot between each two of them.
pub open spec fn joined_labels(parts: Seq<Seq<u8>>) -> Seq<u8>
    decreases parts.len(),
{
    if parts.len() == 0 {
        Seq::empty()
    } else if parts.len() == 1 {
        parts[0]
    } else {
        parts[0] + seq![0x2eu8] + joined_labels(parts.skip(1))
    }
}

/// A name is told no fault exactly if it has at most 253 bytes and each of its labels has 1 to 63
/// letters, digits and hyphens, without a hyphen at its edges.
pub proof fn names_are_made_of_labels(name: Seq<u8>)
    ensures
        hostname_fault(name) is None <==> name.len() <= 253 && (forall|i: int|
            #![trigger labels(name)[i]]
            0 <= i < labels(name).len() ==> {
                let label = labels(name)[i];
                &&& 1 <= label.len() <= 63
                &&& label[0] != 45 && label.last() != 45
                &&& forall|j: int|
                    0 <= j < label.len() ==> 48 <= #[trigger] label[j] <= 57 || 65 <= label[j]
                        <= 90 || 97 <= label[j] <= 122 || label[j] == 45
            }) && !(name.len() > 0 && name.last() == 46),
{
    assert forall|label: Seq<u8>| #[trigger] portable_label(label) <==> (1 <= label.len() <= 63
        && label[0] != 45 && label.last() != 45 && forall|j: int|
        0 <= j < label.len() ==> 48 <= #[trigger] label[j] <= 57 || 65 <= label[j] <= 90 || 97
            <= label[j] <= 122 || label[j] == 45) by {
        if portable_label(label) {
            assert forall|j: int| 0 <= j < label.len() implies 48 <= #[trigger] label[j] <= 57 || 65
                <= label[j] <= 90 || 97 <= label[j] <= 122 || label[j] == 45 by {
                assert(alphanumeric(label[j]) || label[j] == 0x2d);
            }
        }
    }
    assert forall|i: int| #![trigger labels(name)[i]] 0 <= i < labels(name).len() implies (
    portable_label(labels(name)[i]) <==> {
        let label = labels(name)[i];
        &&& 1 <= label.len() <= 63
        &&& label[0] != 45 && label.last() != 45
        &&& forall|j: int|
            0 <= j < label.len() ==> 48 <= #[trigger] label[j] <= 57 || 65 <= label[j] <= 90 || 97
                <= label[j] <= 122 || label[j] == 45
    }) by {
        let label = labels(name)[i];
        assert(portable_label(label) || !portable_label(label));
    }
}

/// A target that is a name is told no fault exactly if it has a port, is written plainly, and the
/// name is well made. The name means the same in capitals.
pub proof fn target_names_are_well_made(target: TargetSchema)
    requires
        target.host.literal is Err,
    ensures
        target_fault(target) is None <==> target.port > 0 && target.host.text@.len() > 0
            && plainly_written(target.host.text@) && hostname_fault(
            encode_utf8(target.host.text@),
        ) is None,
        target_host(target) matches HostView::Dns(name) && name.len() == target.host.text@.len()
            && forall|i: int|
            0 <= i < name.len() ==> #[trigger] name[i] as int == (if 65 <= target.host.text@[i] as int
                <= 90 {
                target.host.text@[i] as int + 32
            } else {
                target.host.text@[i] as int
            }),
{
    let text = target.host.text@;
    assert forall|i: int| 0 <= i < text.len() implies #[trigger] lowered(text)[i] as int == (if 65
        <= text[i] as int <= 90 {
        text[i] as int + 32
    } else {
        text[i] as int
    }) by {
        let c = text[i];
        if 'A' <= c && c <= 'Z' {
            assert(((c as int) + 32) as char as int == (c as int) + 32);
        }
    }
}

/// What is listened on and what is connected to are the given address, or name in small letters,
/// and the given port.
pub proof fn endpoints_are_as_given(listener: ListenerSchema, target: TargetSchema)
    ensures
        listener_point(listener).port == listener.port,
        listener.address.literal matches Ok(literal) ==> listener_point(listener).host
            == unbracketed(literal.text@) && listener_address(listener) == literal.address,
        target_point(target).port == target.port,
        target.host.literal matches Ok(literal) ==> target_point(target).host == unbracketed(
            literal.text@,
        ) && target_host(target) == HostView::Ip(literal.address),
        target.host.literal is Err ==> target_host(target) == HostView::Dns(
            lowered(target.host.text@),
        ) && target_point(target).host == unbracketed(lowered(target.host.text@)),
{
}

} // verus!
