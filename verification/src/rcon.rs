//! The remote-console protocol: packets, logging in, running commands, probing.

use vstd::prelude::*;
use vstd::slice::{slice_subrange, slice_to_vec};
use vstd::string::{StringExecFns, StringSliceAdditionalSpecFns};
use vstd::utf8::encode_utf8;

use crate::bytes::{
    append_le, from_le, le_reads_back, lowest_bytes_come_first, ranges, read_le, read_utf8, to_le,
    utf8_fault, utf8_text, Utf8Fault,
};
use crate::text::{in_context, with_context};

verus! {

/// The kind of a login packet.
pub const AUTH: i32 = 3;

/// The kind of the answer to a login.
pub const AUTH_RESPONSE: i32 = 2;

/// The kind of a command packet.
pub const EXEC_COMMAND: i32 = 2;

/// The kind of the answer to a command.
pub const RESPONSE_VALUE: i32 = 0;

/// The longest command or password that the server takes, in bytes.
pub const MAX_COMMAND_BYTES: usize = 1_413;

/// The longest packet that is read.
pub const MAX_PACKET_BYTES: usize = 4_194_304;

/// The longest answer that is collected.
pub const MAX_RESPONSE_BYTES: usize = 1_048_576;

/// What a probe of a remote console shows.
#[derive(Clone, Copy, Debug, PartialEq, Eq, Structural)]
pub enum RconProbeClassification {
    /// The console accepted the password.
    Authenticated,
    /// Something accepted the connection but did not accept the password.
    AcceptedFailure,
    /// Nothing listens.
    Refused,
    /// The probe shows nothing.
    Inconclusive,
}

/// What is wrong with a console or its packets.
#[derive(Clone, Copy, Debug, PartialEq, Eq, Structural)]
pub enum RconError {
    LengthOverflow,
    PacketTooLong,
    LengthBelowMinimum,
    PacketLimit,
    Truncated,
    InvalidTerminators,
    AuthenticationFailed,
    UnexpectedAuthenticationId,
    UnexpectedResponse,
    ResponseLimit,
    InvalidUtf8(Utf8Fault),
}

impl RconError {
    /// The text of the error.
    pub fn message(self) -> (text: String)
        ensures
            text@ == match self {
                RconError::LengthOverflow => "RCON packet length overflow"@,
                RconError::PacketTooLong => "RCON packet is too long"@,
                RconError::LengthBelowMinimum => {
                    "RCON packet length is below the protocol minimum"@
                },
                RconError::PacketLimit => "RCON packet exceeds the 4194304-byte limit"@,
                RconError::Truncated => "RCON packet is truncated"@,
                RconError::InvalidTerminators => "RCON packet has invalid terminators"@,
                RconError::AuthenticationFailed => "RCON authentication failed"@,
                RconError::UnexpectedAuthenticationId => {
                    "RCON authentication response used an unexpected request ID"@
                },
                RconError::UnexpectedResponse => "RCON returned an unexpected response packet"@,
                RconError::ResponseLimit => "RCON response exceeds the 1048576-byte limit"@,
                RconError::InvalidUtf8(fault) => in_context(
                    "RCON response is not valid UTF-8"@,
                    fault.text(),
                ),
            },
    {
        match self {
            RconError::LengthOverflow => "RCON packet length overflow".to_owned(),
            RconError::PacketTooLong => "RCON packet is too long".to_owned(),
            RconError::LengthBelowMinimum => "RCON packet length is below the protocol minimum".to_owned(),
            RconError::PacketLimit => "RCON packet exceeds the 4194304-byte limit".to_owned(),
            RconError::Truncated => "RCON packet is truncated".to_owned(),
            RconError::InvalidTerminators => "RCON packet has invalid terminators".to_owned(),
            RconError::AuthenticationFailed => "RCON authentication failed".to_owned(),
            RconError::UnexpectedAuthenticationId => {
                "RCON authentication response used an unexpected request ID".to_owned()
            },
            RconError::UnexpectedResponse => "RCON returned an unexpected response packet".to_owned(),
            RconError::ResponseLimit => "RCON response exceeds the 1048576-byte limit".to_owned(),
            RconError::InvalidUtf8(fault) => with_context(
                "RCON response is not valid UTF-8",
                fault.message().as_str(),
            ),
        }
    }
}

/// A packet of the console.
#[derive(Debug)]
pub struct Packet {
    pub id: i32,
    pub kind: i32,
    pub body: Vec<u8>,
}

/// What a password or command must not be.
#[derive(Clone, Copy, Debug, PartialEq, Eq, Structural)]
pub enum BodyFault {
    TooLong,
    ContainsNul,
}

/// What is wrong with a password or command, if anything is.
pub open spec fn body_fault(value: Seq<char>) -> Option<BodyFault> {
    let bytes = encode_utf8(value);
    if bytes.len() > MAX_COMMAND_BYTES {
        Some(BodyFault::TooLong)
    } else if bytes.contains(0u8) {
        Some(BodyFault::ContainsNul)
    } else {
        None
    }
}

/// The text for a password or command that cannot be sent.
pub open spec fn body_fault_text(description: Seq<char>, fault: BodyFault) -> Seq<char> {
    match fault {
        BodyFault::TooLong => description + " exceeds the 1413-byte Minecraft limit"@,
        BodyFault::ContainsNul => description + " contains a NUL byte"@,
    }
}

/// Whether a byte occurs.
pub fn contains_byte(bytes: &[u8], wanted: u8) -> (found: bool)
    ensures
        found == bytes@.contains(wanted),
{
    let mut i: usize = 0;
    while i < bytes.len()
        invariant
            i <= bytes.len(),
            forall|j: int| 0 <= j < i ==> bytes@[j] != wanted,
        decreases bytes.len() - i,
    {
        if bytes[i] == wanted {
            assert(bytes@[i as int] == wanted);
            return true;
        }
        i += 1;
    }
    false
}

/// Checks a password or command; `description` says which it is.
pub fn validate_body(value: &str, description: &str) -> (result: Result<(), String>)
    ensures
        match body_fault(value@) {
            None => result is Ok,
            Some(fault) => result matches Err(text) && text@ == body_fault_text(
                description@,
                fault,
            ),
        },
{
    let bytes = value.as_bytes();
    if bytes.len() > MAX_COMMAND_BYTES {
        let mut text = description.to_owned();
        text.append(" exceeds the 1413-byte Minecraft limit");
        return Err(text);
    }
    if contains_byte(bytes, 0) {
        let mut text = description.to_owned();
        text.append(" contains a NUL byte");
        return Err(text);
    }
    Ok(())
}

/// A packet without its length: identifier and kind, the lowest byte first, the body and two
/// zeros.
pub open spec fn payload(id: i32, kind: i32, body: Seq<u8>) -> Seq<u8> {
    to_le(id as u32 as int, 4) + to_le(kind as u32 as int, 4) + body + seq![0u8, 0u8]
}

/// A packet on the wire.
pub open spec fn framed(id: i32, kind: i32, body: Seq<u8>) -> Seq<u8> {
    to_le((body.len() + 10) as int, 4) + payload(id, kind, body)
}

/// Encodes a packet.
pub fn encode_packet(id: i32, kind: i32, body: &[u8]) -> (result: Result<Vec<u8>, RconError>)
    ensures
        match result {
            Ok(packet) => body@.len() + 10 <= i32::MAX && packet@ == framed(id, kind, body@),
            Err(error) => error == (if body@.len() + 10 > usize::MAX {
                RconError::LengthOverflow
            } else {
                RconError::PacketTooLong
            }) && body@.len() + 10 > i32::MAX,
        },
{
    let payload_length: usize = match body.len().checked_add(10) {
        Some(length) => length,
        None => {
            return Err(RconError::LengthOverflow);
        },
    };
    if payload_length > 0x7fff_ffff {
        return Err(RconError::PacketTooLong);
    }
    let mut packet: Vec<u8> = Vec::new();
    append_le(&mut packet, payload_length as u64, 4);
    append_le(&mut packet, id as u32 as u64, 4);
    append_le(&mut packet, kind as u32 as u64, 4);
    packet.extend_from_slice(body);
    packet.push(0);
    packet.push(0);
    assert(packet@ =~= framed(id, kind, body@));
    Ok(packet)
}

/// What is wrong with a packet without its length, if anything is.
pub open spec fn payload_fault(bytes: Seq<u8>) -> Option<RconError> {
    if bytes.len() < 10 {
        Some(RconError::Truncated)
    } else if bytes[bytes.len() - 2] != 0 || bytes[bytes.len() - 1] != 0 {
        Some(RconError::InvalidTerminators)
    } else {
        None
    }
}

/// Decodes a packet without its length.
pub fn decode_payload(bytes: &[u8]) -> (result: Result<Packet, RconError>)
    ensures
        match payload_fault(bytes@) {
            Some(error) => result matches Err(found) && found == error,
            None => {
                &&& result matches Ok(packet)
                &&& packet.id == (from_le(bytes@.subrange(0, 4)) as u32) as i32
                &&& packet.kind == (from_le(bytes@.subrange(4, 8)) as u32) as i32
                &&& packet.body@ == bytes@.subrange(8, bytes@.len() - 2)
            },
        },
{
    if bytes.len() < 10 {
        return Err(RconError::Truncated);
    }
    if bytes[bytes.len() - 2] != 0 || bytes[bytes.len() - 1] != 0 {
        return Err(RconError::InvalidTerminators);
    }
    let id: u32 = read_le(slice_subrange(bytes, 0, 4));
    let kind: u32 = read_le(slice_subrange(bytes, 4, 8));
    let body = slice_to_vec(slice_subrange(bytes, 8, bytes.len() - 2));
    Ok(Packet { id: id as i32, kind: kind as i32, body })
}

/// A packet that was written is read back.
pub proof fn packet_reads_back(id: i32, kind: i32, body: Seq<u8>)
    requires
        body.len() + 10 <= i32::MAX,
    ensures
        ({
            let packet = framed(id, kind, body);
            let bytes = packet.skip(4);
            &&& from_le(packet.take(4)) == bytes.len()
            &&& payload_fault(bytes) is None
            &&& (from_le(bytes.subrange(0, 4)) as u32) as i32 == id
            &&& (from_le(bytes.subrange(4, 8)) as u32) as i32 == kind
            &&& bytes.subrange(8, bytes.len() - 2) == body
        }),
{
    ranges();
    let length = body.len() + 10;
    le_reads_back(length as int, 4);
    le_reads_back(id as u32 as int, 4);
    le_reads_back(kind as u32 as int, 4);
    let packet = framed(id, kind, body);
    let bytes = payload(id, kind, body);
    assert(packet.take(4) =~= to_le(length as int, 4));
    assert(packet.skip(4) =~= bytes);
    assert(bytes.subrange(0, 4) =~= to_le(id as u32 as int, 4));
    assert(bytes.subrange(4, 8) =~= to_le(kind as u32 as int, 4));
    assert(bytes.subrange(8, bytes.len() - 2) =~= body);
    assert((id as u32) as i32 == id) by (bit_vector);
    assert((kind as u32) as i32 == kind) by (bit_vector);
}

/// Checks the length in front of a packet.
pub fn packet_length(length: i32) -> (result: Result<usize, RconError>)
    ensures
        result == (if length < 10 {
            Err::<usize, RconError>(RconError::LengthBelowMinimum)
        } else if length > MAX_PACKET_BYTES {
            Err::<usize, RconError>(RconError::PacketLimit)
        } else {
            Ok::<usize, RconError>(length as usize)
        }),
        result is Ok <==> 10 <= length <= 4_194_304,
{
    if length < 10 {
        return Err(RconError::LengthBelowMinimum);
    }
    let length: usize = length as usize;
    if length > MAX_PACKET_BYTES {
        return Err(RconError::PacketLimit);
    }
    Ok(length)
}

/// The identifiers of the requests of one session.
#[derive(Clone, Copy, Debug, PartialEq, Eq, Structural)]
pub struct RequestIds {
    pub next_request_id: i32,
}

impl RequestIds {
    /// Identifiers are positive.
    pub open spec fn valid(self) -> bool {
        self.next_request_id >= 1
    }

    /// A new session.
    pub fn new() -> (ids: RequestIds)
        ensures
            ids.next_request_id == 1,
            ids.valid(),
    {
        RequestIds { next_request_id: 1 }
    }

    /// The identifier of the next request; they start over after the greatest.
    pub fn take(&mut self) -> (id: i32)
        requires
            old(self).valid(),
        ensures
            final(self).valid(),
            id == old(self).next_request_id,
            final(self).next_request_id == (if id == i32::MAX {
                1int
            } else {
                id + 1
            }),
    {
        let id: i32 = self.next_request_id;
        self.next_request_id = if id == 0x7fff_ffff {
            1
        } else {
            id + 1
        };
        id
    }
}

/// Two requests in a row never have the same identifier, and none has the one that stands for
/// a failed login.
pub proof fn request_ids_differ(ids: RequestIds, later: RequestIds)
    requires
        ids.valid(),
        later.next_request_id == (if ids.next_request_id == i32::MAX {
            1int
        } else {
            ids.next_request_id + 1
        }),
    ensures
        later.next_request_id != ids.next_request_id,
        ids.next_request_id != -1,
{
}

/// What a packet means while logging in.
#[derive(Clone, Copy, Debug, PartialEq, Eq, Structural)]
pub enum AuthenticationStep {
    /// It is not the answer; read on.
    Continue,
    Authenticated,
    Failed(RconError),
}

/// Takes a packet while logging in. Packets of another kind may come before the answer.
pub fn authentication_step(packet: &Packet, authentication_id: i32) -> (step: AuthenticationStep)
    ensures
        step == (if packet.kind != AUTH_RESPONSE {
            AuthenticationStep::Continue
        } else if packet.id == -1 {
            AuthenticationStep::Failed(RconError::AuthenticationFailed)
        } else if packet.id != authentication_id {
            AuthenticationStep::Failed(RconError::UnexpectedAuthenticationId)
        } else {
            AuthenticationStep::Authenticated
        }),
        step == AuthenticationStep::Authenticated <==> packet.kind == 2 && packet.id
            == authentication_id && packet.id != -1,
        step == AuthenticationStep::Continue <==> packet.kind != 2,
{
    if packet.kind != AUTH_RESPONSE {
        return AuthenticationStep::Continue;
    }
    if packet.id == -1 {
        return AuthenticationStep::Failed(RconError::AuthenticationFailed);
    }
    if packet.id != authentication_id {
        return AuthenticationStep::Failed(RconError::UnexpectedAuthenticationId);
    }
    AuthenticationStep::Authenticated
}

/// The answer to a command while it is being collected. The answer may come in several
/// packets; an empty command sent behind it marks its end.
#[derive(Debug)]
pub struct CommandResponse {
    pub command_id: i32,
    pub end_marker_id: i32,
    pub response: Vec<u8>,
}

/// What a packet means while an answer is collected.
#[derive(Debug)]
pub enum CommandStep {
    Continue,
    Complete(String),
    Failed(RconError),
}

impl CommandResponse {
    /// An answer of which nothing has come yet.
    pub fn new(command_id: i32, end_marker_id: i32) -> (collected: CommandResponse)
        ensures
            collected.command_id == command_id,
            collected.end_marker_id == end_marker_id,
            collected.response@ == Seq::<u8>::empty(),
    {
        CommandResponse { command_id, end_marker_id, response: Vec::new() }
    }

    /// Takes a packet.
    pub fn accept(&mut self, packet: &Packet) -> (step: CommandStep)
        ensures
            final(self).command_id == old(self).command_id,
            final(self).end_marker_id == old(self).end_marker_id,
            ({
                let collected = old(self).response@;
                if packet.id == old(self).end_marker_id {
                    &&& final(self).response@ == collected
                    &&& match utf8_text(collected) {
                        Some(text) => step matches CommandStep::Complete(answer) && answer@ == text,
                        None => step == CommandStep::Failed(
                            RconError::InvalidUtf8(utf8_fault(collected)),
                        ),
                    }
                } else if packet.id != old(self).command_id || packet.kind != RESPONSE_VALUE {
                    &&& final(self).response@ == collected
                    &&& step == CommandStep::Failed(RconError::UnexpectedResponse)
                } else if collected.len() + packet.body@.len() > MAX_RESPONSE_BYTES {
                    &&& final(self).response@ == collected
                    &&& step == CommandStep::Failed(RconError::ResponseLimit)
                } else {
                    &&& final(self).response@ == collected + packet.body@
                    &&& step == CommandStep::Continue
                }
            }),
            step is Continue <==> packet.id != old(self).end_marker_id && packet.id
                == old(self).command_id && packet.kind == 0 && old(self).response@.len()
                + packet.body@.len() <= 1_048_576,
    {
        if packet.id == self.end_marker_id {
            return match read_utf8(self.response.as_slice()) {
                Ok(text) => CommandStep::Complete(text.to_owned()),
                Err(fault) => CommandStep::Failed(RconError::InvalidUtf8(fault)),
            };
        }
        if packet.id != self.command_id || packet.kind != RESPONSE_VALUE {
            return CommandStep::Failed(RconError::UnexpectedResponse);
        }
        if self.response.len() > MAX_RESPONSE_BYTES || packet.body.len() > MAX_RESPONSE_BYTES
            - self.response.len() {
            return CommandStep::Failed(RconError::ResponseLimit);
        }
        self.response.extend_from_slice(packet.body.as_slice());
        assert(self.response@ =~= old(self).response@ + packet.body@);
        CommandStep::Continue
    }
}

/// What is wrong with a password, if anything is. The password itself is not told.
pub open spec fn secret_fault(password: Seq<char>) -> Option<Seq<char>> {
    if encode_utf8(password).len() == 0 {
        Some("RCON password must not be empty"@)
    } else {
        match body_fault(password) {
            Some(fault) => Some(body_fault_text("RCON password"@, fault)),
            None => None,
        }
    }
}

/// The complaint about a password is one of three texts: nothing of the password is in it.
pub proof fn refused_passwords_are_not_shown(password: Seq<char>)
    ensures
        secret_fault(password) matches Some(text) ==> text == "RCON password must not be empty"@
            || text == "RCON password"@ + " exceeds the 1413-byte Minecraft limit"@ || text
            == "RCON password"@ + " contains a NUL byte"@,
{
}

/// The password of a console. It is never shown.
pub struct RconSecret {
    password: String,
}

impl View for RconSecret {
    type V = Seq<char>;

    closed spec fn view(&self) -> Seq<char> {
        self.password@
    }
}

impl RconSecret {
    /// A password. It must not be empty, and it must be one that can be sent.
    pub fn new(password: String) -> (result: Result<RconSecret, String>)
        ensures
            match secret_fault(password@) {
                None => result matches Ok(secret) && secret@ == password@,
                Some(text) => result matches Err(error) && error@ == text,
            },
    {
        if password.as_str().as_bytes().len() == 0 {
            assert(encode_utf8(password@).len() == 0);
            return Err("RCON password must not be empty".to_owned());
        }
        match validate_body(password.as_str(), "RCON password") {
            Ok(_) => Ok(RconSecret { password }),
            Err(text) => Err(text),
        }
    }

    /// The password itself, for logging in.
    pub fn expose(&self) -> (password: &str)
        ensures
            password@ == self@,
    {
        self.password.as_str()
    }
}

/// A packet is its length without these four bytes, its identifier and its kind, each of four
/// bytes with the lowest first, the body, and two empty bytes. A login has the kind 3, a command
/// the kind 2.
pub proof fn packets_are_laid_out(id: i32, kind: i32, body: Seq<u8>)
    requires
        id >= 0,
        kind >= 0,
        body.len() + 10 <= i32::MAX,
    ensures
        ({
            let packet = framed(id, kind, body);
            let number = |at: int|
                packet[at] + 0x100 * packet[at + 1] + 0x1_0000 * packet[at + 2] + 0x100_0000
                    * packet[at + 3];
            &&& packet.len() == body.len() + 14
            &&& number(0) == body.len() + 10
            &&& number(4) == id
            &&& number(8) == kind
            &&& packet.subrange(12, 12 + body.len() as int) == body
            &&& packet[packet.len() - 2] == 0
            &&& packet.last() == 0
        }),
        AUTH == 3,
        EXEC_COMMAND == 2,
        AUTH_RESPONSE == 2,
        RESPONSE_VALUE == 0,
{
    ranges();
    let packet = framed(id, kind, body);
    assert(id as u32 as int == id) by {
        assert(id >= 0 ==> id as u32 == id) by (bit_vector);
    }
    assert(kind as u32 as int == kind) by {
        assert(kind >= 0 ==> kind as u32 == kind) by (bit_vector);
    }
    le_reads_back((body.len() + 10) as int, 4);
    le_reads_back(id as int, 4);
    le_reads_back(kind as int, 4);
    lowest_bytes_come_first(to_le((body.len() + 10) as int, 4));
    lowest_bytes_come_first(to_le(id as int, 4));
    lowest_bytes_come_first(to_le(kind as int, 4));
    assert(packet.subrange(12, 12 + body.len() as int) =~= body);
}

/// What is sent has at most 1413 bytes, none of them zero; a password is not empty either.
pub proof fn sent_texts_are_short(value: Seq<char>)
    ensures
        body_fault(value) is None <==> encode_utf8(value).len() <= 1413 && !encode_utf8(
            value,
        ).contains(0u8),
        secret_fault(value) is None <==> 1 <= encode_utf8(value).len() <= 1413 && !encode_utf8(
            value,
        ).contains(0u8),
{
}

/// A received packet holds at least its identifier, its kind and two empty bytes at the end.
pub proof fn received_packets_end_with_empty_bytes(bytes: Seq<u8>)
    ensures
        payload_fault(bytes) is None <==> bytes.len() >= 10 && bytes[bytes.len() - 2] == 0
            && bytes[bytes.len() - 1] == 0,
{
}

/// A complaint about what should be sent tells what it is about.
pub proof fn complaints_tell_what_is_sent(description: Seq<char>)
    ensures
        body_fault_text(description, BodyFault::TooLong) == description
            + " exceeds the 1413-byte Minecraft limit"@,
        body_fault_text(description, BodyFault::ContainsNul) == description
            + " contains a NUL byte"@,
{
}

} // verus!
