//! What clients ask of a sleeping server: handshakes, status requests, logins.

use vstd::prelude::*;
use vstd::slice::slice_subrange;
use vstd::string::StringExecFns;
use vstd::utf8::encode_utf8;

use crate::bytes::{
    append_be, be_reads_back, be_writes_back, from_be, ranges, read_utf8, to_be, utf16_units,
    utf8_text,
};

use super::packet::{
    bool_at, bytes_at, encode_packet, framed, numbers_are_read_anywhere, string_at, string_payload,
    texts_are_read_anywhere, varint_at, PacketCursor, PacketError,
};
use super::varint::{encoded, encoded_length};
use super::version::{
    catalogue, initial_protocol_follows_the_number, InitialProtocol, MinecraftVersion, Release,
};

verus! {

/// The longest handshake packet.
pub const MAX_HANDSHAKE_PACKET_LENGTH: usize = 1_024;

/// The longest packet that begins a login.
pub const MAX_LOGIN_START_PACKET_LENGTH: usize = 128;

/// The longest packet of a status exchange.
pub const MAX_STATUS_PACKET_LENGTH: usize = 32;

/// The longest address of a handshake, in UTF-16 units.
pub const MAX_ADDRESS_UNITS: usize = 255;

/// The longest user name, in UTF-16 units.
pub const MAX_USERNAME_UNITS: usize = 16;

/// How a client logs in.
#[derive(Clone, Copy, Debug, PartialEq, Eq, Structural)]
pub enum LoginIntent {
    Login,
    Transfer,
}

/// What a client says it wants.
#[derive(Clone, Copy, Debug, PartialEq, Eq, Structural)]
pub enum HandshakeIntent {
    Status,
    Login,
    Transfer,
    Unknown(i32),
}

/// What a client asks of a sleeping server.
#[derive(Clone, Copy, Debug, PartialEq, Eq, Structural)]
pub enum ClientRequest {
    Status,
    Login { intent: LoginIntent },
    UnsupportedProtocol { protocol_version: i32 },
}

/// The intent that a number stands for.
pub open spec fn intent_of(number: i32) -> HandshakeIntent {
    if number == 1 {
        HandshakeIntent::Status
    } else if number == 2 {
        HandshakeIntent::Login
    } else if number == 3 {
        HandshakeIntent::Transfer
    } else {
        HandshakeIntent::Unknown(number)
    }
}

/// A handshake: the protocol of the client, the address and port that it was told, and what it
/// wants.
pub struct HandshakeView {
    pub protocol_version: i32,
    pub requested_address: Seq<char>,
    pub address_start: int,
    pub address_end: int,
    pub requested_port: u16,
    pub intent: HandshakeIntent,
}

/// The handshake in the body of a packet.
pub open spec fn handshake_in(body: Seq<u8>) -> Result<HandshakeView, PacketError> {
    match varint_at(body, 0) {
        Err(error) => Err(error),
        Ok((id, after_id)) => if id != 0 {
            Err(PacketError::NotAHandshake)
        } else {
            match varint_at(body, after_id) {
                Err(error) => Err(error),
                Ok((protocol_version, after_version)) => {
                    match string_at(body, after_version, MAX_ADDRESS_UNITS as nat) {
                        Err(error) => Err(error),
                        Ok((requested_address, start, end)) => handshake_tail(
                            body,
                            protocol_version,
                            requested_address,
                            start,
                            end,
                        ),
                    }
                },
            }
        },
    }
}

/// The end of a handshake: port and intent.
pub open spec fn handshake_tail(
    body: Seq<u8>,
    protocol_version: i32,
    requested_address: Seq<char>,
    start: int,
    end: int,
) -> Result<HandshakeView, PacketError> {
    match bytes_at(body, end, 2) {
        Err(error) => Err(error),
        Ok((port, after_port)) => match varint_at(body, after_port) {
            Err(error) => Err(error),
            Ok((intent, after_intent)) => if after_intent != body.len() {
                Err(PacketError::TrailingData)
            } else {
                Ok(
                    HandshakeView {
                        protocol_version,
                        requested_address,
                        address_start: start,
                        address_end: end,
                        requested_port: from_be(port) as u16,
                        intent: intent_of(intent),
                    },
                )
            },
        },
    }
}

/// A connection whose handshake has been read. It keeps the bytes of the handshake, so that
/// they can be handed on as they came.
pub struct ConnectionEnvelope {
    framed_handshake: Vec<u8>,
    protocol_version: i32,
    address_start: usize,
    address_end: usize,
    requested_port: u16,
    intent: HandshakeIntent,
}

/// A [`ConnectionEnvelope`]: the bytes as they came, and the handshake that they hold.
pub struct EnvelopeView {
    pub framed_handshake: Seq<u8>,
    pub protocol_version: i32,
    pub requested_address: Seq<char>,
    pub requested_port: u16,
    pub intent: HandshakeIntent,
}

impl View for ConnectionEnvelope {
    type V = EnvelopeView;

    closed spec fn view(&self) -> EnvelopeView {
        EnvelopeView {
            framed_handshake: self.framed_handshake@,
            protocol_version: self.protocol_version,
            requested_address: vstd::utf8::decode_utf8(
                self.framed_handshake@.subrange(
                    self.address_start as int,
                    self.address_end as int,
                ),
            ),
            requested_port: self.requested_port,
            intent: self.intent,
        }
    }
}

impl ConnectionEnvelope {
    #[verifier::type_invariant]
    spec fn well_formed(self) -> bool {
        &&& self.address_start <= self.address_end <= self.framed_handshake@.len()
        &&& vstd::utf8::valid_utf8(
            self.framed_handshake@.subrange(self.address_start as int, self.address_end as int),
        )
    }

    /// Reads a handshake from a packet whose first `header` bytes are its length.
    pub fn read(framed_handshake: Vec<u8>, header: usize) -> (result: Result<
        ConnectionEnvelope,
        PacketError,
    >)
        requires
            header <= framed_handshake@.len(),
        ensures
            match handshake_in(framed_handshake@.skip(header as int)) {
                Ok(handshake) => result matches Ok(envelope) && envelope@ == (EnvelopeView {
                    framed_handshake: framed_handshake@,
                    protocol_version: handshake.protocol_version,
                    requested_address: handshake.requested_address,
                    requested_port: handshake.requested_port,
                    intent: handshake.intent,
                }),
                Err(error) => result matches Err(found) && found == error,
            },
    {
        let body = slice_subrange(framed_handshake.as_slice(), header, framed_handshake.len());
        assert(body@ =~= framed_handshake@.skip(header as int));
        let handshake = parse_handshake(body)?;
        let address_start: usize = header + handshake.address_start;
        let address_end: usize = header + handshake.address_end;
        assert(framed_handshake@.subrange(address_start as int, address_end as int)
            =~= body@.subrange(handshake.address_start as int, handshake.address_end as int));
        Ok(
            ConnectionEnvelope {
                framed_handshake,
                protocol_version: handshake.protocol_version,
                address_start,
                address_end,
                requested_port: handshake.requested_port,
                intent: handshake.intent,
            },
        )
    }

    /// The protocol of the client.
    pub fn protocol_version(&self) -> (protocol_version: i32)
        ensures
            protocol_version == self@.protocol_version,
    {
        self.protocol_version
    }

    /// What the client wants.
    pub fn intent(&self) -> (intent: HandshakeIntent)
        ensures
            intent == self@.intent,
    {
        self.intent
    }

    /// The address that the client was told.
    pub fn requested_address(&self) -> (address: &str)
        ensures
            address@ == self@.requested_address,
    {
        proof {
            use_type_invariant(self);
        }
        let bytes = slice_subrange(
            self.framed_handshake.as_slice(),
            self.address_start,
            self.address_end,
        );
        match read_utf8(bytes) {
            Ok(address) => address,
            Err(_) => "",
        }
    }

    /// The port that the client was told.
    pub fn requested_port(&self) -> (port: u16)
        ensures
            port == self@.requested_port,
    {
        self.requested_port
    }

    /// The bytes of the handshake, for handing them on.
    pub fn framed_handshake(&self) -> (bytes: &[u8])
        ensures
            bytes@ == self@.framed_handshake,
    {
        self.framed_handshake.as_slice()
    }

    /// The bytes of the handshake, for handing them on.
    pub fn into_framed_handshake(self) -> (bytes: Vec<u8>)
        ensures
            bytes@ == self@.framed_handshake,
    {
        self.framed_handshake
    }
}

/// A handshake as it was parsed.
pub struct Handshake {
    pub protocol_version: i32,
    pub address_start: usize,
    pub address_end: usize,
    pub requested_port: u16,
    pub intent: HandshakeIntent,
}

/// Parses the body of a handshake packet.
pub fn parse_handshake(packet: &[u8]) -> (result: Result<Handshake, PacketError>)
    ensures
        match handshake_in(packet@) {
            Ok(view) => {
                &&& result matches Ok(handshake)
                &&& handshake.protocol_version == view.protocol_version
                &&& handshake.address_start == view.address_start
                &&& handshake.address_end == view.address_end
                &&& handshake.requested_port == view.requested_port
                &&& handshake.intent == view.intent
                &&& handshake.address_start <= handshake.address_end <= packet@.len()
                &&& utf8_text(
                    packet@.subrange(view.address_start, view.address_end),
                ) == Some(view.requested_address)
            },
            Err(error) => result matches Err(found) && found == error,
        },
{
    let mut cursor = PacketCursor::new(packet);
    let id: i32 = cursor.read_varint()?;
    if id != 0 {
        return Err(PacketError::NotAHandshake);
    }
    let protocol_version: i32 = cursor.read_varint()?;
    let address = cursor.read_string_with_range(MAX_ADDRESS_UNITS)?;
    let requested_port: u16 = cursor.read_u16()?;
    let number: i32 = cursor.read_varint()?;
    let intent = match number {
        1 => HandshakeIntent::Status,
        2 => HandshakeIntent::Login,
        3 => HandshakeIntent::Transfer,
        other => HandshakeIntent::Unknown(other),
    };
    cursor.ensure_finished()?;
    Ok(
        Handshake {
            protocol_version,
            address_start: address.start,
            address_end: address.end,
            requested_port,
            intent,
        },
    )
}

/// That a client of this release may log in in this way.
pub open spec fn intent_supported(release: Release, intent: LoginIntent) -> bool {
    intent == LoginIntent::Login || release.initial_protocol
        == InitialProtocol::RequiredUuidAndTransfer
}

/// The text of a refused transfer.
pub open spec fn transfer_refusal(release: Release) -> Seq<char> {
    "transfer login is not supported by Minecraft Java "@ + release.name
}

/// Refuses a transfer where the release does not know it.
pub fn validate_login_intent(minecraft_version: MinecraftVersion, intent: LoginIntent) -> (result:
    Result<(), String>)
    ensures
        match result {
            Ok(_) => intent_supported(minecraft_version@, intent),
            Err(text) => !intent_supported(minecraft_version@, intent) && text@
                == transfer_refusal(minecraft_version@),
        },
{
    if intent != LoginIntent::Transfer || minecraft_version.initial_protocol()
        == InitialProtocol::RequiredUuidAndTransfer {
        return Ok(());
    }
    let mut text = "transfer login is not supported by Minecraft Java ".to_owned();
    text.append(minecraft_version.name());
    Err(text)
}

/// What comes behind the user name in the packet that begins a login: the position of the end.
pub open spec fn identifier_at(packet: Seq<u8>, at: int, protocol: InitialProtocol) -> Result<
    int,
    PacketError,
> {
    if protocol == InitialProtocol::OptionalUuid {
        match bool_at(packet, at) {
            Err(error) => Err(error),
            Ok((false, end)) => Ok(end),
            Ok((true, start)) => match bytes_at(packet, start, 16) {
                Err(error) => Err(error),
                Ok((_, end)) => Ok(end),
            },
        }
    } else {
        match bytes_at(packet, at, 16) {
            Err(error) => Err(error),
            Ok((_, end)) => Ok(end),
        }
    }
}

/// What is wrong with a packet that should begin a login, if anything is.
pub open spec fn login_start_in(packet: Seq<u8>, protocol: InitialProtocol) -> Result<
    (),
    PacketError,
> {
    match varint_at(packet, 0) {
        Err(error) => Err(error),
        Ok((id, after_id)) => if id != 0 {
            Err(PacketError::NotALoginStart)
        } else {
            match string_at(packet, after_id, MAX_USERNAME_UNITS as nat) {
                Err(error) => Err(error),
                Ok((username, _, after_name)) => if username.len() == 0 {
                    Err(PacketError::EmptyUsername)
                } else {
                    match identifier_at(packet, after_name, protocol) {
                        Err(error) => Err(error),
                        Ok(end) => if end == packet.len() {
                            Ok(())
                        } else {
                            Err(PacketError::TrailingData)
                        },
                    }
                },
            }
        },
    }
}

/// Checks a packet that should begin a login.
pub fn parse_login_start(packet: &[u8], minecraft_version: MinecraftVersion) -> (result: Result<
    (),
    PacketError,
>)
    ensures
        result == login_start_in(packet@, minecraft_version@.initial_protocol),
{
    let mut cursor = PacketCursor::new(packet);
    let id: i32 = cursor.read_varint()?;
    if id != 0 {
        return Err(PacketError::NotALoginStart);
    }
    let username = cursor.read_string(MAX_USERNAME_UNITS)?;
    if username.is_empty() {
        return Err(PacketError::EmptyUsername);
    }
    match minecraft_version.initial_protocol() {
        InitialProtocol::OptionalUuid => {
            if cursor.read_bool()? {
                cursor.read_bytes(16)?;
            }
        },
        InitialProtocol::RequiredUuid | InitialProtocol::RequiredUuidAndTransfer => {
            cursor.read_bytes(16)?;
        },
    }
    cursor.ensure_finished()
}

/// What is wrong with a packet that should ask for the status, if anything is.
pub open spec fn status_request_in(packet: Seq<u8>) -> Result<(), PacketError> {
    match varint_at(packet, 0) {
        Err(error) => Err(error),
        Ok((id, end)) => if id != 0 {
            Err(PacketError::NotAStatusRequest)
        } else if end != packet.len() {
            Err(PacketError::TrailingData)
        } else {
            Ok(())
        },
    }
}

/// Checks a packet that should ask for the status.
pub fn parse_status_request(packet: &[u8]) -> (result: Result<(), PacketError>)
    ensures
        result == status_request_in(packet@),
{
    let mut cursor = PacketCursor::new(packet);
    let id: i32 = cursor.read_varint()?;
    if id != 0 {
        return Err(PacketError::NotAStatusRequest);
    }
    cursor.ensure_finished()
}

/// The eight bytes that a ping carries.
pub open spec fn ping_in(packet: Seq<u8>) -> Result<Seq<u8>, PacketError> {
    match varint_at(packet, 0) {
        Err(error) => Err(error),
        Ok((id, after_id)) => if id != 1 {
            Err(PacketError::NotAStatusPing)
        } else {
            match bytes_at(packet, after_id, 8) {
                Err(error) => Err(error),
                Ok((timestamp, end)) => if end != packet.len() {
                    Err(PacketError::TrailingData)
                } else {
                    Ok(timestamp)
                },
            }
        },
    }
}

/// The answer to a ping: a packet with the same eight bytes.
pub fn pong(packet: &[u8]) -> (result: Result<Vec<u8>, PacketError>)
    ensures
        match ping_in(packet@) {
            Ok(timestamp) => result matches Ok(answer) && answer@ == framed(1, timestamp),
            Err(error) => result matches Err(found) && found == error,
        },
{
    let mut cursor = PacketCursor::new(packet);
    let id: i32 = cursor.read_varint()?;
    if id != 1 {
        return Err(PacketError::NotAStatusPing);
    }
    let ghost start = cursor.offset as int;
    let timestamp: i64 = cursor.read_i64()?;
    cursor.ensure_finished()?;
    let mut payload: Vec<u8> = Vec::new();
    append_be(&mut payload, timestamp as u64, 8);
    proof {
        let bytes = packet@.subrange(start, start + 8);
        let bits = from_be(bytes) as u64;
        ranges();
        be_writes_back(bytes);
        assert((bits as i64) as u64 == bits) by (bit_vector);
        assert(payload@ =~= bytes);
        encoded_length(1u32);
        assert(1i32 as u32 == 1u32) by (bit_vector);
    }
    encode_packet(1, payload.as_slice())
}

/// What to do with a connection to a sleeping server.
#[derive(Clone, Copy, Debug, PartialEq, Eq, Structural)]
pub enum SleepingStep {
    /// Read one packet and check that it asks for the status.
    ReadStatusRequest,
    /// Read one packet and check that it begins a login.
    ReadLoginStart { intent: LoginIntent },
    /// The client cannot be served: it speaks another protocol.
    Unsupported { protocol_version: i32 },
    /// The client wants something that nobody knows.
    Ignore,
}

/// The way in which a client logs in, if it does.
pub open spec fn login_intent(intent: HandshakeIntent) -> Option<LoginIntent> {
    match intent {
        HandshakeIntent::Login => Some(LoginIntent::Login),
        HandshakeIntent::Transfer => Some(LoginIntent::Transfer),
        _ => None,
    }
}

/// What to do with a connection to a sleeping server. A login in another protocol is answered
/// without waking the server.
pub fn read_sleeping_request(connection: &ConnectionEnvelope, minecraft_version: MinecraftVersion) -> (result:
    Result<SleepingStep, String>)
    ensures
        ({
            let handshake = connection@;
            let release = minecraft_version@;
            match login_intent(handshake.intent) {
                None => result == Ok::<SleepingStep, String>(
                    if handshake.intent == HandshakeIntent::Status {
                        SleepingStep::ReadStatusRequest
                    } else {
                        SleepingStep::Ignore
                    },
                ),
                Some(intent) => if handshake.protocol_version != release.protocol {
                    result == Ok::<SleepingStep, String>(
                        SleepingStep::Unsupported { protocol_version: handshake.protocol_version },
                    )
                } else if intent_supported(release, intent) {
                    result == Ok::<SleepingStep, String>(SleepingStep::ReadLoginStart { intent })
                } else {
                    result matches Err(text) && text@ == transfer_refusal(release)
                },
            }
        }),
{
    let intent = match connection.intent() {
        HandshakeIntent::Status => {
            return Ok(SleepingStep::ReadStatusRequest);
        },
        HandshakeIntent::Login => LoginIntent::Login,
        HandshakeIntent::Transfer => LoginIntent::Transfer,
        HandshakeIntent::Unknown(_) => {
            return Ok(SleepingStep::Ignore);
        },
    };
    if connection.protocol_version() != minecraft_version.protocol() {
        return Ok(
            SleepingStep::Unsupported { protocol_version: connection.protocol_version() },
        );
    }
    match validate_login_intent(minecraft_version, intent) {
        Ok(_) => Ok(SleepingStep::ReadLoginStart { intent }),
        Err(text) => Err(text),
    }
}

/// How a socket failed.
#[derive(Clone, Copy, Debug, PartialEq, Eq, Structural)]
pub enum SocketFault {
    UnexpectedEof,
    BrokenPipe,
    ConnectionAborted,
    ConnectionReset,
    Other,
}

/// Whether a client that stops after the status just hung up, as clients do.
pub fn is_normal_client_close(fault: SocketFault) -> (normal: bool)
    ensures
        normal == (fault != SocketFault::Other),
{
    match fault {
        SocketFault::UnexpectedEof
        | SocketFault::BrokenPipe
        | SocketFault::ConnectionAborted
        | SocketFault::ConnectionReset => true,
        SocketFault::Other => false,
    }
}

/// Whether a socket that cannot be shut down is simply gone already.
pub fn is_normal_disconnect(fault: SocketFault) -> (normal: bool)
    ensures
        normal == (fault != SocketFault::Other && fault != SocketFault::UnexpectedEof),
{
    match fault {
        SocketFault::BrokenPipe
        | SocketFault::ConnectionAborted
        | SocketFault::ConnectionReset => true,
        SocketFault::UnexpectedEof | SocketFault::Other => false,
    }
}

/// A handshake is read as it was sent: the protocol, the address, the port and what the client
/// wants, 1 for the status, 2 for a login and 3 for a transfer. A longer address than 255 units is
/// refused.
pub proof fn handshakes_are_read_as_sent(
    protocol: i32,
    address: Seq<char>,
    port: u16,
    intent: i32,
)
    requires
        encode_utf8(address).len() <= i32::MAX,
    ensures
        ({
            let body = encoded(0) + encoded(protocol as u32) + string_payload(address) + to_be(
                port as int,
                2,
            ) + encoded(intent as u32);
            let found = handshake_in(body);
            &&& utf16_units(address) > 255 ==> found is Err
            &&& utf16_units(address) <= 255 ==> {
                &&& found matches Ok(handshake)
                &&& handshake.protocol_version == protocol
                &&& handshake.requested_address == address
                &&& handshake.requested_port == port
                &&& handshake.intent == HandshakeIntent::Status <==> intent == 1
                &&& handshake.intent == HandshakeIntent::Login <==> intent == 2
                &&& handshake.intent == HandshakeIntent::Transfer <==> intent == 3
                &&& intent < 1 || intent > 3 ==> handshake.intent == HandshakeIntent::Unknown(
                    intent,
                )
            }
        }),
{
    let first = encoded(0);
    let second = encoded(protocol as u32);
    let third = string_payload(address);
    let fourth = to_be(port as int, 2);
    let fifth = encoded(intent as u32);
    let body = first + second + third + fourth + fifth;
    ranges();
    be_reads_back(port as int, 2);
    numbers_are_read_anywhere(Seq::empty(), 0, second + third + fourth + fifth);
    assert(0i32 as u32 == 0u32) by (bit_vector);
    assert(body =~= Seq::<u8>::empty() + first + (second + third + fourth + fifth));
    numbers_are_read_anywhere(first, protocol, third + fourth + fifth);
    assert(body =~= first + second + (third + fourth + fifth));
    texts_are_read_anywhere(first + second, address, fourth + fifth, 255);
    assert(body =~= first + second + third + (fourth + fifth));
    let front = first + second + third;
    assert(body.subrange(front.len() as int, front.len() as int + 2) =~= fourth);
    numbers_are_read_anywhere(front + fourth, intent, Seq::empty());
    assert(body =~= front + fourth + fifth + Seq::<u8>::empty());
}

proof fn lemma_login_start(username: Seq<char>, identifier: Seq<u8>, protocol: InitialProtocol)
    requires
        encode_utf8(username).len() <= i32::MAX,
    ensures
        ({
            let front = encoded(0) + string_payload(username);
            let packet = front + identifier;
            &&& utf16_units(username) > 16 ==> login_start_in(packet, protocol) is Err
            &&& utf16_units(username) <= 16 ==> login_start_in(packet, protocol) == (
            if username.len() == 0 {
                Err::<(), PacketError>(PacketError::EmptyUsername)
            } else {
                match identifier_at(packet, front.len() as int, protocol) {
                    Err(error) => Err(error),
                    Ok(end) => if end == packet.len() {
                        Ok(())
                    } else {
                        Err(PacketError::TrailingData)
                    },
                }
            })
        }),
{
    let first = encoded(0);
    let second = string_payload(username);
    let packet = first + second + identifier;
    numbers_are_read_anywhere(Seq::empty(), 0, second + identifier);
    assert(0i32 as u32 == 0u32) by (bit_vector);
    assert(packet =~= Seq::<u8>::empty() + first + (second + identifier));
    texts_are_read_anywhere(first, username, identifier, 16);
}

/// A login begins with a name of 1 to 16 units and the player's identifier of 16 bytes, behind a
/// truth value where the release leaves the identifier out at will; nothing follows.
pub proof fn logins_begin_with_a_name(
    username: Seq<char>,
    identifier: Seq<u8>,
    protocol: InitialProtocol,
)
    requires
        encode_utf8(username).len() <= i32::MAX,
    ensures
        ({
            let packet = encoded(0) + string_payload(username) + identifier;
            login_start_in(packet, protocol) is Ok <==> username.len() > 0 && utf16_units(username)
                <= 16 && if protocol == InitialProtocol::OptionalUuid {
                (identifier.len() == 1 && identifier[0] == 0) || (identifier.len() == 17
                    && identifier[0] == 1)
            } else {
                identifier.len() == 16
            }
        }),
{
    lemma_login_start(username, identifier, protocol);
    let front = encoded(0) + string_payload(username);
    let packet = front + identifier;
    if identifier.len() > 0 {
        assert(packet[front.len() as int] == identifier[0]);
    }
}

/// A status request is a packet of nothing but its number, 0. A ping is the number 1 with eight
/// bytes, which are the answer.
pub proof fn status_packets_are_read_as_sent(number: i32, payload: Seq<u8>)
    ensures
        status_request_in(encoded(number as u32) + payload) is Ok <==> number == 0 && payload.len()
            == 0,
        ping_in(encoded(number as u32) + payload) is Ok <==> number == 1 && payload.len() == 8,
        ping_in(encoded(number as u32) + payload) matches Ok(timestamp) ==> timestamp == payload,
{
    let packet = encoded(number as u32) + payload;
    numbers_are_read_anywhere(Seq::empty(), number, payload);
    assert(packet =~= Seq::<u8>::empty() + encoded(number as u32) + payload);
    let start = encoded(number as u32).len() as int;
    if payload.len() == 8 {
        assert(packet.subrange(start, start + 8) =~= payload);
    }
}

/// Every release takes logins; transfers are taken by the releases from protocol 766 on.
pub proof fn transfers_are_taken_by_newer_releases(index: int, intent: LoginIntent)
    requires
        0 <= index < catalogue().len(),
    ensures
        intent_supported(catalogue()[index], LoginIntent::Login),
        intent_supported(catalogue()[index], LoginIntent::Transfer)
            <==> catalogue()[index].protocol >= 766,
{
    initial_protocol_follows_the_number(index);
}

/// Logins and transfers are the only handshakes that log in.
pub proof fn only_logins_log_in(intent: HandshakeIntent)
    ensures
        login_intent(intent) == Some(LoginIntent::Login) <==> intent == HandshakeIntent::Login,
        login_intent(intent) == Some(LoginIntent::Transfer) <==> intent
            == HandshakeIntent::Transfer,
{
}

/// A handshake has at most 1024 bytes, the packet that begins a login at most 128, and the
/// packets of a status exchange at most 32.
pub proof fn requests_are_short(length: usize)
    ensures
        length <= MAX_HANDSHAKE_PACKET_LENGTH <==> length <= 1024,
        length <= MAX_LOGIN_START_PACKET_LENGTH <==> length <= 128,
        length <= MAX_STATUS_PACKET_LENGTH <==> length <= 32,
{
    assert(MAX_HANDSHAKE_PACKET_LENGTH == 1024 && MAX_LOGIN_START_PACKET_LENGTH == 128
        && MAX_STATUS_PACKET_LENGTH == 32);
}

} // verus!
