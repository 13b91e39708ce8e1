//! Minecraft packets: a length, then as many bytes, which begin with an identifier.

use vstd::prelude::*;
use vstd::slice::slice_subrange;
use vstd::string::StringExecFns;
use vstd::string::StringSliceAdditionalSpecFns;
use vstd::utf8::encode_utf8;

use crate::bytes::{
    fits_utf16, from_be, read_be, read_utf8, utf16_units, utf8_bytes_per_unit, utf8_fault,
    utf8_text, Utf8Fault,
};
use crate::text::{append_decimal, decimal, in_context, with_context};

use super::varint::{
    decode_varint, decoded, encoded, encoded_length, value, varint_reads_back, varint_size,
    write_varint, VarIntError,
};

verus! {

/// The longest packet of the protocol.
pub const MAX_PACKET_LENGTH: usize = 0x1f_ffff;

/// The longest text of the protocol, in UTF-16 units.
pub const MAX_STRING_UNITS: usize = 32_767;

/// What is wrong with a packet.
#[derive(Clone, Copy, Debug, PartialEq, Eq, Structural)]
pub enum PacketError {
    TruncatedVarInt,
    VarIntTooLarge,
    NegativeStringLength,
    StringByteLimit,
    InvalidUtf8(Utf8Fault),
    StringUnitLimit,
    InvalidBoolean(u8),
    Truncated,
    TrailingData,
    NotAHandshake,
    NotALoginStart,
    NotAStatusRequest,
    NotAStatusPing,
    EmptyUsername,
    StringTooLong,
    LengthOverflow,
    PacketTooLong,
}

impl PacketError {
    /// The text of the error, in mathematical form.
    pub open spec fn text(self) -> Seq<char> {
        match self {
            PacketError::TruncatedVarInt => "truncated VarInt"@,
            PacketError::VarIntTooLarge => "VarInt exceeds 32 bits"@,
            PacketError::NegativeStringLength => "string has a negative byte length"@,
            PacketError::StringByteLimit => "string exceeds its encoded byte limit"@,
            PacketError::InvalidUtf8(fault) => in_context(
                "string is not valid UTF-8"@,
                fault.text(),
            ),
            PacketError::StringUnitLimit => "string exceeds its UTF-16 length limit"@,
            PacketError::InvalidBoolean(found) => "invalid Boolean value "@ + decimal(
                found as nat,
            ),
            PacketError::Truncated => "packet is truncated"@,
            PacketError::TrailingData => "packet contains trailing data"@,
            PacketError::NotAHandshake => "expected handshake packet ID 0"@,
            PacketError::NotALoginStart => "expected login start packet ID 0"@,
            PacketError::NotAStatusRequest => "expected status request packet ID 0"@,
            PacketError::NotAStatusPing => "expected status ping packet ID 1"@,
            PacketError::EmptyUsername => "login username must not be empty"@,
            PacketError::StringTooLong => "packet string exceeds 32767 UTF-16 code units"@,
            PacketError::LengthOverflow => "packet length overflow"@,
            PacketError::PacketTooLong => "packet exceeds protocol limit"@,
        }
    }

    /// The text of the error.
    pub fn message(self) -> (text: String)
        ensures
            text@ == self.text(),
    {
        match self {
            PacketError::TruncatedVarInt => "truncated VarInt".to_owned(),
            PacketError::VarIntTooLarge => "VarInt exceeds 32 bits".to_owned(),
            PacketError::NegativeStringLength => "string has a negative byte length".to_owned(),
            PacketError::StringByteLimit => "string exceeds its encoded byte limit".to_owned(),
            PacketError::InvalidUtf8(fault) => with_context(
                "string is not valid UTF-8",
                fault.message().as_str(),
            ),
            PacketError::StringUnitLimit => "string exceeds its UTF-16 length limit".to_owned(),
            PacketError::InvalidBoolean(found) => {
                let mut text = "invalid Boolean value ".to_owned();
                append_decimal(&mut text, found as u64);
                text
            },
            PacketError::Truncated => "packet is truncated".to_owned(),
            PacketError::TrailingData => "packet contains trailing data".to_owned(),
            PacketError::NotAHandshake => "expected handshake packet ID 0".to_owned(),
            PacketError::NotALoginStart => "expected login start packet ID 0".to_owned(),
            PacketError::NotAStatusRequest => "expected status request packet ID 0".to_owned(),
            PacketError::NotAStatusPing => "expected status ping packet ID 1".to_owned(),
            PacketError::EmptyUsername => "login username must not be empty".to_owned(),
            PacketError::StringTooLong => {
                "packet string exceeds 32767 UTF-16 code units".to_owned()
            },
            PacketError::LengthOverflow => "packet length overflow".to_owned(),
            PacketError::PacketTooLong => "packet exceeds protocol limit".to_owned(),
        }
    }
}

/// A packet on the wire.
pub open spec fn framed(id: i32, payload: Seq<u8>) -> Seq<u8> {
    let body = encoded(id as u32) + payload;
    encoded(body.len() as u32) + body
}

/// The payload of a packet that holds one text.
pub open spec fn string_payload(text: Seq<char>) -> Seq<u8> {
    let bytes = encode_utf8(text);
    encoded(bytes.len() as u32) + bytes
}

/// Encodes a packet.
pub fn encode_packet(packet_id: i32, payload: &[u8]) -> (result: Result<Vec<u8>, PacketError>)
    ensures
        ({
            let length = encoded(packet_id as u32).len() + payload@.len();
            match result {
                Ok(packet) => length <= MAX_PACKET_LENGTH && packet@ == framed(packet_id, payload@),
                Err(PacketError::LengthOverflow) => length > usize::MAX,
                Err(error) => error == PacketError::PacketTooLong && MAX_PACKET_LENGTH < length
                    <= usize::MAX,
            }
        }),
        result is Ok <==> encoded(packet_id as u32).len() + payload@.len() <= 2_097_151,
{
    let body_length: usize = match varint_size(packet_id).checked_add(payload.len()) {
        Some(length) => length,
        None => {
            return Err(PacketError::LengthOverflow);
        },
    };
    if body_length > MAX_PACKET_LENGTH {
        return Err(PacketError::PacketTooLong);
    }
    let mut packet: Vec<u8> = Vec::new();
    write_varint(body_length as i32, &mut packet);
    write_varint(packet_id, &mut packet);
    packet.extend_from_slice(payload);
    proof {
        let length = body_length as i32;
        assert(length as u32 == body_length as u32) by (bit_vector)
            requires
                length == body_length as i32,
                body_length <= 0x1f_ffff,
        ;
        let body = encoded(packet_id as u32) + payload@;
        assert(packet@ =~= encoded(body.len() as u32) + body);
    }
    Ok(packet)
}

/// Encodes a packet that holds one text.
pub fn encode_string_packet(packet_id: i32, text: &str) -> (result: Result<Vec<u8>, PacketError>)
    ensures
        match result {
            Ok(packet) => utf16_units(text@) <= MAX_STRING_UNITS && packet@ == framed(
                packet_id,
                string_payload(text@),
            ),
            Err(error) => error == PacketError::StringTooLong && utf16_units(text@)
                > MAX_STRING_UNITS,
        },
        result is Ok <==> utf16_units(text@) <= 32_767,
{
    if !fits_utf16(text, MAX_STRING_UNITS) {
        return Err(PacketError::StringTooLong);
    }
    let bytes = text.as_bytes();
    proof {
        utf8_bytes_per_unit(text@);
    }
    let length: i32 = bytes.len() as i32;
    let mut payload: Vec<u8> = Vec::new();
    write_varint(length, &mut payload);
    payload.extend_from_slice(bytes);
    proof {
        let count = bytes@.len() as u32;
        assert(length as u32 == count) by (bit_vector)
            requires
                length == count as i32,
                count <= 98_301,
        ;
        assert(payload@ =~= string_payload(text@));
        encoded_length(count);
        encoded_length(packet_id as u32);
    }
    encode_packet(packet_id, payload.as_slice())
}

/// What the first bytes of a packet say about its length.
#[derive(Clone, Copy, Debug, PartialEq, Eq, Structural)]
pub enum FramePrefix {
    /// More bytes are needed.
    Incomplete,
    /// The length is complete: so many bytes of it, so many bytes after it.
    Body { header: usize, length: usize },
    /// The length takes more than three bytes.
    TooManyBytes,
    /// The packet is longer than allowed.
    TooLong { length: usize },
}

/// What the first bytes of a packet say about its length; `at` of them, all with the top bit
/// set, have been passed already.
pub open spec fn frame_prefix_from(prefix: Seq<u8>, limit: usize, at: int) -> FramePrefix
    decreases 3 - at,
{
    if at >= 3 || at < 0 {
        FramePrefix::TooManyBytes
    } else if at >= prefix.len() {
        FramePrefix::Incomplete
    } else if prefix[at] >= 0x80 {
        frame_prefix_from(prefix, limit, at + 1)
    } else {
        let length = value(prefix.take(at + 1));
        if length > limit {
            FramePrefix::TooLong { length: length as usize }
        } else {
            FramePrefix::Body { header: (at + 1) as usize, length: length as usize }
        }
    }
}

/// Reads the length of a packet from its first bytes. A length of three bytes never exceeds
/// the limit of the protocol, so only the limit of the occasion is looked at.
pub fn frame_length(prefix: &[u8], limit: usize) -> (found: FramePrefix)
    ensures
        found == frame_prefix_from(prefix@, limit, 0),
        found matches FramePrefix::Body { header, length } ==> 1 <= header <= 3 && header
            <= prefix@.len() && length <= limit && length <= MAX_PACKET_LENGTH,
{
    let mut at: usize = 0;
    while at < 3
        invariant
            at <= 3,
            frame_prefix_from(prefix@, limit, 0) == frame_prefix_from(prefix@, limit, at as int),
        decreases 3 - at,
    {
        if at >= prefix.len() {
            return FramePrefix::Incomplete;
        }
        if prefix[at] < 0x80 {
            let ghost header = prefix@.take(at + 1);
            let mut length: usize = prefix[0] as usize % 0x80;
            if at >= 1 {
                length += (prefix[1] as usize % 0x80) * 0x80;
            }
            if at >= 2 {
                length += (prefix[2] as usize % 0x80) * 0x4000;
            }
            proof {
                reveal_with_fuel(value, 5);
                assert(header.skip(1) =~= prefix@.subrange(1, at + 1));
                if at >= 1 {
                    assert(header.skip(1).skip(1) =~= prefix@.subrange(2, at + 1));
                }
                if at >= 2 {
                    assert(header.skip(1).skip(1).skip(1) =~= Seq::<u8>::empty());
                }
                assert(length == value(header));
            }
            return if length > limit {
                FramePrefix::TooLong { length }
            } else {
                FramePrefix::Body { header: at + 1, length }
            };
        }
        at += 1;
    }
    FramePrefix::TooManyBytes
}

/// The number at a position, and the position behind it.
pub open spec fn varint_at(packet: Seq<u8>, at: int) -> Result<(i32, int), PacketError> {
    match decoded(packet.skip(at)) {
        Ok((bits, length)) => Ok((bits as i32, at + length)),
        Err(VarIntError::Truncated) => Err(PacketError::TruncatedVarInt),
        Err(VarIntError::TooLarge) => Err(PacketError::VarIntTooLarge),
    }
}

/// The bytes at a position, and the position behind them.
pub open spec fn bytes_at(packet: Seq<u8>, at: int, length: int) -> Result<
    (Seq<u8>, int),
    PacketError,
> {
    if at + length <= packet.len() {
        Ok((packet.subrange(at, at + length), at + length))
    } else {
        Err(PacketError::Truncated)
    }
}

/// A text at a position: the text, where its bytes begin, and where they end.
pub open spec fn string_at(packet: Seq<u8>, at: int, max_units: nat) -> Result<
    (Seq<char>, int, int),
    PacketError,
> {
    match varint_at(packet, at) {
        Err(error) => Err(error),
        Ok((length, start)) => if length < 0 {
            Err(PacketError::NegativeStringLength)
        } else if length > max_units * 3 {
            Err(PacketError::StringByteLimit)
        } else {
            match bytes_at(packet, start, length as int) {
                Err(error) => Err(error),
                Ok((bytes, end)) => match utf8_text(bytes) {
                    None => Err(PacketError::InvalidUtf8(utf8_fault(bytes))),
                    Some(text) => if utf16_units(text) > max_units {
                        Err(PacketError::StringUnitLimit)
                    } else {
                        Ok((text, start, end))
                    },
                },
            }
        },
    }
}

/// A truth value at a position, and the position behind it.
pub open spec fn bool_at(packet: Seq<u8>, at: int) -> Result<(bool, int), PacketError> {
    if at >= packet.len() {
        Err(PacketError::Truncated)
    } else if packet[at] == 0 {
        Ok((false, at + 1))
    } else if packet[at] == 1 {
        Ok((true, at + 1))
    } else {
        Err(PacketError::InvalidBoolean(packet[at]))
    }
}

/// Reads a packet from front to back.
pub struct PacketCursor<'a> {
    pub packet: &'a [u8],
    pub offset: usize,
}

/// The text that a cursor found, and where its bytes stand in the packet.
pub struct FoundString<'a> {
    pub text: &'a str,
    pub start: usize,
    pub end: usize,
}

impl<'a> PacketCursor<'a> {
    /// The cursor stands in the packet or right behind it.
    pub open spec fn valid(self) -> bool {
        self.offset <= self.packet@.len()
    }

    /// That `later` is this cursor at another position.
    pub open spec fn moved(self, later: PacketCursor<'a>, to: int) -> bool {
        later.packet == self.packet && later.offset == to && later.valid()
    }

    /// A cursor at the front of a packet.
    pub fn new(packet: &'a [u8]) -> (cursor: PacketCursor<'a>)
        ensures
            cursor.packet == packet,
            cursor.offset == 0,
            cursor.valid(),
    {
        PacketCursor { packet, offset: 0 }
    }

    /// Reads a variable-length integer.
    pub fn read_varint(&mut self) -> (result: Result<i32, PacketError>)
        requires
            old(self).valid(),
        ensures
            match varint_at(old(self).packet@, old(self).offset as int) {
                Ok((number, end)) => result == Ok::<i32, PacketError>(number) && old(self).moved(
                    *final(self),
                    end,
                ),
                Err(error) => result == Err::<i32, PacketError>(error) && *final(self)
                    == *old(self),
            },
    {
        let rest = slice_subrange(self.packet, self.offset, self.packet.len());
        assert(rest@ =~= self.packet@.skip(self.offset as int));
        match decode_varint(rest) {
            Ok((number, length)) => {
                self.offset = self.offset + length;
                Ok(number)
            },
            Err(VarIntError::Truncated) => Err(PacketError::TruncatedVarInt),
            Err(VarIntError::TooLarge) => Err(PacketError::VarIntTooLarge),
        }
    }

    /// Reads a text of at most `max_utf16_units` units, and says where its bytes stand.
    pub fn read_string_with_range(&mut self, max_utf16_units: usize) -> (result: Result<
        FoundString<'a>,
        PacketError,
    >)
        requires
            old(self).valid(),
            max_utf16_units * 3 <= usize::MAX,
        ensures
            match string_at(old(self).packet@, old(self).offset as int, max_utf16_units as nat) {
                Ok((text, start, end)) => result matches Ok(found) && found.text@ == text
                    && found.start == start && found.end == end && old(self).moved(
                    *final(self),
                    end,
                ) && found.start <= found.end && encode_utf8(text) == old(self).packet@.subrange(
                    start,
                    end,
                ),
                Err(error) => result is Err && result->Err_0 == error && final(self).valid()
                    && final(self).packet == old(self).packet,
            },
    {
        let byte_length: i32 = self.read_varint()?;
        if byte_length < 0 {
            return Err(PacketError::NegativeStringLength);
        }
        let byte_length: usize = byte_length as usize;
        if byte_length > max_utf16_units * 3 {
            return Err(PacketError::StringByteLimit);
        }
        let start: usize = self.offset;
        let bytes = self.read_bytes(byte_length)?;
        match read_utf8(bytes) {
            Err(fault) => Err(PacketError::InvalidUtf8(fault)),
            Ok(text) => {
                if !fits_utf16(text, max_utf16_units) {
                    return Err(PacketError::StringUnitLimit);
                }
                Ok(FoundString { text, start, end: self.offset })
            },
        }
    }

    /// Reads a text of at most `max_utf16_units` units.
    pub fn read_string(&mut self, max_utf16_units: usize) -> (result: Result<&'a str, PacketError>)
        requires
            old(self).valid(),
            max_utf16_units * 3 <= usize::MAX,
        ensures
            match string_at(old(self).packet@, old(self).offset as int, max_utf16_units as nat) {
                Ok((text, _, end)) => result matches Ok(found) && found@ == text && old(
                    self,
                ).moved(*final(self), end),
                Err(error) => result is Err && result->Err_0 == error && final(self).valid()
                    && final(self).packet == old(self).packet,
            },
    {
        let found = self.read_string_with_range(max_utf16_units)?;
        Ok(found.text)
    }

    /// Reads two bytes as a number, the higher one first.
    pub fn read_u16(&mut self) -> (result: Result<u16, PacketError>)
        requires
            old(self).valid(),
        ensures
            match bytes_at(old(self).packet@, old(self).offset as int, 2) {
                Ok((bytes, end)) => result == Ok::<u16, PacketError>(from_be(bytes) as u16)
                    && old(self).moved(*final(self), end),
                Err(error) => result == Err::<u16, PacketError>(error) && *final(self)
                    == *old(self),
            },
    {
        let bytes = self.read_bytes(2)?;
        Ok(read_be(bytes) as u16)
    }

    /// Reads a truth value.
    pub fn read_bool(&mut self) -> (result: Result<bool, PacketError>)
        requires
            old(self).valid(),
        ensures
            match bool_at(old(self).packet@, old(self).offset as int) {
                Ok((truth, end)) => result == Ok::<bool, PacketError>(truth) && old(self).moved(
                    *final(self),
                    end,
                ),
                Err(error) => result == Err::<bool, PacketError>(error) && final(self).valid()
                    && final(self).packet == old(self).packet,
            },
    {
        let bytes = self.read_bytes(1)?;
        match bytes[0] {
            0 => Ok(false),
            1 => Ok(true),
            found => Err(PacketError::InvalidBoolean(found)),
        }
    }

    /// Reads eight bytes as a number, the highest one first.
    pub fn read_i64(&mut self) -> (result: Result<i64, PacketError>)
        requires
            old(self).valid(),
        ensures
            match bytes_at(old(self).packet@, old(self).offset as int, 8) {
                Ok((bytes, end)) => result == Ok::<i64, PacketError>(
                    (from_be(bytes) as u64) as i64,
                ) && old(self).moved(*final(self), end),
                Err(error) => result == Err::<i64, PacketError>(error) && *final(self)
                    == *old(self),
            },
    {
        let bytes = self.read_bytes(8)?;
        Ok(read_be(bytes) as i64)
    }

    /// Reads so many bytes.
    pub fn read_bytes(&mut self, length: usize) -> (result: Result<&'a [u8], PacketError>)
        requires
            old(self).valid(),
        ensures
            match bytes_at(old(self).packet@, old(self).offset as int, length as int) {
                Ok((bytes, end)) => result matches Ok(found) && found@ == bytes && old(
                    self,
                ).moved(*final(self), end),
                Err(error) => result is Err && result->Err_0 == error && *final(self)
                    == *old(self),
            },
    {
        if length > self.packet.len() - self.offset {
            return Err(PacketError::Truncated);
        }
        let end: usize = self.offset + length;
        let bytes = slice_subrange(self.packet, self.offset, end);
        self.offset = end;
        Ok(bytes)
    }

    /// How many bytes are left.
    pub fn remaining(&self) -> (left: usize)
        requires
            self.valid(),
        ensures
            left == self.packet@.len() - self.offset,
    {
        self.packet.len() - self.offset
    }

    /// Refuses a packet with bytes left.
    pub fn ensure_finished(&self) -> (result: Result<(), PacketError>)
        requires
            self.valid(),
        ensures
            result == (if self.offset == self.packet@.len() {
                Ok::<(), PacketError>(())
            } else {
                Err::<(), PacketError>(PacketError::TrailingData)
            }),
    {
        if self.remaining() == 0 {
            Ok(())
        } else {
            Err(PacketError::TrailingData)
        }
    }
}

/// The length in front of a packet is read as the length of what follows.
proof fn lemma_prefix_reads_back(length: u32, body: Seq<u8>, limit: usize)
    requires
        length <= limit,
        length <= MAX_PACKET_LENGTH,
    ensures
        frame_prefix_from(encoded(length) + body, limit, 0) == (FramePrefix::Body {
            header: encoded(length).len() as usize,
            length: length as usize,
        }),
        encoded(length).len() <= 3,
{
    encoded_length(length);
    varint_reads_back(length, body);
    let header = encoded(length);
    let prefix = header + body;
    reveal_with_fuel(encoded, 4);
    reveal_with_fuel(frame_prefix_from, 5);
    reveal_with_fuel(super::varint::length_from, 5);
    assert(prefix.take(header.len() as int) =~= header);
    assert(prefix[0] == header[0]);
    if header.len() >= 2 {
        assert(prefix[1] == header[1]);
    }
    if header.len() >= 3 {
        assert(prefix[2] == header[2]);
    }
}

/// A packet that was written is read back: its length is found, and behind it stand the
/// identifier and the payload.
pub proof fn packet_reads_back(id: i32, payload: Seq<u8>, limit: usize)
    requires
        encoded(id as u32).len() + payload.len() <= limit,
        encoded(id as u32).len() + payload.len() <= MAX_PACKET_LENGTH,
    ensures
        ({
            let packet = framed(id, payload);
            let length = (encoded(id as u32).len() + payload.len()) as usize;
            let header = packet.len() - length;
            let start = encoded(id as u32).len() as int;
            let body = packet.skip(header);
            &&& frame_prefix_from(packet, limit, 0) == (FramePrefix::Body {
                header: header as usize,
                length,
            })
            &&& varint_at(body, 0) == Ok::<(i32, int), PacketError>((id, start))
            &&& body.skip(start) == payload
        }),
{
    let body = encoded(id as u32) + payload;
    let packet = framed(id, payload);
    lemma_prefix_reads_back(body.len() as u32, body, limit);
    let header = encoded(body.len() as u32).len() as int;
    assert(packet.skip(header) =~= body);
    varint_reads_back(id as u32, payload);
    assert(body.skip(0) =~= body);
    super::varint::sign_survives(id);
    assert(body.skip(encoded(id as u32).len() as int) =~= payload);
}

/// A text that was written is read back, whatever stands behind it.
pub proof fn string_reads_back(text: Seq<char>, rest: Seq<u8>, max_units: nat)
    requires
        utf16_units(text) <= max_units,
        3 * utf16_units(text) <= i32::MAX,
    ensures
        ({
            let payload = string_payload(text);
            let start = payload.len() - encode_utf8(text).len();
            string_at(payload + rest, 0, max_units) == Ok::<(Seq<char>, int, int), PacketError>(
                (text, start, payload.len() as int),
            )
        }),
{
    let bytes = encode_utf8(text);
    let payload = string_payload(text);
    utf8_bytes_per_unit(text);
    let count = bytes.len() as u32;
    varint_reads_back(count, bytes + rest);
    assert((payload + rest).skip(0) =~= encoded(count) + (bytes + rest));
    assert(count as i32 == count) by (bit_vector)
        requires
            count <= 0x7fff_ffff,
    ;
    let start = encoded(count).len() as int;
    assert((payload + rest).subrange(start, start + bytes.len()) =~= bytes);
    vstd::utf8::encode_utf8_valid_utf8(text);
    vstd::utf8::encode_utf8_decode_utf8(text);
}

proof fn lemma_varint_stands(front: Seq<u8>, bits: u32, rest: Seq<u8>)
    ensures
        varint_at(front + encoded(bits) + rest, front.len() as int) == Ok::<
            (i32, int),
            PacketError,
        >((bits as i32, (front.len() + encoded(bits).len()) as int)),
{
    varint_reads_back(bits, rest);
    assert((front + encoded(bits) + rest).skip(front.len() as int) =~= encoded(bits) + rest);
}

/// A number is read wherever it stands.
pub proof fn numbers_are_read_anywhere(front: Seq<u8>, number: i32, rest: Seq<u8>)
    ensures
        varint_at(front + encoded(number as u32) + rest, front.len() as int) == Ok::<
            (i32, int),
            PacketError,
        >((number, (front.len() + encoded(number as u32).len()) as int)),
{
    lemma_varint_stands(front, number as u32, rest);
    super::varint::sign_survives(number);
}

/// A text is read wherever it stands, up to the given number of units, and no longer one.
pub proof fn texts_are_read_anywhere(
    front: Seq<u8>,
    text: Seq<char>,
    rest: Seq<u8>,
    max_units: nat,
)
    requires
        encode_utf8(text).len() <= i32::MAX,
    ensures
        ({
            let packet = front + string_payload(text) + rest;
            let end = (front.len() + string_payload(text).len()) as int;
            let start = end - encode_utf8(text).len();
            let found = string_at(packet, front.len() as int, max_units);
            &&& utf16_units(text) <= max_units ==> found == Ok::<
                (Seq<char>, int, int),
                PacketError,
            >((text, start, end))
            &&& utf16_units(text) > max_units ==> found is Err
        }),
{
    let bytes = encode_utf8(text);
    let payload = string_payload(text);
    let packet = front + payload + rest;
    lemma_varint_stands(front, bytes.len() as u32, bytes + rest);
    assert(packet =~= front + encoded(bytes.len() as u32) + (bytes + rest));
    let count = bytes.len() as u32;
    assert(count as i32 == count) by (bit_vector)
        requires
            count <= 0x7fff_ffff,
    ;
    let end = (front.len() + payload.len()) as int;
    let start = end - bytes.len();
    assert(packet.subrange(start, end) =~= bytes);
    vstd::utf8::encode_utf8_valid_utf8(text);
    vstd::utf8::encode_utf8_decode_utf8(text);
    utf8_bytes_per_unit(text);
}

/// A packet that is longer than allowed is told from its first bytes.
pub proof fn long_packets_are_refused(length: u32, body: Seq<u8>, limit: usize)
    requires
        limit < length <= 2_097_151,
    ensures
        frame_prefix_from(encoded(length) + body, limit, 0) == (FramePrefix::TooLong {
            length: length as usize,
        }),
{
    let prefix = encoded(length) + body;
    lemma_prefix_reads_back(length, body, length as usize);
    lemma_limits_only_refuse(prefix, length as usize, limit, 0);
}

proof fn lemma_limits_only_refuse(prefix: Seq<u8>, limit: usize, stricter: usize, at: int)
    requires
        stricter <= limit,
    ensures
        frame_prefix_from(prefix, limit, at) matches FramePrefix::Body { length, .. } && length
            > stricter ==> frame_prefix_from(prefix, stricter, at) == (FramePrefix::TooLong {
            length: frame_prefix_from(prefix, limit, at)->Body_length,
        }),
    decreases 3 - at,
{
    if 0 <= at && at < 3 && at < prefix.len() && prefix[at] >= 0x80 {
        lemma_limits_only_refuse(prefix, limit, stricter, at + 1);
    }
    if 0 <= at < 3 && at < prefix.len() && prefix[at] < 0x80 {
        super::varint::lemma_value_bound(prefix.take(at + 1));
    }
}

/// The length of a packet takes at most three bytes: it is not known while each of fewer has its
/// highest bit set, and not taken if three have.
pub proof fn lengths_take_three_bytes(prefix: Seq<u8>, limit: usize)
    ensures
        frame_prefix_from(prefix, limit, 0) == FramePrefix::Incomplete <==> prefix.len() < 3
            && forall|at: int| 0 <= at < prefix.len() ==> #[trigger] prefix[at] >= 128,
        frame_prefix_from(prefix, limit, 0) == FramePrefix::TooManyBytes <==> prefix.len() >= 3
            && prefix[0] >= 128 && prefix[1] >= 128 && prefix[2] >= 128,
{
    reveal_with_fuel(frame_prefix_from, 4);
}

/// A fault of a packet is told with what was found where that says more than the fault itself.
pub proof fn faults_tell_what_was_found(found: u8, fault: Utf8Fault)
    ensures
        PacketError::InvalidBoolean(found).text() == "invalid Boolean value "@ + decimal(
            found as nat,
        ),
        PacketError::InvalidUtf8(fault).text() == "string is not valid UTF-8"@ + ": "@
            + fault.text(),
        fault.error_len is None ==> fault.text() == "incomplete utf-8 byte sequence from index "@
            + decimal(fault.valid_up_to as nat),
        fault.error_len matches Some(length) ==> fault.text() == "invalid utf-8 sequence of "@
            + decimal(length as nat) + " bytes from index "@ + decimal(fault.valid_up_to as nat),
{
}

/// A text whose length is negative, or too many bytes for the units that are allowed, is refused
/// before it is read.
pub proof fn lengths_of_texts_are_limited(
    front: Seq<u8>,
    length: i32,
    rest: Seq<u8>,
    max_units: nat,
)
    ensures
        ({
            let packet = front + encoded(length as u32) + rest;
            let found = string_at(packet, front.len() as int, max_units);
            &&& length < 0 ==> found == Err::<(Seq<char>, int, int), PacketError>(
                PacketError::NegativeStringLength,
            )
            &&& length > 3 * max_units ==> found == Err::<(Seq<char>, int, int), PacketError>(
                PacketError::StringByteLimit,
            )
            &&& 0 <= length <= 3 * max_units && rest.len() < length ==> found == Err::<
                (Seq<char>, int, int),
                PacketError,
            >(PacketError::Truncated)
        }),
{
    numbers_are_read_anywhere(front, length, rest);
}

} // verus!
