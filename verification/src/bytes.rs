//! Integers as bytes in either order, and bytes as texts.

use vstd::prelude::*;
use vstd::string::{StringExecFns, StringSliceAdditionalSpecFns};
use vstd::utf8::{
    char_is_scalar, decode_utf8, encode_scalar, encode_utf8, encode_utf8_decode_utf8,
    encode_utf8_valid_utf8, is_ascii_chars, is_ascii_chars_encode_utf8, valid_utf8,
};

use crate::text::{append_decimal, characters, decimal};

verus! {

/// The number that bytes stand for, the highest one first.
pub open spec fn from_be(bytes: Seq<u8>) -> int
    decreases bytes.len(),
{
    if bytes.len() == 0 {
        0
    } else {
        from_be(bytes.drop_last()) * 0x100 + bytes.last()
    }
}

/// The lowest `length` bytes of a number, the highest one first.
pub open spec fn to_be(number: int, length: nat) -> Seq<u8>
    decreases length,
{
    if length == 0 {
        Seq::empty()
    } else {
        to_be(number / 0x100, (length - 1) as nat).push((number % 0x100) as u8)
    }
}

/// The number that bytes stand for, the lowest one first.
pub open spec fn from_le(bytes: Seq<u8>) -> int
    decreases bytes.len(),
{
    if bytes.len() == 0 {
        0
    } else {
        bytes[0] as int + 0x100 * from_le(bytes.skip(1))
    }
}

/// The lowest `length` bytes of a number, the lowest one first.
pub open spec fn to_le(number: int, length: nat) -> Seq<u8>
    decreases length,
{
    if length == 0 {
        Seq::empty()
    } else {
        seq![(number % 0x100) as u8] + to_le(number / 0x100, (length - 1) as nat)
    }
}

/// How many values `length` bytes can stand for.
pub open spec fn range(length: nat) -> int
    decreases length,
{
    if length == 0 {
        1
    } else {
        0x100 * range((length - 1) as nat)
    }
}

/// The ranges that occur.
pub proof fn ranges()
    ensures
        range(0) == 1,
        range(1) == 0x100,
        range(2) == 0x1_0000,
        range(3) == 0x100_0000,
        range(4) == 0x1_0000_0000,
        range(5) == 0x100_0000_0000,
        range(6) == 0x1_0000_0000_0000,
        range(7) == 0x100_0000_0000_0000,
        range(8) == 0x1_0000_0000_0000_0000,
{
    reveal_with_fuel(range, 10);
}

/// A number is read back from its bytes, the highest one first.
pub proof fn be_reads_back(number: int, length: nat)
    requires
        0 <= number < range(length),
    ensures
        to_be(number, length).len() == length,
        from_be(to_be(number, length)) == number,
    decreases length,
{
    if length > 0 {
        be_reads_back(number / 0x100, (length - 1) as nat);
        assert(to_be(number, length).drop_last() =~= to_be(number / 0x100, (length - 1) as nat));
    }
}

/// Bytes are written again as they were read, the highest one first.
pub proof fn be_writes_back(bytes: Seq<u8>)
    ensures
        0 <= from_be(bytes) < range(bytes.len()),
        to_be(from_be(bytes), bytes.len()) == bytes,
    decreases bytes.len(),
{
    if bytes.len() > 0 {
        be_writes_back(bytes.drop_last());
        let high = from_be(bytes.drop_last());
        let low = bytes.last() as int;
        assert(from_be(bytes) / 0x100 == high && from_be(bytes) % 0x100 == low) by {
            assert(from_be(bytes) == high * 0x100 + low);
        }
        assert(bytes.drop_last().push(bytes.last()) =~= bytes);
    }
}

/// A number is read back from its bytes, the lowest one first.
pub proof fn le_reads_back(number: int, length: nat)
    requires
        0 <= number < range(length),
    ensures
        to_le(number, length).len() == length,
        from_le(to_le(number, length)) == number,
    decreases length,
{
    if length > 0 {
        le_reads_back(number / 0x100, (length - 1) as nat);
        assert(to_le(number, length).skip(1) =~= to_le(number / 0x100, (length - 1) as nat));
    }
}

/// Bytes stand for less than their range.
proof fn lemma_le_bound(bytes: Seq<u8>)
    ensures
        0 <= from_le(bytes) < range(bytes.len()),
    decreases bytes.len(),
{
    if bytes.len() > 0 {
        lemma_le_bound(bytes.skip(1));
    }
}

/// Appends the lowest `length` bytes of a number, the highest one first.
pub fn append_be(output: &mut Vec<u8>, number: u64, length: usize)
    requires
        length <= 8,
    ensures
        final(output)@ == old(output)@ + to_be(number as int, length as nat),
    decreases length,
{
    if length > 0 {
        append_be(output, number / 0x100, length - 1);
        output.push((number % 0x100) as u8);
        assert(output@ =~= old(output)@ + to_be(number as int, length as nat));
    } else {
        assert(output@ =~= old(output)@ + to_be(number as int, length as nat));
    }
}

/// Appends the lowest `length` bytes of a number, the lowest one first.
pub fn append_le(output: &mut Vec<u8>, number: u64, length: usize)
    requires
        length <= 8,
    ensures
        final(output)@ == old(output)@ + to_le(number as int, length as nat),
    decreases length,
{
    if length > 0 {
        let byte: u8 = (number % 0x100) as u8;
        output.push(byte);
        append_le(output, number / 0x100, length - 1);
        assert(output@ =~= old(output)@ + to_le(number as int, length as nat));
    } else {
        assert(output@ =~= old(output)@ + to_le(number as int, length as nat));
    }
}

/// Reads a number from up to eight bytes, the highest one first.
pub fn read_be(bytes: &[u8]) -> (number: u64)
    requires
        bytes@.len() <= 8,
    ensures
        number == from_be(bytes@),
{
    let mut number: u64 = 0;
    let mut i: usize = 0;
    assert(bytes@.take(0) =~= Seq::<u8>::empty());
    while i < bytes.len()
        invariant
            i <= bytes@.len() <= 8,
            number == from_be(bytes@.take(i as int)),
        decreases bytes@.len() - i,
    {
        proof {
            ranges();
            be_writes_back(bytes@.take(i as int));
            assert(bytes@.take(i + 1).drop_last() =~= bytes@.take(i as int));
            assert(number < range(i as nat));
        }
        number = number * 0x100 + bytes[i] as u64;
        i += 1;
    }
    assert(bytes@.take(bytes@.len() as int) =~= bytes@);
    number
}

/// Reads a number from up to four bytes, the lowest one first.
pub fn read_le(bytes: &[u8]) -> (number: u32)
    requires
        bytes@.len() <= 4,
    ensures
        number == from_le(bytes@),
{
    let mut number: u64 = 0;
    let mut i: usize = bytes.len();
    proof {
        ranges();
        lemma_le_bound(bytes@);
    }
    assert(bytes@.skip(bytes@.len() as int) =~= Seq::<u8>::empty());
    while i > 0
        invariant
            i <= bytes@.len() <= 4,
            number == from_le(bytes@.skip(i as int)),
        decreases i,
    {
        i -= 1;
        proof {
            ranges();
            lemma_le_bound(bytes@.skip(i + 1));
            assert(bytes@.skip(i as int).skip(1) =~= bytes@.skip(i + 1));
        }
        number = bytes[i] as u64 + 0x100 * number;
    }
    assert(bytes@.skip(0) =~= bytes@);
    number as u32
}

/// The text that bytes encode, if they encode one.
pub open spec fn utf8_text(bytes: Seq<u8>) -> Option<Seq<char>> {
    if valid_utf8(bytes) {
        Some(decode_utf8(bytes))
    } else {
        None
    }
}

/// Why bytes are no text.
#[derive(Clone, Copy, Debug, PartialEq, Eq, Structural)]
pub struct Utf8Fault {
    /// How many bytes at the beginning are a text.
    pub valid_up_to: usize,
    /// How many bytes after them cannot be a character; nothing if the bytes end within one.
    pub error_len: Option<usize>,
}

/// The length of the longest beginning of bytes that is a text and no longer than `limit`.
pub open spec fn longest_text(bytes: Seq<u8>, limit: int) -> int
    decreases limit,
{
    if limit <= 0 {
        0
    } else if valid_utf8(bytes.take(limit)) {
        limit
    } else {
        longest_text(bytes, limit - 1)
    }
}

/// How many bytes after the longest beginning that is a text cannot be a character.
pub uninterp spec fn utf8_error_length(bytes: Seq<u8>) -> Option<usize>;

/// Why bytes that are no text are none.
pub open spec fn utf8_fault(bytes: Seq<u8>) -> Utf8Fault {
    Utf8Fault {
        valid_up_to: longest_text(bytes, bytes.len() as int) as usize,
        error_len: utf8_error_length(bytes),
    }
}

/// Calls `std::str::from_utf8`, and `valid_up_to` and `error_len` of its error. Claimed of them:
/// the call succeeds exactly on the bytes that are a valid UTF-8 encoding, and what it returns is
/// encoded by just these bytes; otherwise `valid_up_to` is the length of the longest beginning
/// that is one, and `error_len` depends on the bytes alone.
#[verifier::external_body]
fn checked_utf8(bytes: &[u8]) -> (text: Result<&str, Utf8Fault>)
    ensures
        text is Ok <==> valid_utf8(bytes@),
        text matches Ok(found) ==> found.spec_bytes() == bytes@,
        text matches Err(fault) ==> fault.valid_up_to == longest_text(
            bytes@,
            bytes@.len() as int,
        ) && fault.error_len == utf8_error_length(bytes@),
{
    std::str::from_utf8(bytes).map_err(
        |error| Utf8Fault { valid_up_to: error.valid_up_to(), error_len: error.error_len() },
    )
}

impl Utf8Fault {
    /// The text of the fault, in mathematical form.
    pub open spec fn text(self) -> Seq<char> {
        match self.error_len {
            Some(length) => "invalid utf-8 sequence of "@ + decimal(length as nat)
                + " bytes from index "@ + decimal(self.valid_up_to as nat),
            None => "incomplete utf-8 byte sequence from index "@ + decimal(
                self.valid_up_to as nat,
            ),
        }
    }

    /// The text of the fault.
    pub fn message(self) -> (text: String)
        ensures
            text@ == self.text(),
    {
        let mut text = String::new();
        match self.error_len {
            Some(length) => {
                text.append("invalid utf-8 sequence of ");
                append_decimal(&mut text, length as u64);
                text.append(" bytes from index ");
            },
            None => {
                text.append("incomplete utf-8 byte sequence from index ");
            },
        }
        append_decimal(&mut text, self.valid_up_to as u64);
        assert(text@ =~= self.text());
        text
    }
}

/// The text that bytes encode, if they encode one.
pub fn read_utf8(bytes: &[u8]) -> (text: Result<&str, Utf8Fault>)
    ensures
        match utf8_text(bytes@) {
            Some(chars) => text matches Ok(found) && found@ == chars && encode_utf8(chars)
                == bytes@,
            None => text matches Err(fault) && fault == utf8_fault(bytes@),
        },
{
    let text = checked_utf8(bytes);
    proof {
        if let Ok(found) = text {
            encode_utf8_decode_utf8(found@);
        }
    }
    text
}

/// The text whose characters are these bytes.
pub open spec fn ascii_chars(bytes: Seq<u8>) -> Seq<char> {
    Seq::new(bytes.len(), |i: int| bytes[i] as char)
}

/// The text whose characters are these bytes.
pub fn ascii_text(bytes: &[u8]) -> (text: String)
    requires
        forall|i: int| 0 <= i < bytes@.len() ==> #[trigger] bytes@[i] < 128,
    ensures
        text@ == ascii_chars(bytes@),
{
    let ghost chars = ascii_chars(bytes@);
    proof {
        assert(is_ascii_chars(chars));
        is_ascii_chars_encode_utf8(chars);
        assert(encode_utf8(chars) =~= bytes@);
        encode_utf8_valid_utf8(chars);
        encode_utf8_decode_utf8(chars);
    }
    match read_utf8(bytes) {
        Ok(text) => text.to_owned(),
        Err(_) => String::new(),
    }
}

/// How many units a character takes in UTF-16.
pub open spec fn char_units(c: char) -> nat {
    if (c as u32) < 0x1_0000 {
        1
    } else {
        2
    }
}

/// How many units a text takes in UTF-16.
pub open spec fn utf16_units(text: Seq<char>) -> nat
    decreases text.len(),
{
    if text.len() == 0 {
        0
    } else {
        char_units(text[0]) + utf16_units(text.skip(1))
    }
}

/// The rest of a text takes no more units than the whole.
proof fn lemma_units_of_rest(text: Seq<char>, from: int)
    requires
        0 <= from <= text.len(),
    ensures
        utf16_units(text.skip(from)) <= utf16_units(text),
    decreases from,
{
    if from == 0 {
        assert(text.skip(0) =~= text);
    } else {
        lemma_units_of_rest(text.skip(1), from - 1);
        assert(text.skip(1).skip(from - 1) =~= text.skip(from));
    }
}

/// A text takes at most three bytes in UTF-8 for each unit that it takes in UTF-16.
pub proof fn utf8_bytes_per_unit(text: Seq<char>)
    ensures
        encode_utf8(text).len() <= 3 * utf16_units(text),
    decreases text.len(),
{
    if text.len() > 0 {
        utf8_bytes_per_unit(text.skip(1));
        assert(text.drop_first() =~= text.skip(1));
        char_is_scalar(text[0]);
        assert(encode_scalar(text[0] as u32).len() <= 3 * char_units(text[0]));
    }
}

/// Whether a text takes at most `limit` units in UTF-16.
pub fn fits_utf16(text: &str, limit: usize) -> (fits: bool)
    ensures
        fits == (utf16_units(text@) <= limit),
{
    let chars = characters(text);
    let mut units: usize = 0;
    let mut i: usize = chars.len();
    assert(chars@.skip(chars@.len() as int) =~= Seq::<char>::empty());
    while i > 0
        invariant
            i <= chars@.len(),
            chars@ == text@,
            units == utf16_units(chars@.skip(i as int)),
            units <= limit,
        decreases i,
    {
        i -= 1;
        proof {
            lemma_units_of_rest(chars@, i as int);
            assert(chars@.skip(i as int).skip(1) =~= chars@.skip(i + 1));
        }
        let width: usize = if (chars[i] as u32) < 0x1_0000 {
            1
        } else {
            2
        };
        if width > limit - units {
            return false;
        }
        units += width;
    }
    assert(chars@.skip(0) =~= chars@);
    true
}

/// Read with the highest byte first, each byte weighs as much as two hundred and fifty-six of
/// the next one.
pub proof fn highest_bytes_come_first(bytes: Seq<u8>)
    ensures
        bytes.len() == 2 ==> from_be(bytes) == 0x100 * bytes[0] + bytes[1],
        bytes.len() == 4 ==> from_be(bytes) == 0x100_0000 * bytes[0] + 0x1_0000 * bytes[1] + 0x100
            * bytes[2] + bytes[3],
{
    reveal_with_fuel(from_be, 5);
    if bytes.len() == 2 || bytes.len() == 4 {
        let three = bytes.drop_last();
        let two = three.drop_last();
        assert(three.last() == bytes[bytes.len() - 2]);
        if bytes.len() == 4 {
            assert(two.last() == bytes[1]);
            assert(two.drop_last().last() == bytes[0]);
            assert(two.drop_last().drop_last().len() == 0);
        } else {
            assert(two.len() == 0);
        }
    }
}

/// Read with the lowest byte first, each byte weighs a two hundred and fifty-sixth of the next
/// one.
pub proof fn lowest_bytes_come_first(bytes: Seq<u8>)
    requires
        bytes.len() == 4,
    ensures
        from_le(bytes) == bytes[0] + 0x100 * bytes[1] + 0x1_0000 * bytes[2] + 0x100_0000
            * bytes[3],
{
    reveal_with_fuel(from_le, 5);
    assert(bytes.skip(1).skip(1) =~= bytes.skip(2));
    assert(bytes.skip(2).skip(1) =~= bytes.skip(3));
    assert(bytes.skip(3).skip(1).len() == 0);
}

proof fn lemma_longest_text(bytes: Seq<u8>, limit: int)
    requires
        0 <= limit <= bytes.len(),
    ensures
        0 <= longest_text(bytes, limit) <= limit,
        valid_utf8(bytes.take(longest_text(bytes, limit))),
        forall|longer: int|
            longest_text(bytes, limit) < longer <= limit ==> !valid_utf8(
                #[trigger] bytes.take(longer),
            ),
    decreases limit,
{
    if limit == 0 {
        assert(bytes.take(0) =~= Seq::<u8>::empty());
    } else if !valid_utf8(bytes.take(limit)) {
        lemma_longest_text(bytes, limit - 1);
    }
}

/// A fault stands behind the longest beginning that is text.
pub proof fn faults_stand_behind_the_text(bytes: Seq<u8>)
    requires
        bytes.len() <= usize::MAX,
    ensures
        valid_utf8(bytes.take(utf8_fault(bytes).valid_up_to as int)),
        forall|longer: int|
            utf8_fault(bytes).valid_up_to < longer <= bytes.len() ==> !valid_utf8(
                #[trigger] bytes.take(longer),
            ),
{
    lemma_longest_text(bytes, bytes.len() as int);
}

/// Text is counted in units of sixteen bits: two for a character beyond the first 65536, one for
/// any other.
pub proof fn units_add_up(left: Seq<char>, right: Seq<char>, c: char)
    ensures
        utf16_units(left + right) == utf16_units(left) + utf16_units(right),
        utf16_units(seq![c]) == (if c as u32 <= 0xffff {
            1nat
        } else {
            2
        }),
    decreases left.len(),
{
    reveal_with_fuel(utf16_units, 2);
    assert(seq![c].skip(1) =~= Seq::<char>::empty());
    if left.len() == 0 {
        assert(left + right =~= right);
    } else {
        units_add_up(left.skip(1), right, c);
        assert((left + right).skip(1) =~= left.skip(1) + right);
    }
}

/// Text is read as it was written, and nothing but text is read.
pub proof fn texts_read_back(text: Seq<char>, bytes: Seq<u8>, at: int)
    ensures
        utf8_text(encode_utf8(text)) == Some(text),
        utf8_text(bytes) matches Some(found) ==> encode_utf8(found) == bytes,
        0 <= at < bytes.len() ==> ascii_chars(bytes)[at] as int == bytes[at],
        ascii_chars(bytes).len() == bytes.len(),
{
    vstd::utf8::encode_utf8_valid_utf8(text);
    vstd::utf8::encode_utf8_decode_utf8(text);
    if valid_utf8(bytes) {
        vstd::utf8::decode_utf8_encode_utf8(bytes);
    }
}

} // verus!
