//! Variable-length integers: seven bits per byte, the lowest first, with the top bit set on
//! every byte but the last.

use vstd::prelude::*;

verus! {

/// Why bytes are no variable-length integer.
#[derive(Clone, Copy, Debug, PartialEq, Eq, Structural)]
pub enum VarIntError {
    /// They end too early.
    Truncated,
    /// They stand for more than 32 bits.
    TooLarge,
}

/// The shortest encoding of 32 bits.
pub open spec fn encoded(bits: u32) -> Seq<u8>
    decreases bits,
{
    if bits < 0x80 {
        seq![bits as u8]
    } else {
        seq![(bits % 0x80 + 0x80) as u8] + encoded(bits / 0x80)
    }
}

/// The number that a row of bytes stands for, whatever their top bits.
pub open spec fn value(bytes: Seq<u8>) -> int
    decreases bytes.len(),
{
    if bytes.len() == 0 {
        0
    } else {
        bytes[0] as int % 0x80 + 0x80 * value(bytes.skip(1))
    }
}

/// The length of the encoding at the front of `input`, if there is one. `at` bytes of it, all
/// with the top bit set, have been passed already.
pub open spec fn length_from(input: Seq<u8>, at: int) -> Result<int, VarIntError>
    decreases 5 - at,
{
    if at >= input.len() || at < 0 {
        Err(VarIntError::Truncated)
    } else if at >= 4 && input[at] >= 0x10 {
        Err(VarIntError::TooLarge)
    } else if input[at] < 0x80 {
        Ok(at + 1)
    } else {
        length_from(input, at + 1)
    }
}

/// The 32 bits at the front of `input`, and how many bytes they take.
pub open spec fn decoded(input: Seq<u8>) -> Result<(u32, int), VarIntError> {
    match length_from(input, 0) {
        Ok(length) => Ok((value(input.take(length)) as u32, length)),
        Err(error) => Err(error),
    }
}

/// How many values `length` bytes can stand for.
pub open spec fn scale(length: nat) -> int
    decreases length,
{
    if length == 0 {
        1
    } else {
        0x80 * scale((length - 1) as nat)
    }
}

/// One more byte adds its seven bits above the others.
proof fn lemma_value_push(bytes: Seq<u8>, byte: u8)
    ensures
        value(bytes.push(byte)) == value(bytes) + (byte as int % 0x80) * scale(bytes.len()),
    decreases bytes.len(),
{
    let longer = bytes.push(byte);
    if bytes.len() == 0 {
        assert(longer.skip(1) =~= Seq::<u8>::empty());
        reveal_with_fuel(value, 2);
    } else {
        lemma_value_push(bytes.skip(1), byte);
        assert(longer.skip(1) =~= bytes.skip(1).push(byte));
        let low = byte as int % 0x80;
        let rest = scale((bytes.len() - 1) as nat);
        assert(0x80 * (low * rest) == low * (0x80 * rest)) by (nonlinear_arith);
    }
}

/// `length` bytes stand for less than their scale.
pub(crate) proof fn lemma_value_bound(bytes: Seq<u8>)
    ensures
        0 <= value(bytes) < scale(bytes.len()),
    decreases bytes.len(),
{
    if bytes.len() > 0 {
        lemma_value_bound(bytes.skip(1));
    }
}

/// The scales that occur.
proof fn lemma_scales()
    ensures
        scale(0) == 1,
        scale(1) == 0x80,
        scale(2) == 0x4000,
        scale(3) == 0x20_0000,
        scale(4) == 0x1000_0000,
{
    reveal_with_fuel(scale, 6);
}

/// The length of the shortest encoding.
pub proof fn encoded_length(bits: u32)
    ensures
        encoded(bits).len() == (if bits < 0x80 {
            1int
        } else if bits < 0x4000 {
            2
        } else if bits < 0x20_0000 {
            3
        } else if bits < 0x1000_0000 {
            4
        } else {
            5
        }),
{
    reveal_with_fuel(encoded, 6);
}

/// Appends the encoding of a number.
pub fn write_varint(number: i32, output: &mut Vec<u8>)
    ensures
        final(output)@ == old(output)@ + encoded(number as u32),
{
    let mut remaining: u32 = number as u32;
    let ghost whole = encoded(number as u32);
    let ghost mut written = Seq::<u8>::empty();
    assert(written + encoded(remaining) =~= whole);
    while remaining >= 0x80
        invariant
            output@ == old(output)@ + written,
            written + encoded(remaining) == whole,
        decreases remaining,
    {
        let byte: u8 = (remaining % 0x80 + 0x80) as u8;
        output.push(byte);
        proof {
            let rest = encoded(remaining / 0x80);
            assert(written.push(byte) + rest =~= written + (seq![byte] + rest));
            written = written.push(byte);
        }
        remaining = remaining / 0x80;
    }
    output.push(remaining as u8);
    assert(old(output)@ + written + seq![remaining as u8] =~= old(output)@ + (written + seq![
        remaining as u8,
    ]));
}

/// The length of the encoding of a number.
pub fn varint_size(number: i32) -> (size: usize)
    ensures
        size == encoded(number as u32).len(),
        1 <= size <= 5,
{
    let bits: u32 = number as u32;
    proof {
        encoded_length(bits);
    }
    if bits < 0x80 {
        1
    } else if bits < 0x4000 {
        2
    } else if bits < 0x20_0000 {
        3
    } else if bits < 0x1000_0000 {
        4
    } else {
        5
    }
}

/// Reads the number at the front of `input`, and how many bytes it takes.
pub fn decode_varint(input: &[u8]) -> (result: Result<(i32, usize), VarIntError>)
    ensures
        match decoded(input@) {
            Ok((bits, length)) => result == Ok::<(i32, usize), VarIntError>(
                (bits as i32, length as usize),
            ) && 1 <= length <= 5 && length <= input@.len(),
            Err(error) => result == Err::<(i32, usize), VarIntError>(error),
        },
{
    let mut bits: u32 = 0;
    let mut unit: u32 = 1;
    let mut at: usize = 0;
    assert(input@.take(0) =~= Seq::<u8>::empty());
    proof {
        lemma_scales();
    }
    loop
        invariant
            0 <= at < 5,
            at <= input@.len(),
            length_from(input@, 0) == length_from(input@, at as int),
            bits == value(input@.take(at as int)),
            unit == scale(at as nat),
            scale(0) == 1,
            scale(1) == 0x80,
            scale(2) == 0x4000,
            scale(3) == 0x20_0000,
            scale(4) == 0x1000_0000,
        decreases 5 - at,
    {
        if at >= input.len() {
            return Err(VarIntError::Truncated);
        }
        let byte: u8 = input[at];
        if at == 4 && byte >= 0x10 {
            return Err(VarIntError::TooLarge);
        }
        proof {
            lemma_value_bound(input@.take(at as int));
            lemma_value_push(input@.take(at as int), byte);
            assert(input@.take(at + 1) =~= input@.take(at as int).push(byte));
            let low = (byte % 0x80) as int;
            assert(low * unit <= 0x7f * unit) by (nonlinear_arith)
                requires
                    0 <= low <= 0x7f,
                    0 <= unit,
            ;
            if at == 4 {
                assert(low * unit <= 0xf * unit) by (nonlinear_arith)
                    requires
                        0 <= low <= 0xf,
                        0 <= unit,
                ;
            }
        }
        bits = bits + (byte % 0x80) as u32 * unit;
        at += 1;
        if byte < 0x80 {
            return Ok((bits as i32, at));
        }
        unit = unit * 0x80;
    }
}

/// The front of a longer row of bytes is found in the same way.
proof fn lemma_length_of_encoded(bits: u32, front: Seq<u8>, rest: Seq<u8>)
    requires
        front.len() <= 4,
        scale(front.len()) * bits <= u32::MAX,
    ensures
        length_from(front + encoded(bits) + rest, front.len() as int) == Ok::<int, VarIntError>(
            (front.len() + encoded(bits).len()) as int,
        ),
        value(encoded(bits)) == bits,
    decreases bits,
{
    let input = front + encoded(bits) + rest;
    let at = front.len() as int;
    assert(input[at] == encoded(bits)[0]);
    lemma_scales();
    if bits < 0x80 {
        assert(encoded(bits).skip(1) =~= Seq::<u8>::empty());
        reveal_with_fuel(value, 2);
    } else {
        let byte = (bits % 0x80 + 0x80) as u8;
        let tail = encoded(bits / 0x80);
        let longer = front.push(byte);
        assert(scale(longer.len()) == 0x80 * scale(front.len()));
        let unit = scale(front.len());
        let high = (bits / 0x80) as int;
        assert(0x80 * unit * high <= unit * bits) by (nonlinear_arith)
            requires
                unit >= 0,
                0x80 * high <= bits,
        ;
        assert(front.len() < 4) by {
            if front.len() == 4 {
                assert(0x1000_0000 * bits <= u32::MAX);
            }
        }
        lemma_length_of_encoded(bits / 0x80, longer, rest);
        assert(longer + tail + rest =~= input);
        assert(encoded(bits).skip(1) =~= tail);
    }
}

/// What was encoded is read back, whatever stands behind it.
pub proof fn varint_reads_back(bits: u32, rest: Seq<u8>)
    ensures
        decoded(encoded(bits) + rest) == Ok::<(u32, int), VarIntError>(
            (bits, encoded(bits).len() as int),
        ),
        value(encoded(bits)) == bits,
{
    lemma_scales();
    lemma_length_of_encoded(bits, Seq::<u8>::empty(), rest);
    assert(Seq::<u8>::empty() + encoded(bits) + rest =~= encoded(bits) + rest);
    assert((encoded(bits) + rest).take(encoded(bits).len() as int) =~= encoded(bits));
}

/// Turning a number into bits and back changes nothing.
pub proof fn sign_survives(number: i32)
    ensures
        (number as u32) as i32 == number,
{
    assert((number as u32) as i32 == number) by (bit_vector);
}

/// A number is written in groups of seven bits, the lowest first; every byte but the last has its
/// highest bit set.
pub proof fn numbers_are_written_in_groups(bits: u32)
    ensures
        ({
            let bytes = encoded(bits);
            let group = |at: int|
                if at < bytes.len() {
                    bytes[at] as int % 128
                } else {
                    0
                };
            &&& 1 <= bytes.len() <= 5
            &&& bytes.last() < 128
            &&& forall|at: int| 0 <= at < bytes.len() - 1 ==> #[trigger] bytes[at] >= 128
            &&& bits == group(0) + 128 * group(1) + 16_384 * group(2) + 2_097_152 * group(3)
                + 268_435_456 * group(4)
        }),
{
    encoded_length(bits);
    reveal_with_fuel(encoded, 6);
}

/// What is read as a number ends with the first byte without its highest bit, is the sum of its
/// groups of seven bits, and takes at most five bytes, of which the fifth is below sixteen.
pub proof fn numbers_end_with_a_low_byte(input: Seq<u8>)
    ensures
        ({
            let group = |at: int, length: int|
                if at < length {
                    input[at] as int % 128
                } else {
                    0
                };
            match decoded(input) {
                Ok((number, length)) => {
                    &&& 1 <= length <= 5 && length <= input.len()
                    &&& input[length - 1] < 128
                    &&& length == 5 ==> input[4] < 16
                    &&& forall|at: int| 0 <= at < length - 1 ==> #[trigger] input[at] >= 128
                    &&& number == group(0, length) + 128 * group(1, length) + 16_384 * group(
                        2,
                        length,
                    ) + 2_097_152 * group(3, length) + 268_435_456 * group(4, length)
                },
                Err(VarIntError::Truncated) => input.len() < 5 && forall|at: int|
                    0 <= at < input.len() ==> #[trigger] input[at] >= 128,
                Err(VarIntError::TooLarge) => input.len() >= 5 && input[4] >= 16 && forall|at: int|
                    0 <= at < 4 ==> #[trigger] input[at] >= 128,
            }
        }),
{
    reveal_with_fuel(length_from, 6);
    match length_from(input, 0) {
        Ok(length) => {
            let bytes = input.take(length);
            reveal_with_fuel(value, 6);
            let second = bytes.skip(1);
            if length > 1 {
                assert(second[0] == input[1]);
                let third = second.skip(1);
                if length > 2 {
                    assert(third[0] == input[2]);
                    let fourth = third.skip(1);
                    if length > 3 {
                        assert(fourth[0] == input[3]);
                        let fifth = fourth.skip(1);
                        if length > 4 {
                            assert(fifth[0] == input[4]);
                            assert(fifth.skip(1).len() == 0);
                        }
                    }
                }
            }
        },
        Err(_) => {},
    }
}

} // verus!
