//! Identifiers from random bytes.

use vstd::prelude::*;

use crate::bytes::ascii_text;
use crate::json::hex_char;

verus! {

/// Calls `getrandom::fill` on sixteen bytes. Nothing is claimed of the bytes, nor of whether the
/// call succeeds: both are up to the system.
#[verifier::external_body]
pub(crate) fn random_bytes() -> (result: Result<[u8; 16], String>)
{
    let mut bytes = [0_u8; 16];
    getrandom::fill(&mut bytes).map_err(|error| error.to_string())?;
    Ok(bytes)
}

/// Bytes in hexadecimal digits in lower case, two for each.
pub open spec fn hex(bytes: Seq<u8>) -> Seq<char> {
    Seq::new(
        2 * bytes.len(),
        |i: int|
            if i % 2 == 0 {
                hex_char(bytes[i / 2] as int / 16)
            } else {
                hex_char(bytes[i / 2] as int % 16)
            },
    )
}

/// The byte of a hexadecimal digit in lower case.
fn hex_byte(digit: u8) -> (byte: u8)
    requires
        digit < 16,
    ensures
        byte < 128,
        byte as char == hex_char(digit as int),
{
    if digit < 10 {
        0x30 + digit
    } else {
        0x57 + digit
    }
}

/// Bytes in hexadecimal digits in lower case.
pub fn hex_text(bytes: &[u8]) -> (text: String)
    ensures
        text@ == hex(bytes@),
{
    let mut encoded: Vec<u8> = Vec::new();
    let mut at: usize = 0;
    while at < bytes.len()
        invariant
            at <= bytes@.len(),
            encoded@.len() == 2 * at,
            forall|i: int|
                0 <= i < 2 * at ==> #[trigger] encoded@[i] < 128 && encoded@[i] as char == hex(
                    bytes@,
                )[i],
        decreases bytes@.len() - at,
    {
        encoded.push(hex_byte(bytes[at] / 16));
        encoded.push(hex_byte(bytes[at] % 16));
        at += 1;
    }
    let text = ascii_text(encoded.as_slice());
    assert(text@ =~= hex(bytes@));
    text
}

/// Each byte is written in two digits, the higher first, out of `0` to `9` and `a` to `f`.
pub proof fn bytes_are_written_in_two_digits(bytes: Seq<u8>, at: int)
    requires
        0 <= at < bytes.len(),
    ensures
        hex(bytes).len() == 2 * bytes.len(),
        ({
            let high = hex(bytes)[2 * at] as int;
            let low = hex(bytes)[2 * at + 1] as int;
            &&& 48 <= high <= 57 || 97 <= high <= 102
            &&& 48 <= low <= 57 || 97 <= low <= 102
            &&& bytes[at] as int == 16 * (if high <= 57 {
                high - 48
            } else {
                high - 87
            }) + (if low <= 57 {
                low - 48
            } else {
                low - 87
            })
        }),
{
    assert((2 * at) / 2 == at && (2 * at) % 2 == 0);
    assert((2 * at + 1) / 2 == at && (2 * at + 1) % 2 == 1);
}

} // verus!
