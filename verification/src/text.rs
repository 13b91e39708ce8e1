//! Small helpers on texts: joining, comparing, searching, decimal numbers.

use vstd::prelude::*;
use vstd::string::{StringExecFns, StringSliceAdditionalSpecFns};
use vstd::utf8::{encode_utf8, encode_utf8_decode_utf8};

verus! {

/// How something that may fail ended, over characters.
pub open spec fn outcome(result: Result<(), String>) -> Result<(), Seq<char>> {
    match result {
        Ok(_) => Ok(()),
        Err(text) => Err(text@),
    }
}

/// A text that may be missing, over characters.
pub open spec fn maybe_text(text: Option<String>) -> Option<Seq<char>> {
    match text {
        Some(text) => Some(text@),
        None => None,
    }
}

/// An error text with the circumstance put in front of its cause.
pub open spec fn in_context(context: Seq<char>, cause: Seq<char>) -> Seq<char> {
    context + ": "@ + cause
}

/// Puts a circumstance in front of the text of its cause.
pub fn with_context(context: &str, cause: &str) -> (text: String)
    ensures
        text@ == in_context(context@, cause@),
{
    let mut text = context.to_owned();
    text.append(": ");
    text.append(cause);
    text
}

/// Whether two texts are the same.
pub fn same_text(left: &str, right: &str) -> (same: bool)
    ensures
        same == (left@ == right@),
{
    let same = same_bytes(left.as_bytes(), right.as_bytes());
    proof {
        encode_utf8_decode_utf8(left@);
        encode_utf8_decode_utf8(right@);
    }
    same
}

/// Whether two byte strings are the same.
pub fn same_bytes(left: &[u8], right: &[u8]) -> (same: bool)
    ensures
        same == (left@ == right@),
{
    if left.len() != right.len() {
        return false;
    }
    let mut i: usize = 0;
    while i < left.len()
        invariant
            left.len() == right.len(),
            i <= left.len(),
            forall|j: int| 0 <= j < i ==> left[j] == right[j],
        decreases left.len() - i,
    {
        if left[i] != right[i] {
            assert(left@[i as int] != right@[i as int]);
            return false;
        }
        i += 1;
    }
    assert(left@ =~= right@);
    true
}

/// That `left` comes strictly before `right` in the order of bytes.
pub open spec fn bytes_before(left: Seq<u8>, right: Seq<u8>) -> bool {
    exists|i: int|
        #![trigger left.take(i)]
        0 <= i <= left.len() && i < right.len() && left.take(i) == right.take(i) && (i == left.len()
            || left[i] < right[i])
}

/// That `left` comes strictly before `right`: the order in which texts are sorted.
pub open spec fn text_before(left: Seq<char>, right: Seq<char>) -> bool {
    bytes_before(encode_utf8(left), encode_utf8(right))
}

/// Whether `left` comes strictly before `right`.
pub fn is_text_before(left: &str, right: &str) -> (before: bool)
    ensures
        before == text_before(left@, right@),
{
    is_bytes_before(left.as_bytes(), right.as_bytes())
}

/// Whether `left` comes strictly before `right` in the order of bytes.
pub fn is_bytes_before(left: &[u8], right: &[u8]) -> (before: bool)
    ensures
        before == bytes_before(left@, right@),
{
    let mut i: usize = 0;
    while i < left.len() && i < right.len() && left[i] == right[i]
        invariant
            i <= left.len(),
            i <= right.len(),
            left@.take(i as int) =~= right@.take(i as int),
        decreases left.len() - i,
    {
        assert(left@.take(i + 1) =~= left@.take(i as int).push(left@[i as int]));
        assert(right@.take(i + 1) =~= right@.take(i as int).push(right@[i as int]));
        i += 1;
    }
    proof {
        lemma_decided_at(left@, right@, i as int);
    }
    i < right.len() && (i == left.len() || left[i] < right[i])
}

/// The first position at which two byte strings part decides their order.
proof fn lemma_decided_at(left: Seq<u8>, right: Seq<u8>, i: int)
    requires
        0 <= i <= left.len(),
        i <= right.len(),
        left.take(i) == right.take(i),
        i == left.len() || i == right.len() || left[i] != right[i],
    ensures
        bytes_before(left, right) <==> i < right.len() && (i == left.len() || left[i] < right[i]),
{
    if bytes_before(left, right) {
        let k = choose|k: int|
            #![trigger left.take(k)]
            0 <= k <= left.len() && k < right.len() && left.take(k) == right.take(k) && (k
                == left.len() || left[k] < right[k]);
        if k < i {
            assert(left[k] == left.take(i)[k]);
            assert(right[k] == right.take(i)[k]);
            assert(false);
        } else if k > i {
            assert(left[i] == left.take(k)[i]);
            assert(right[i] == right.take(k)[i]);
            assert(false);
        }
    }
    if i < right.len() && (i == left.len() || left[i] < right[i]) {
        assert(left.take(i) == right.take(i));
        assert(bytes_before(left, right));
    }
}

/// The order of bytes is strict: nothing comes before itself, and of two byte strings at most
/// one comes before the other.
pub proof fn byte_order_is_strict(left: Seq<u8>, right: Seq<u8>)
    ensures
        !bytes_before(left, left),
        bytes_before(left, right) ==> !bytes_before(right, left),
        left != right ==> bytes_before(left, right) || bytes_before(right, left),
{
    lemma_decided_at(left, left, left.len() as int);
    let i = lemma_parting(left, right);
    lemma_decided_at(left, right, i);
    lemma_decided_at(right, left, i);
    if left != right && i == left.len() && i == right.len() {
        assert(left.take(i) =~= left);
        assert(right.take(i) =~= right);
    }
}

/// The order of bytes is transitive.
pub proof fn byte_order_is_transitive(first: Seq<u8>, second: Seq<u8>, third: Seq<u8>)
    requires
        bytes_before(first, second),
        bytes_before(second, third),
    ensures
        bytes_before(first, third),
{
    let i = lemma_parting(first, second);
    let j = lemma_parting(second, third);
    lemma_decided_at(first, second, i);
    lemma_decided_at(second, third, j);
    let k = if i < j {
        i
    } else {
        j
    };
    assert(first.take(k) =~= third.take(k)) by {
        assert forall|m: int| 0 <= m < k implies first[m] == third[m] by {
            assert(first.take(i)[m] == second.take(i)[m]);
            assert(second.take(j)[m] == third.take(j)[m]);
        }
    }
    if i < j {
        assert(second.take(j)[i] == third.take(j)[i]);
    } else if j < i {
        assert(first.take(i)[j] == second.take(i)[j]);
    }
}

/// The position at which two byte strings part, or the end of one of them.
proof fn lemma_parting(left: Seq<u8>, right: Seq<u8>) -> (i: int)
    ensures
        0 <= i <= left.len(),
        i <= right.len(),
        left.take(i) == right.take(i),
        i == left.len() || i == right.len() || left[i] != right[i],
    decreases left.len(),
{
    if left.len() == 0 || right.len() == 0 {
        assert(left.take(0) =~= right.take(0));
        0
    } else if left[0] != right[0] {
        assert(left.take(0) =~= right.take(0));
        0
    } else {
        let rest = lemma_parting(left.skip(1), right.skip(1));
        assert(left.take(rest + 1) =~= right.take(rest + 1)) by {
            assert forall|m: int| 0 <= m < rest + 1 implies left[m] == right[m] by {
                if m > 0 {
                    assert(left.skip(1).take(rest)[m - 1] == right.skip(1).take(rest)[m - 1]);
                }
            }
        }
        rest + 1
    }
}

/// The characters of a text.
pub fn characters(text: &str) -> (chars: Vec<char>)
    ensures
        chars@ == text@,
{
    let mut chars: Vec<char> = Vec::new();
    for c in iter: text.chars()
        invariant
            iter.seq() == text@,
            chars@ == text@.take(iter.index() as int),
    {
        assert(text@.take(iter.index() + 1) =~= text@.take(iter.index() as int).push(c));
        chars.push(c);
    }
    assert(text@.take(text@.len() as int) =~= text@);
    chars
}

/// That `needle` stands in `text` at position `at`.
pub open spec fn stands_at(text: Seq<char>, needle: Seq<char>, at: int) -> bool {
    0 <= at && at + needle.len() <= text.len() && text.subrange(at, at + needle.len()) == needle
}

/// The first position from `from` on at which `needle` stands in `text`.
pub open spec fn find_from(text: Seq<char>, needle: Seq<char>, from: int) -> Option<int>
    decreases text.len() - from + 1,
{
    if from < 0 || from + needle.len() > text.len() {
        None
    } else if stands_at(text, needle, from) {
        Some(from)
    } else {
        find_from(text, needle, from + 1)
    }
}

/// What stands before and after the first `separator` in a text.
pub open spec fn split_once(text: Seq<char>, separator: Seq<char>) -> Option<(Seq<char>, Seq<char>)> {
    match find_from(text, separator, 0) {
        Some(at) => Some((text.take(at), text.skip(at + separator.len()))),
        None => None,
    }
}

/// Whether `needle` stands in `text` at position `at`.
fn is_standing_at(text: &Vec<char>, needle: &Vec<char>, at: usize) -> (stands: bool)
    requires
        at + needle.len() <= text.len(),
    ensures
        stands == stands_at(text@, needle@, at as int),
{
    let mut i: usize = 0;
    while i < needle.len()
        invariant
            i <= needle.len(),
            at + needle.len() <= text.len(),
            forall|j: int| 0 <= j < i ==> text[at + j] == needle[j],
        decreases needle.len() - i,
    {
        if text[at + i] != needle[i] {
            assert(text@.subrange(at as int, at + needle.len())[i as int] != needle@[i as int]);
            return false;
        }
        i += 1;
    }
    assert(text@.subrange(at as int, at + needle.len()) =~= needle@);
    true
}

/// The first position from `from` on at which `needle` stands in `text`.
pub fn find(text: &Vec<char>, needle: &Vec<char>, from: usize) -> (found: Option<usize>)
    ensures
        found is Some <==> find_from(text@, needle@, from as int) is Some,
        found matches Some(at) ==> find_from(text@, needle@, from as int) == Some(at as int)
            && from <= at && at + needle.len() <= text.len() && stands_at(
            text@,
            needle@,
            at as int,
        ),
{
    let mut at: usize = from;
    while at <= text.len() && needle.len() <= text.len() - at
        invariant
            from <= at,
            find_from(text@, needle@, from as int) == find_from(text@, needle@, at as int),
        decreases text.len() - at,
    {
        if is_standing_at(text, needle, at) {
            return Some(at);
        }
        if at == text.len() {
            assert(text@.subrange(at as int, at + needle.len()) =~= needle@);
            return None;
        }
        at += 1;
    }
    None
}

/// The character of a decimal digit.
pub open spec fn digit_char(digit: int) -> char {
    if digit == 0 {
        '0'
    } else if digit == 1 {
        '1'
    } else if digit == 2 {
        '2'
    } else if digit == 3 {
        '3'
    } else if digit == 4 {
        '4'
    } else if digit == 5 {
        '5'
    } else if digit == 6 {
        '6'
    } else if digit == 7 {
        '7'
    } else if digit == 8 {
        '8'
    } else {
        '9'
    }
}

/// That a character is a decimal digit.
pub open spec fn is_digit(c: char) -> bool {
    '0' <= c <= '9'
}

/// The number that a decimal digit stands for.
pub open spec fn digit_value(c: char) -> int {
    c as int - '0' as int
}

/// The number that a row of decimal digits stands for.
pub open spec fn decimal_value(digits: Seq<char>) -> int
    decreases digits.len(),
{
    if digits.len() == 0 {
        0
    } else {
        decimal_value(digits.drop_last()) * 10 + digit_value(digits.last())
    }
}

/// A number in decimal digits.
pub open spec fn decimal(number: nat) -> Seq<char>
    decreases number,
{
    if number < 10 {
        seq![digit_char(number as int)]
    } else {
        decimal(number / 10).push(digit_char((number % 10) as int))
    }
}

/// The digits of a number, read again, give the number.
pub proof fn decimal_reads_back(number: nat)
    ensures
        decimal(number).len() > 0,
        forall|i: int| 0 <= i < decimal(number).len() ==> is_digit(#[trigger] decimal(number)[i]),
        decimal_value(decimal(number)) == number,
    decreases number,
{
    if number < 10 {
        let digits = decimal(number);
        assert(digits.drop_last() =~= Seq::<char>::empty());
        reveal_with_fuel(decimal_value, 2);
    } else {
        decimal_reads_back(number / 10);
        let digits = decimal(number);
        assert(digits.drop_last() =~= decimal(number / 10));
        assert forall|i: int| 0 <= i < digits.len() implies is_digit(#[trigger] digits[i]) by {
            if i < digits.len() - 1 {
                assert(digits[i] == decimal(number / 10)[i]);
            }
        }
    }
}

/// The text of one decimal digit.
fn digit_text(digit: u64) -> (text: &'static str)
    requires
        digit < 10,
    ensures
        text@ == seq![digit_char(digit as int)],
{
    proof {
        reveal_strlit("0");
        reveal_strlit("1");
        reveal_strlit("2");
        reveal_strlit("3");
        reveal_strlit("4");
        reveal_strlit("5");
        reveal_strlit("6");
        reveal_strlit("7");
        reveal_strlit("8");
        reveal_strlit("9");
    }
    match digit {
        0 => "0",
        1 => "1",
        2 => "2",
        3 => "3",
        4 => "4",
        5 => "5",
        6 => "6",
        7 => "7",
        8 => "8",
        _ => "9",
    }
}

/// Appends a number in decimal digits to a text.
pub fn append_decimal(text: &mut String, number: u64)
    ensures
        final(text)@ == old(text)@ + decimal(number as nat),
    decreases number,
{
    if number >= 10 {
        append_decimal(text, number / 10);
    }
    text.append(digit_text(number % 10));
    proof {
        if number >= 10 {
            assert(old(text)@ + decimal((number / 10) as nat) + seq![
                digit_char((number % 10) as int),
            ] =~= old(text)@ + decimal(number as nat));
        }
    }
}

/// The digits of an unsigned number as it may be written: a plus sign may come first.
pub open spec fn unsigned_digits(text: Seq<char>) -> Seq<char> {
    if text.len() > 0 && text[0] == '+' {
        text.skip(1)
    } else {
        text
    }
}

/// The number that a text stands for, if it is a row of decimal digits for a number up to
/// `u32::MAX`.
pub open spec fn read_u32(text: Seq<char>) -> Option<u32> {
    let digits = unsigned_digits(text);
    if digits.len() > 0 && (forall|i: int| 0 <= i < digits.len() ==> is_digit(#[trigger] digits[i]))
        && decimal_value(digits) <= u32::MAX {
        Some(decimal_value(digits) as u32)
    } else {
        None
    }
}

/// A longer row of digits stands for at least as much.
proof fn lemma_value_grows(digits: Seq<char>, length: int)
    requires
        0 <= length <= digits.len(),
        forall|i: int| 0 <= i < digits.len() ==> is_digit(#[trigger] digits[i]),
    ensures
        0 <= decimal_value(digits.take(length)) <= decimal_value(digits),
    decreases digits.len(),
{
    if digits.len() == 0 {
        assert(digits.take(length) =~= digits);
    } else if length == digits.len() {
        assert(digits.take(length) =~= digits);
        lemma_value_grows(digits.drop_last(), length - 1);
        assert(digits.drop_last().take(length - 1) =~= digits.drop_last());
        assert(is_digit(digits.last()));
    } else {
        lemma_value_grows(digits.drop_last(), length);
        assert(digits.drop_last().take(length) =~= digits.take(length));
        assert(is_digit(digits.last()));
    }
}

/// The number that the characters from `from` to `to` stand for.
pub fn parse_u32(text: &Vec<char>, from: usize, to: usize) -> (number: Option<u32>)
    requires
        from <= to <= text.len(),
    ensures
        number == read_u32(text@.subrange(from as int, to as int)),
{
    let ghost whole = text@.subrange(from as int, to as int);
    let mut start: usize = from;
    if from < to && text[from] == '+' {
        start = from + 1;
    }
    let ghost digits = unsigned_digits(whole);
    assert(digits =~= text@.subrange(start as int, to as int));
    if start == to {
        return None;
    }
    let mut value: u64 = 0;
    let mut i: usize = start;
    while i < to
        invariant
            start <= i <= to <= text.len(),
            whole == text@.subrange(from as int, to as int),
            digits == text@.subrange(start as int, to as int),
            forall|j: int| 0 <= j < i - start ==> is_digit(#[trigger] digits[j]),
            value == decimal_value(digits.take(i - start)),
            value <= u32::MAX,
            read_u32(whole) is Some ==> decimal_value(digits) <= u32::MAX,
            digits == unsigned_digits(whole),
        decreases to - i,
    {
        let c = text[i];
        assert(c == digits[i - start]);
        if !(c >= '0' && c <= '9') {
            assert(!is_digit(digits[i - start]));
            return None;
        }
        let digit: u32 = c as u32 - '0' as u32;
        value = value * 10 + digit as u64;
        assert(digits.take(i + 1 - start).drop_last() =~= digits.take(i - start));
        proof {
            if value > u32::MAX && (forall|j: int|
                0 <= j < digits.len() ==> is_digit(#[trigger] digits[j])) {
                lemma_value_grows(digits, i + 1 - start);
            }
        }
        if value > u32::MAX as u64 {
            return None;
        }
        i += 1;
    }
    assert(digits.take(to - start) =~= digits);
    Some(value as u32)
}

/// The complaint about a text that stands for no number.
pub uninterp spec fn number_complaint(text: Seq<char>) -> Seq<char>;

/// Calls `str::parse` for `u32` on a text that stands for no number, and `to_string` of the
/// error. Claimed of them: such a text is refused, in words that depend on the text alone.
#[verifier::external_body]
pub(crate) fn complain_of_number(text: &str) -> (complaint: String)
    requires
        read_u32(text@) is None,
    ensures
        complaint@ == number_complaint(text@),
{
    text.parse::<u32>().expect_err("the text stands for no number").to_string()
}

/// Digits are written as such, and a digit behind a number counts ten times less than what stands
/// before it.
pub proof fn decimals_grow_by_digits(front: nat, digit: nat)
    requires
        digit < 10,
    ensures
        decimal(digit) == (if digit == 0 {
            "0"@
        } else if digit == 1 {
            "1"@
        } else if digit == 2 {
            "2"@
        } else if digit == 3 {
            "3"@
        } else if digit == 4 {
            "4"@
        } else if digit == 5 {
            "5"@
        } else if digit == 6 {
            "6"@
        } else if digit == 7 {
            "7"@
        } else if digit == 8 {
            "8"@
        } else {
            "9"@
        }),
        front > 0 ==> decimal(10 * front + digit) == decimal(front) + decimal(digit),
{
    reveal_strlit("0");
    reveal_strlit("1");
    reveal_strlit("2");
    reveal_strlit("3");
    reveal_strlit("4");
    reveal_strlit("5");
    reveal_strlit("6");
    reveal_strlit("7");
    reveal_strlit("8");
    reveal_strlit("9");
    if front > 0 {
        let number = 10 * front + digit;
        assert(number / 10 == front && number % 10 == digit);
        assert(decimal(number) =~= decimal(front) + decimal(digit));
    }
}

/// That a text is a numeral for a number: its decimal digits, with zeros in front if one likes,
/// and before them a plus sign if one likes.
pub open spec fn numeral(text: Seq<char>, number: nat) -> bool {
    exists|sign: Seq<char>, zeros: Seq<char>|
        (sign == ""@ || sign == "+"@) && (forall|i: int|
            0 <= i < zeros.len() ==> #[trigger] zeros[i] == '0') && text == #[trigger] (sign
            + zeros) + decimal(number)
}

/// A row of digits is the decimal digits of its value, with zeros in front.
proof fn lemma_digits_are_padded(digits: Seq<char>) -> (zeros: Seq<char>)
    requires
        digits.len() > 0,
        forall|i: int| 0 <= i < digits.len() ==> is_digit(#[trigger] digits[i]),
    ensures
        decimal_value(digits) >= 0,
        forall|i: int| 0 <= i < zeros.len() ==> #[trigger] zeros[i] == '0',
        digits == zeros + decimal(decimal_value(digits) as nat),
    decreases digits.len(),
{
    let front = digits.drop_last();
    let last = digits.last();
    assert(is_digit(last));
    let value = digit_value(last);
    assert(0 <= value < 10);
    assert(digit_char(value) == last);
    if front.len() == 0 {
        reveal_with_fuel(decimal_value, 2);
        assert(digits =~= Seq::<char>::empty() + decimal(value as nat));
        Seq::empty()
    } else {
        assert forall|i: int| 0 <= i < front.len() implies is_digit(#[trigger] front[i]) by {
            assert(front[i] == digits[i]);
        }
        let zeros = lemma_digits_are_padded(front);
        let before = decimal_value(front);
        assert(digits =~= front.push(last));
        if before == 0 {
            let longer = zeros.push('0');
            assert(decimal(0) =~= seq!['0']);
            assert(front =~= longer);
            assert(decimal(value as nat) =~= seq![last]);
            assert(digits =~= longer + decimal(value as nat));
            longer
        } else {
            let number = (10 * before + value) as nat;
            assert(number / 10 == before && number % 10 == value);
            assert(decimal(number) =~= decimal(before as nat).push(last));
            assert(digits =~= zeros + decimal(number));
            zeros
        }
    }
}

/// Zeros in front of a number change nothing.
proof fn lemma_padding_is_worthless(zeros: Seq<char>, digits: Seq<char>)
    requires
        forall|i: int| 0 <= i < zeros.len() ==> #[trigger] zeros[i] == '0',
    ensures
        decimal_value(zeros + digits) == decimal_value(digits),
    decreases zeros.len() + digits.len(),
{
    if digits.len() > 0 {
        assert((zeros + digits).drop_last() =~= zeros + digits.drop_last());
        lemma_padding_is_worthless(zeros, digits.drop_last());
    } else if zeros.len() > 0 {
        assert((zeros + digits).drop_last() =~= zeros.drop_last() + digits);
        assert((zeros + digits).last() == zeros[zeros.len() - 1]);
        lemma_padding_is_worthless(zeros.drop_last(), digits);
    }
}

/// A text is read as a number exactly if it is a numeral for it.
pub proof fn numbers_are_read_as_written(text: Seq<char>, number: u32)
    ensures
        read_u32(text) == Some(number) <==> numeral(text, number as nat),
{
    reveal_strlit("");
    reveal_strlit("+");
    if read_u32(text) == Some(number) {
        let digits = unsigned_digits(text);
        let zeros = lemma_digits_are_padded(digits);
        let sign = if text.len() > 0 && text[0] == '+' {
            "+"@
        } else {
            ""@
        };
        assert(decimal_value(digits) == number);
        assert(text =~= sign + digits);
        assert(text =~= (sign + zeros) + decimal(number as nat));
    }
    if numeral(text, number as nat) {
        let (sign, zeros) = choose|sign: Seq<char>, zeros: Seq<char>|
            (sign == ""@ || sign == "+"@) && (forall|i: int|
                0 <= i < zeros.len() ==> #[trigger] zeros[i] == '0') && text == #[trigger] (sign
                + zeros) + decimal(number as nat);
        decimal_reads_back(number as nat);
        lemma_padding_is_worthless(zeros, decimal(number as nat));
        let row = zeros + decimal(number as nat);
        assert forall|i: int| 0 <= i < row.len() implies is_digit(#[trigger] row[i]) by {
            if i < zeros.len() {
                assert(zeros[i] == '0');
            } else {
                assert(is_digit(decimal(number as nat)[i - zeros.len()]));
            }
        }
        assert(is_digit(row[0]));
        assert(unsigned_digits(text) =~= row);
    }
}

/// What stands behind a front in which the first character of a needle does not occur is found
/// there first.
pub(crate) proof fn lemma_found_behind(
    front: Seq<char>,
    needle: Seq<char>,
    rest: Seq<char>,
    from: int,
)
    requires
        needle.len() > 0,
        forall|i: int| 0 <= i < front.len() ==> #[trigger] front[i] != needle[0],
        0 <= from <= front.len(),
    ensures
        find_from(front + needle + rest, needle, from) == Some(front.len() as int),
    decreases front.len() - from,
{
    let text = front + needle + rest;
    if from == front.len() {
        assert(text.subrange(from, from + needle.len()) =~= needle);
    } else {
        assert(text.subrange(from, from + needle.len())[0] == front[from]);
        lemma_found_behind(front, needle, rest, from + 1);
    }
}

/// A text with a separator in it is split at the separator if no character before it could begin
/// one.
pub proof fn texts_split_at_separators(front: Seq<char>, separator: Seq<char>, rest: Seq<char>)
    requires
        separator.len() > 0,
        forall|i: int| 0 <= i < front.len() ==> #[trigger] front[i] != separator[0],
    ensures
        split_once(front + separator + rest, separator) == Some((front, rest)),
{
    lemma_found_behind(front, separator, rest, 0);
    let text = front + separator + rest;
    assert(text.take(front.len() as int) =~= front);
    assert(text.skip((front.len() + separator.len()) as int) =~= rest);
}

/// Nothing is lost when a text is split: the two parts with the separator between them are the
/// text again.
pub proof fn splitting_loses_nothing(text: Seq<char>, separator: Seq<char>)
    ensures
        split_once(text, separator) matches Some((front, rest)) ==> text == front + separator
            + rest,
{
    lemma_find_stands(text, separator, 0);
    if let Some(at) = find_from(text, separator, 0) {
        assert(text.subrange(at, at + separator.len()) == separator);
        assert(text =~= text.take(at) + separator + text.skip(at + separator.len()));
    }
}

/// What is found stands there.
proof fn lemma_find_stands(text: Seq<char>, needle: Seq<char>, from: int)
    ensures
        find_from(text, needle, from) matches Some(at) ==> stands_at(text, needle, at),
    decreases text.len() - from + 1,
{
    if from >= 0 && from + needle.len() <= text.len() && !stands_at(text, needle, from) {
        lemma_find_stands(text, needle, from + 1);
    }
}

/// A text in a context stands behind it, a colon and a space.
pub proof fn contexts_stand_in_front(context: Seq<char>, cause: Seq<char>)
    ensures
        in_context(context, cause) == context + seq![':', ' '] + cause,
{
    reveal_strlit(": ");
    assert(": "@ =~= seq![':', ' ']);
}

/// Of two texts the one with the lesser byte where they first differ comes first; a beginning
/// comes before the whole.
pub proof fn first_differences_decide(left: Seq<u8>, right: Seq<u8>, at: int)
    requires
        0 <= at <= left.len(),
        at < right.len(),
        forall|i: int| 0 <= i < at ==> left[i] == right[i],
    ensures
        at == left.len() || left[at] < right[at] ==> bytes_before(left, right)
            && !bytes_before(right, left),
{
    if at == left.len() || left[at] < right[at] {
        assert(left.take(at) =~= right.take(at));
        assert(bytes_before(left, right));
        byte_order_is_strict(left, right);
    }
}

/// A result and an optional text are seen as they are.
pub proof fn results_are_seen_as_they_are(result: Result<(), String>, text: Option<String>)
    ensures
        result is Ok <==> outcome(result) is Ok,
        result matches Err(error) ==> outcome(result) == Err::<(), Seq<char>>(error@),
        text is None <==> maybe_text(text) is None,
        text matches Some(found) ==> maybe_text(text) == Some(found@),
{
}

} // verus!
