//! Writing JSON documents: objects and arrays without whitespace.

use vstd::prelude::*;
use vstd::string::StringExecFns;

use crate::text::{
    append_decimal, decimal, decimal_reads_back, decimal_value, digit_value, is_digit,
};

verus! {

/// The character of a hexadecimal digit.
pub open spec fn hex_char(digit: int) -> char {
    if digit == 10 {
        'a'
    } else if digit == 11 {
        'b'
    } else if digit == 12 {
        'c'
    } else if digit == 13 {
        'd'
    } else if digit == 14 {
        'e'
    } else if digit == 15 {
        'f'
    } else {
        crate::text::digit_char(digit)
    }
}

/// A character as it stands in a JSON string: quotation mark, backslash and control characters
/// are escaped, everything else stands for itself.
pub open spec fn escaped(c: char) -> Seq<char> {
    if c == '"' {
        seq!['\\', '"']
    } else if c == '\\' {
        seq!['\\', '\\']
    } else if c == '\u{8}' {
        seq!['\\', 'b']
    } else if c == '\t' {
        seq!['\\', 't']
    } else if c == '\n' {
        seq!['\\', 'n']
    } else if c == '\u{c}' {
        seq!['\\', 'f']
    } else if c == '\r' {
        seq!['\\', 'r']
    } else if (c as int) < 32 {
        seq!['\\', 'u', '0', '0', hex_char(c as int / 16), hex_char(c as int % 16)]
    } else {
        seq![c]
    }
}

/// A text with each character as it stands in a JSON string.
pub open spec fn escaped_text(text: Seq<char>) -> Seq<char>
    decreases text.len(),
{
    if text.len() == 0 {
        Seq::empty()
    } else {
        escaped_text(text.drop_last()) + escaped(text.last())
    }
}

/// A text as a JSON string.
pub open spec fn quoted(text: Seq<char>) -> Seq<char> {
    seq!['"'] + escaped_text(text) + seq!['"']
}

/// Calls `serde_json::to_string` on a text. Claimed of it: a text never fails to serialize, and
/// the result is the text between quotation marks, with quotation marks, backslashes and the
/// characters below the space escaped, in the short form where JSON has one and as `\u00xx` in
/// lower case otherwise.
#[verifier::external_body]
fn quote(text: &str) -> (json: String)
    ensures
        json@ == quoted(text@),
{
    serde_json::to_string(text).expect("a text always serializes")
}

/// A member of an object: its key, and its value as JSON.
pub struct Member {
    pub key: Seq<char>,
    pub json: Seq<char>,
}

/// A member as it stands in an object.
pub open spec fn member_text(member: Member) -> Seq<char> {
    quoted(member.key) + seq![':'] + member.json
}

/// JSON texts with commas between them.
pub open spec fn listed(items: Seq<Seq<char>>) -> Seq<char>
    decreases items.len(),
{
    if items.len() == 0 {
        Seq::empty()
    } else if items.len() == 1 {
        items[0]
    } else {
        listed(items.drop_last()) + seq![','] + items.last()
    }
}

/// An object with the given members.
pub open spec fn object(members: Seq<Member>) -> Seq<char> {
    seq!['{'] + listed(members.map_values(|member: Member| member_text(member))) + seq!['}']
}

/// An array of the given values.
pub open spec fn array(items: Seq<Seq<char>>) -> Seq<char> {
    seq!['['] + listed(items) + seq![']']
}

/// The truth values of JSON.
pub open spec fn boolean(truth: bool) -> Seq<char> {
    if truth {
        "true"@
    } else {
        "false"@
    }
}

/// An object that is being written.
pub struct ObjectWriter {
    text: String,
    empty: bool,
    members: Ghost<Seq<Member>>,
}

impl View for ObjectWriter {
    type V = Seq<Member>;

    closed spec fn view(&self) -> Seq<Member> {
        self.members@
    }
}

impl ObjectWriter {
    #[verifier::type_invariant]
    spec fn well_formed(self) -> bool {
        &&& self.text@ == seq!['{'] + listed(
            self.members@.map_values(|member: Member| member_text(member)),
        )
        &&& self.empty == (self.members@.len() == 0)
    }

    /// An object without members.
    pub fn new() -> (writer: ObjectWriter)
        ensures
            writer@ == Seq::<Member>::empty(),
    {
        proof {
            reveal_strlit("{");
            assert(Seq::<Member>::empty().map_values(|member: Member| member_text(member))
                =~= Seq::empty());
        }
        let text = "{".to_owned();
        assert(text@ =~= seq!['{'] + listed(Seq::empty()));
        ObjectWriter { text, empty: true, members: Ghost(Seq::empty()) }
    }

    /// Adds a member whose value is JSON already.
    pub fn json(self, key: &str, json: &str) -> (writer: ObjectWriter)
        ensures
            writer@ == self@.push(Member { key: key@, json: json@ }),
    {
        proof {
            use_type_invariant(&self);
            reveal_strlit(",");
            reveal_strlit(":");
        }
        let ghost member = Member { key: key@, json: json@ };
        let ghost before = self.members@;
        let mut text = self.text;
        if !self.empty {
            text.append(",");
        }
        text.append(quote(key).as_str());
        text.append(":");
        text.append(json);
        proof {
            let render = |member: Member| member_text(member);
            let items = before.map_values(render);
            let longer = before.push(member).map_values(render);
            assert(longer =~= items.push(member_text(member)));
            assert(longer.drop_last() =~= items);
            if before.len() == 0 {
                assert(items =~= Seq::<Seq<char>>::empty());
                assert(text@ =~= seq!['{'] + member_text(member));
            } else {
                assert(text@ =~= seq!['{'] + (listed(items) + seq![','] + member_text(member)));
            }
        }
        ObjectWriter { text, empty: false, members: Ghost(before.push(member)) }
    }

    /// Adds a member whose value is a text.
    pub fn text(self, key: &str, value: &str) -> (writer: ObjectWriter)
        ensures
            writer@ == self@.push(Member { key: key@, json: quoted(value@) }),
    {
        let json = quote(value);
        self.json(key, json.as_str())
    }

    /// Adds a member whose value is a number.
    pub fn number(self, key: &str, value: u64) -> (writer: ObjectWriter)
        ensures
            writer@ == self@.push(Member { key: key@, json: decimal(value as nat) }),
    {
        let mut json = String::new();
        append_decimal(&mut json, value);
        assert(Seq::<char>::empty() + decimal(value as nat) =~= decimal(value as nat));
        self.json(key, json.as_str())
    }

    /// Adds a member whose value is a truth value.
    pub fn boolean(self, key: &str, value: bool) -> (writer: ObjectWriter)
        ensures
            writer@ == self@.push(Member { key: key@, json: boolean(value) }),
    {
        if value {
            self.json(key, "true")
        } else {
            self.json(key, "false")
        }
    }

    /// The finished object.
    pub fn finish(self) -> (json: String)
        ensures
            json@ == object(self@),
    {
        proof {
            use_type_invariant(&self);
            reveal_strlit("}");
        }
        let mut text = self.text;
        text.append("}");
        text
    }
}

/// An array of texts.
pub fn text_array(items: &Vec<String>) -> (json: String)
    ensures
        json@ == array(items@.map_values(|item: String| quoted(item@))),
{
    let ghost render = |item: String| quoted(item@);
    proof {
        reveal_strlit("[");
        reveal_strlit("]");
        reveal_strlit(",");
    }
    let mut text = "[".to_owned();
    let mut i: usize = 0;
    assert(text@ =~= seq!['['] + listed(items@.take(0).map_values(render))) by {
        assert(items@.take(0).map_values(render) =~= Seq::empty());
    }
    while i < items.len()
        invariant
            i <= items.len(),
            "["@ == seq!['['],
            "]"@ == seq![']'],
            ","@ == seq![','],
            render == (|item: String| quoted(item@)),
            text@ == seq!['['] + listed(items@.take(i as int).map_values(render)),
        decreases items.len() - i,
    {
        if i > 0 {
            text.append(",");
        }
        text.append(quote(items[i].as_str()).as_str());
        proof {
            let done = items@.take(i as int).map_values(render);
            let next = items@.take(i + 1).map_values(render);
            assert(next =~= done.push(quoted(items@[i as int]@)));
            assert(next.drop_last() =~= done);
            if i == 0 {
                assert(done =~= Seq::<Seq<char>>::empty());
                assert(text@ =~= seq!['['] + listed(next));
            } else {
                assert(text@ =~= seq!['['] + listed(next));
            }
        }
        i += 1;
    }
    text.append("]");
    assert(items@.take(items@.len() as int) =~= items@);
    text
}

/// What a JSON text says. Numbers are whole and not negative.
pub enum Json {
    Text(Seq<char>),
    Number(nat),
    Truth(bool),
    Nothing,
    List(Seq<Json>),
    Object(Seq<(Seq<char>, Json)>),
}

/// The number that a hexadecimal digit stands for; other characters stand for none.
pub open spec fn hex_value(c: char) -> int {
    if is_digit(c) {
        digit_value(c)
    } else if 'a' <= c <= 'f' {
        c as int - 'a' as int + 10
    } else if 'A' <= c <= 'F' {
        c as int - 'A' as int + 10
    } else {
        -1
    }
}

/// The character that stands behind a backslash, and how many characters it takes there.
pub open spec fn unescaped(text: Seq<char>) -> Option<(char, int)> {
    if text.len() == 0 {
        None
    } else if text[0] == '"' || text[0] == '\\' || text[0] == '/' {
        Some((text[0], 1))
    } else if text[0] == 'b' {
        Some(('\u{8}', 1))
    } else if text[0] == 't' {
        Some(('\t', 1))
    } else if text[0] == 'n' {
        Some(('\n', 1))
    } else if text[0] == 'f' {
        Some(('\u{c}', 1))
    } else if text[0] == 'r' {
        Some(('\r', 1))
    } else if text[0] == 'u' && text.len() >= 5 {
        let code = 4096 * hex_value(text[1]) + 256 * hex_value(text[2]) + 16 * hex_value(text[3])
            + hex_value(text[4]);
        if hex_value(text[1]) >= 0 && hex_value(text[2]) >= 0 && hex_value(text[3]) >= 0
            && hex_value(text[4]) >= 0 && !(0xd800 <= code < 0xe000) {
            Some((code as char, 5))
        } else {
            None
        }
    } else {
        None
    }
}

/// The text up to the closing quotation mark, and what stands behind it.
#[verifier::opaque]
pub open spec fn read_string(text: Seq<char>) -> Option<(Seq<char>, Seq<char>)>
    decreases text.len(),
{
    if text.len() == 0 {
        None
    } else if text[0] == '"' {
        Some((Seq::empty(), text.skip(1)))
    } else if text[0] == '\\' {
        match unescaped(text.skip(1)) {
            Some((c, length)) => if 0 < length < text.len() {
                match read_string(text.skip(1 + length)) {
                    Some((more, rest)) => Some((seq![c] + more, rest)),
                    None => None,
                }
            } else {
                None
            },
            None => None,
        }
    } else if (text[0] as int) < 32 {
        None
    } else {
        match read_string(text.skip(1)) {
            Some((more, rest)) => Some((seq![text[0]] + more, rest)),
            None => None,
        }
    }
}

/// How many digits a text begins with.
pub open spec fn digits_in_front(text: Seq<char>) -> nat
    decreases text.len(),
{
    if text.len() > 0 && is_digit(text[0]) {
        1 + digits_in_front(text.skip(1))
    } else {
        0
    }
}

/// The value at the beginning of a text, and what stands behind it.
#[verifier::opaque]
pub open spec fn read_value(text: Seq<char>) -> Option<(Json, Seq<char>)>
    decreases text.len(), 0int,
{
    if text.len() == 0 {
        None
    } else if text[0] == '"' {
        match read_string(text.skip(1)) {
            Some((found, rest)) => Some((Json::Text(found), rest)),
            None => None,
        }
    } else if text[0] == '{' {
        if text.len() > 1 && text[1] == '}' {
            Some((Json::Object(Seq::empty()), text.skip(2)))
        } else {
            match read_members(text.skip(1)) {
                Some((members, rest)) => Some((Json::Object(members), rest)),
                None => None,
            }
        }
    } else if text[0] == '[' {
        if text.len() > 1 && text[1] == ']' {
            Some((Json::List(Seq::empty()), text.skip(2)))
        } else {
            match read_items(text.skip(1)) {
                Some((items, rest)) => Some((Json::List(items), rest)),
                None => None,
            }
        }
    } else if is_digit(text[0]) {
        let length = digits_in_front(text) as int;
        Some((Json::Number(decimal_value(text.take(length)) as nat), text.skip(length)))
    } else if text.len() >= 4 && text.take(4) == "true"@ {
        Some((Json::Truth(true), text.skip(4)))
    } else if text.len() >= 5 && text.take(5) == "false"@ {
        Some((Json::Truth(false), text.skip(5)))
    } else if text.len() >= 4 && text.take(4) == "null"@ {
        Some((Json::Nothing, text.skip(4)))
    } else {
        None
    }
}

/// The members of an object up to its end, and what stands behind it.
#[verifier::opaque]
pub open spec fn read_members(text: Seq<char>) -> Option<(Seq<(Seq<char>, Json)>, Seq<char>)>
    decreases text.len(), 1int,
{
    if text.len() == 0 || text[0] != '"' {
        None
    } else {
        match read_string(text.skip(1)) {
            None => None,
            Some((key, behind)) => if behind.len() == 0 || behind.len() >= text.len() || behind[0]
                != ':' {
                None
            } else {
                match read_value(behind.skip(1)) {
                    None => None,
                    Some((value, rest)) => if rest.len() == 0 || rest.len() >= text.len() {
                        None
                    } else if rest[0] == '}' {
                        Some((seq![(key, value)], rest.skip(1)))
                    } else if rest[0] == ',' {
                        match read_members(rest.skip(1)) {
                            Some((more, end)) => Some((seq![(key, value)] + more, end)),
                            None => None,
                        }
                    } else {
                        None
                    },
                }
            },
        }
    }
}

/// The items of a list up to its end, and what stands behind it.
#[verifier::opaque]
pub open spec fn read_items(text: Seq<char>) -> Option<(Seq<Json>, Seq<char>)>
    decreases text.len(), 1int,
{
    match read_value(text) {
        None => None,
        Some((value, rest)) => if rest.len() == 0 || rest.len() >= text.len() {
            None
        } else if rest[0] == ']' {
            Some((seq![value], rest.skip(1)))
        } else if rest[0] == ',' {
            match read_items(rest.skip(1)) {
                Some((more, end)) => Some((seq![value] + more, end)),
                None => None,
            }
        } else {
            None
        },
    }
}

/// What a whole text says if it is JSON.
#[verifier::opaque]
pub open spec fn json_of(text: Seq<char>) -> Option<Json> {
    match read_value(text) {
        Some((value, rest)) => if rest.len() == 0 {
            Some(value)
        } else {
            None
        },
        None => None,
    }
}

/// That a text says this value, also where it stands inside of a document.
#[verifier::opaque]
pub open spec fn says(text: Seq<char>, value: Json) -> bool {
    &&& text.len() > 0
    &&& text[0] != ']'
    &&& forall|rest: Seq<char>|
        rest.len() == 0 || !is_digit(rest[0]) ==> #[trigger] read_value(text + rest) == Some(
            (value, rest),
        )
}

/// A text is escaped from its front as well.
proof fn lemma_escaped_from_front(text: Seq<char>)
    requires
        text.len() > 0,
    ensures
        escaped_text(text) == escaped(text[0]) + escaped_text(text.skip(1)),
    decreases text.len(),
{
    if text.len() == 1 {
        assert(text.drop_last() =~= Seq::<char>::empty());
        assert(text.skip(1) =~= Seq::<char>::empty());
        assert(escaped_text(text) =~= escaped(text[0]) + escaped_text(text.skip(1)));
    } else {
        lemma_escaped_from_front(text.drop_last());
        assert(text.drop_last().skip(1) =~= text.skip(1).drop_last());
        assert(text.skip(1).last() == text.last());
        assert(escaped_text(text) =~= escaped(text[0]) + escaped_text(text.skip(1)));
    }
}

/// An escaped character is read as the character.
proof fn lemma_character_reads_back(c: char, behind: Seq<char>, more: Seq<char>, rest: Seq<char>)
    requires
        read_string(behind) == Some((more, rest)),
    ensures
        read_string(escaped(c) + behind) == Some((seq![c] + more, rest)),
{
    reveal(read_string);
    let text = escaped(c) + behind;
    let length = escaped(c).len();
    assert(text.skip(length as int) =~= behind);
    if length == 2 {
        assert(text.skip(1)[0] == escaped(c)[1]);
    } else if length == 6 {
        let inner = text.skip(1);
        assert(inner[0] == 'u' && inner[1] == '0' && inner[2] == '0');
        assert(inner[3] == hex_char(c as int / 16) && inner[4] == hex_char(c as int % 16));
        assert(hex_value(hex_char(c as int / 16)) == c as int / 16);
        assert(hex_value(hex_char(c as int % 16)) == c as int % 16);
        assert(unescaped(inner) == Some((c, 5int)));
    }
}

/// A text between its quotation marks is read as the text.
proof fn lemma_string_reads_back(text: Seq<char>, rest: Seq<char>)
    ensures
        read_string(escaped_text(text) + seq!['"'] + rest) == Some((text, rest)),
    decreases text.len(),
{
    reveal(read_string);
    let written = escaped_text(text) + seq!['"'] + rest;
    if text.len() == 0 {
        assert(written.skip(1) =~= rest);
        assert(text =~= Seq::<char>::empty());
    } else {
        let tail = text.skip(1);
        lemma_string_reads_back(tail, rest);
        lemma_escaped_from_front(text);
        let behind = escaped_text(tail) + seq!['"'] + rest;
        assert(written =~= escaped(text[0]) + behind);
        lemma_character_reads_back(text[0], behind, tail, rest);
        assert(seq![text[0]] + tail =~= text);
    }
}

/// A text in quotation marks says the text, whatever characters it holds.
pub proof fn quoted_texts_read_back(text: Seq<char>)
    ensures
        says(quoted(text), Json::Text(text)),
        json_of(quoted(text)) == Some(Json::Text(text)),
{
    reveal(read_value);
    reveal(says);
    assert forall|rest: Seq<char>| #[trigger] read_value(quoted(text) + rest) == Some(
        (Json::Text(text), rest),
    ) by {
        lemma_string_reads_back(text, rest);
        assert((quoted(text) + rest).skip(1) =~= escaped_text(text) + seq!['"'] + rest);
    }
    lemma_says_whole(quoted(text), Json::Text(text));
}

/// A text that says a value says it as a whole.
proof fn lemma_says_whole(text: Seq<char>, value: Json)
    requires
        says(text, value),
    ensures
        json_of(text) == Some(value),
{
    reveal(json_of);
    reveal(says);
    assert(text + Seq::<char>::empty() =~= text);
    assert(read_value(text + Seq::<char>::empty()) == Some((value, Seq::<char>::empty())));
}

/// A row of digits ends where the digits do.
proof fn lemma_digits_end(digits: Seq<char>, rest: Seq<char>)
    requires
        forall|i: int| 0 <= i < digits.len() ==> is_digit(#[trigger] digits[i]),
        rest.len() == 0 || !is_digit(rest[0]),
    ensures
        digits_in_front(digits + rest) == digits.len(),
    decreases digits.len(),
{
    if digits.len() == 0 {
        assert(digits + rest =~= rest);
    } else {
        assert(is_digit(digits[0]));
        assert((digits + rest).skip(1) =~= digits.skip(1) + rest);
        lemma_digits_end(digits.skip(1), rest);
    }
}

/// The digits of a number say the number.
pub proof fn numbers_read_back(number: nat)
    ensures
        says(decimal(number), Json::Number(number)),
        json_of(decimal(number)) == Some(Json::Number(number)),
{
    reveal(read_value);
    reveal(says);
    let digits = decimal(number);
    decimal_reads_back(number);
    assert(is_digit(digits[0]));
    assert forall|rest: Seq<char>| rest.len() == 0 || !is_digit(rest[0]) implies #[trigger] read_value(
        digits + rest,
    ) == Some((Json::Number(number), rest)) by {
        lemma_digits_end(digits, rest);
        assert((digits + rest).take(digits.len() as int) =~= digits);
        assert((digits + rest).skip(digits.len() as int) =~= rest);
        assert((digits + rest)[0] == digits[0]);
    }
    lemma_says_whole(digits, Json::Number(number));
}

/// The truth values say what they are.
pub proof fn truths_read_back(truth: bool)
    ensures
        says(boolean(truth), Json::Truth(truth)),
        json_of(boolean(truth)) == Some(Json::Truth(truth)),
{
    reveal(read_value);
    reveal(says);
    reveal_strlit("true");
    reveal_strlit("false");
    let text = boolean(truth);
    assert forall|rest: Seq<char>| #[trigger] read_value(text + rest) == Some(
        (Json::Truth(truth), rest),
    ) by {
        assert((text + rest).take(text.len() as int) =~= text);
        assert((text + rest).skip(text.len() as int) =~= rest);
        if !truth {
            assert((text + rest).take(4)[0] == 'f');
        }
    }
    lemma_says_whole(text, Json::Truth(truth));
}

/// The word for nothing says nothing.
pub proof fn nothing_reads_back()
    ensures
        says("null"@, Json::Nothing),
{
    reveal(read_value);
    reveal(says);
    reveal_strlit("true");
    reveal_strlit("false");
    reveal_strlit("null");
    let text = "null"@;
    assert forall|rest: Seq<char>| #[trigger] read_value(text + rest) == Some((Json::Nothing, rest)) by {
        assert((text + rest).take(4) =~= text);
        assert((text + rest).skip(4) =~= rest);
        assert((text + rest)[0] == 'n');
        if text.len() + rest.len() >= 5 {
            assert((text + rest).take(5)[0] == 'n');
        }
    }
}

/// A list is written from its front as well.
proof fn lemma_listed_from_front(items: Seq<Seq<char>>)
    requires
        items.len() > 1,
    ensures
        listed(items) == items[0] + seq![','] + listed(items.skip(1)),
    decreases items.len(),
{
    if items.len() == 2 {
        assert(items.drop_last() =~= seq![items[0]]);
        assert(items.skip(1) =~= seq![items[1]]);
        assert(listed(items.drop_last()) == items[0]);
        assert(listed(items.skip(1)) == items[1]);
    } else {
        lemma_listed_from_front(items.drop_last());
        assert(items.drop_last().skip(1) =~= items.skip(1).drop_last());
        assert(items.skip(1).last() == items.last());
        assert(listed(items) =~= items[0] + seq![','] + listed(items.skip(1)));
    }
}

/// The members of an object with these keys and values.
pub open spec fn told_members(members: Seq<Member>, values: Seq<Json>) -> Seq<(Seq<char>, Json)> {
    Seq::new(members.len(), |i: int| (members[i].key, values[i]))
}

/// A member is read with what stands behind it.
proof fn lemma_member_reads_back(member: Member, value: Json, end: Seq<char>)
    requires
        says(member.json, value),
        end.len() > 0,
        end[0] == '}' || end[0] == ',',
    ensures
        read_members(member_text(member) + end) == (if end[0] == '}' {
            Some((seq![(member.key, value)], end.skip(1)))
        } else {
            match read_members(end.skip(1)) {
                Some((more, rest)) => Some((seq![(member.key, value)] + more, rest)),
                None => None,
            }
        }),
{
    reveal(read_value);
    reveal(read_members);
    reveal(read_items);
    reveal(says);
    let text = member_text(member) + end;
    let behind = seq![':'] + (member.json + end);
    assert(text.skip(1) =~= escaped_text(member.key) + seq!['"'] + behind);
    assert(text[0] == '"');
    lemma_string_reads_back(member.key, behind);
    assert(behind.skip(1) =~= member.json + end);
    assert(read_value(member.json + end) == Some((value, end)));
    assert(behind.len() < text.len());
}

/// Members are read one after the other.
proof fn lemma_members_read_back(members: Seq<Member>, values: Seq<Json>, rest: Seq<char>)
    requires
        members.len() == values.len() > 0,
        forall|i: int| 0 <= i < members.len() ==> says((#[trigger] members[i]).json, values[i]),
    ensures
        read_members(
            listed(members.map_values(|member: Member| member_text(member))) + seq!['}'] + rest,
        ) == Some((told_members(members, values), rest)),
    decreases members.len(),
{
    let render = |member: Member| member_text(member);
    let items = members.map_values(render);
    let first = members[0];
    let text = listed(items) + seq!['}'] + rest;
    assert(says(first.json, values[0]));
    assert(items[0] == member_text(first));
    if members.len() == 1 {
        let end = seq!['}'] + rest;
        assert(text =~= member_text(first) + end);
        lemma_member_reads_back(first, values[0], end);
        assert(end.skip(1) =~= rest);
        assert(told_members(members, values) =~= seq![(first.key, values[0])]);
    } else {
        let shorter = members.skip(1);
        let fewer = values.skip(1);
        assert forall|i: int| 0 <= i < shorter.len() implies says(
            (#[trigger] shorter[i]).json,
            fewer[i],
        ) by {
            assert(shorter[i] == members[i + 1]);
        }
        lemma_members_read_back(shorter, fewer, rest);
        lemma_listed_from_front(items);
        assert(shorter.map_values(render) =~= items.skip(1));
        let inner = listed(items.skip(1)) + seq!['}'] + rest;
        let end = seq![','] + inner;
        assert(text =~= member_text(first) + end);
        lemma_member_reads_back(first, values[0], end);
        assert(end.skip(1) =~= inner);
        assert(told_members(members, values) =~= seq![(first.key, values[0])] + told_members(
            shorter,
            fewer,
        ));
    }
}

/// An object says its members in their order, each with its own value.
pub proof fn objects_read_back(members: Seq<Member>, values: Seq<Json>)
    requires
        members.len() == values.len(),
        forall|i: int| 0 <= i < members.len() ==> says((#[trigger] members[i]).json, values[i]),
    ensures
        says(object(members), Json::Object(told_members(members, values))),
        json_of(object(members)) == Some(Json::Object(told_members(members, values))),
{
    reveal(read_value);
    reveal(read_members);
    reveal(read_items);
    reveal(says);
    let render = |member: Member| member_text(member);
    let items = members.map_values(render);
    let text = object(members);
    let value = Json::Object(told_members(members, values));
    assert forall|rest: Seq<char>| #[trigger] read_value(text + rest) == Some((value, rest)) by {
        if members.len() == 0 {
            assert(items =~= Seq::<Seq<char>>::empty());
            assert((text + rest).skip(2) =~= rest);
            assert(told_members(members, values) =~= Seq::<(Seq<char>, Json)>::empty());
        } else {
            lemma_members_read_back(members, values, rest);
            assert((text + rest).skip(1) =~= listed(items) + seq!['}'] + rest);
            lemma_listed_begins(items);
            assert(items[0][0] == '"');
            assert((text + rest)[1] == '"');
        }
    }
    lemma_says_whole(text, value);
}

/// A list begins as its first item does.
proof fn lemma_listed_begins(items: Seq<Seq<char>>)
    requires
        items.len() > 0,
        items[0].len() > 0,
    ensures
        listed(items).len() > 0,
        listed(items)[0] == items[0][0],
{
    if items.len() > 1 {
        lemma_listed_from_front(items);
    }
}

/// Items are read one after the other.
proof fn lemma_items_read_back(items: Seq<Seq<char>>, values: Seq<Json>, rest: Seq<char>)
    requires
        items.len() == values.len() > 0,
        forall|i: int| 0 <= i < items.len() ==> says(#[trigger] items[i], values[i]),
    ensures
        read_items(listed(items) + seq![']'] + rest) == Some((values, rest)),
    decreases items.len(),
{
    reveal(read_value);
    reveal(read_members);
    reveal(read_items);
    reveal(says);
    let text = listed(items) + seq![']'] + rest;
    assert(says(items[0], values[0]));
    let end = if items.len() == 1 {
        seq![']'] + rest
    } else {
        let shorter = items.skip(1);
        let fewer = values.skip(1);
        assert forall|i: int| 0 <= i < shorter.len() implies says(#[trigger] shorter[i], fewer[i]) by {
            assert(shorter[i] == items[i + 1]);
        }
        lemma_items_read_back(shorter, fewer, rest);
        lemma_listed_from_front(items);
        seq![','] + (listed(items.skip(1)) + seq![']'] + rest)
    };
    assert(text =~= items[0] + end);
    assert(read_value(items[0] + end) == Some((values[0], end)));
    if items.len() == 1 {
        assert(end.skip(1) =~= rest);
        assert(values =~= seq![values[0]]);
    } else {
        assert(end.skip(1) =~= listed(items.skip(1)) + seq![']'] + rest);
        assert(values =~= seq![values[0]] + values.skip(1));
    }
}

/// A list says its items in their order.
pub proof fn lists_read_back(items: Seq<Seq<char>>, values: Seq<Json>)
    requires
        items.len() == values.len(),
        forall|i: int| 0 <= i < items.len() ==> says(#[trigger] items[i], values[i]),
    ensures
        says(array(items), Json::List(values)),
        json_of(array(items)) == Some(Json::List(values)),
{
    reveal(read_value);
    reveal(read_members);
    reveal(read_items);
    reveal(says);
    let text = array(items);
    let value = Json::List(values);
    assert forall|rest: Seq<char>| #[trigger] read_value(text + rest) == Some((value, rest)) by {
        if items.len() == 0 {
            assert((text + rest).skip(2) =~= rest);
            assert(values =~= Seq::<Json>::empty());
        } else {
            lemma_items_read_back(items, values, rest);
            assert((text + rest).skip(1) =~= listed(items) + seq![']'] + rest);
            assert(says(items[0], values[0]));
            lemma_listed_begins(items);
            assert((text + rest)[1] == items[0][0]);
        }
    }
    lemma_says_whole(text, value);
}

/// Objects stand in braces and arrays in brackets, with commas between what they hold; a key
/// stands in front of a colon. The truth values are written out.
pub proof fn values_are_written_plainly(members: Seq<Member>, items: Seq<Seq<char>>, truth: bool)
    ensures
        members.len() == 0 ==> object(members) == seq!['{', '}'],
        members.len() == 1 ==> object(members) == seq!['{'] + quoted(members[0].key) + seq![':']
            + members[0].json + seq!['}'],
        members.len() > 1 ==> object(members) == object(members.drop_last()).drop_last() + seq![
            ',',
        ] + quoted(members.last().key) + seq![':'] + members.last().json + seq!['}'],
        items.len() == 0 ==> array(items) == seq!['[', ']'],
        items.len() == 1 ==> array(items) == seq!['['] + items[0] + seq![']'],
        items.len() > 1 ==> array(items) == array(items.drop_last()).drop_last() + seq![',']
            + items.last() + seq![']'],
        boolean(truth) == (if truth {
            seq!['t', 'r', 'u', 'e']
        } else {
            seq!['f', 'a', 'l', 's', 'e']
        }),
{
    reveal_strlit("true");
    reveal_strlit("false");
    assert(boolean(truth) =~= (if truth {
        seq!['t', 'r', 'u', 'e']
    } else {
        seq!['f', 'a', 'l', 's', 'e']
    }));
    let render = |member: Member| member_text(member);
    let rendered = members.map_values(render);
    if members.len() == 0 {
        assert(object(members) =~= seq!['{', '}']);
    } else if members.len() == 1 {
        assert(rendered[0] == member_text(members[0]));
        assert(object(members) =~= seq!['{'] + quoted(members[0].key) + seq![':'] + members[0].json
            + seq!['}']);
    } else {
        assert(rendered.drop_last() =~= members.drop_last().map_values(render));
        assert(rendered.last() == member_text(members.last()));
        assert(object(members.drop_last()).drop_last() =~= seq!['{'] + listed(
            rendered.drop_last(),
        ));
        assert(object(members) =~= object(members.drop_last()).drop_last() + seq![','] + quoted(
            members.last().key,
        ) + seq![':'] + members.last().json + seq!['}']);
    }
    if items.len() == 0 {
        assert(array(items) =~= seq!['[', ']']);
    } else if items.len() > 1 {
        assert(array(items.drop_last()).drop_last() =~= seq!['['] + listed(items.drop_last()));
        assert(array(items) =~= array(items.drop_last()).drop_last() + seq![','] + items.last()
            + seq![']']);
    }
}

/// A text stands in quotation marks; in it a quotation mark and a backslash stand behind a
/// backslash, control characters are escaped, and everything else stands for itself.
pub proof fn texts_are_quoted(front: Seq<char>, c: char)
    ensures
        quoted(Seq::empty()) == seq!['"', '"'],
        c == '"' || c == '\\' ==> quoted(front.push(c)) == quoted(front).drop_last() + seq![
            '\\',
            c,
            '"',
        ],
        c as int >= 32 && c != '"' && c != '\\' ==> quoted(front.push(c)) == quoted(
            front,
        ).drop_last() + seq![c, '"'],
        (c as int) < 32 ==> quoted(front.push(c)).len() >= quoted(front).len() + 2,
{
    assert(quoted(Seq::empty()) =~= seq!['"', '"']);
    let text = front.push(c);
    assert(text.drop_last() =~= front);
    assert(escaped_text(text) == escaped_text(front) + escaped(c));
    assert(quoted(front).drop_last() =~= seq!['"'] + escaped_text(front));
    if c == '"' || c == '\\' {
        assert(quoted(text) =~= quoted(front).drop_last() + seq!['\\', c, '"']);
    } else if c as int >= 32 {
        assert(quoted(text) =~= quoted(front).drop_last() + seq![c, '"']);
    }
}

} // verus!
