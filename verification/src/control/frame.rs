//! Frames: the length of the payload in four bytes, the version of the protocol in two, and a
//! document.

use vstd::prelude::*;
use vstd::string::StringSliceAdditionalSpecFns;
use vstd::utf8::{encode_utf8, is_ascii_chars, is_ascii_chars_encode_utf8};

use crate::bytes::{
    append_be, be_reads_back, from_be, highest_bytes_come_first, ranges, read_be, to_be,
};
use crate::json::{escaped, escaped_text, listed, member_text, object, quoted, Member};
use crate::text::{decimal, decimal_reads_back};

use super::wire::{
    error_document, operation_document, status_document, status_fields, text_member,
    number_member, OperationFields, StatusFields, WireErrorCode, WireFailureCategory, WirePhase,
    MAX_PAYLOAD_LENGTH, PROTOCOL_VERSION,
};

verus! {

/// The longest document of a frame, in bytes.
pub const MAX_BODY_LENGTH: usize = 65_534;

/// A document does not fit into a frame.
#[derive(Clone, Copy, Debug, PartialEq, Eq, Structural)]
pub struct FrameLimitExceeded;

impl FrameLimitExceeded {
    /// The text of the error.
    pub fn message(self) -> (text: &'static str)
        ensures
            text@ == "failed to encode bounded JSON"@,
    {
        "failed to encode bounded JSON"
    }
}

/// A frame with a document in it.
pub open spec fn frame(version: u16, body: Seq<u8>) -> Seq<u8> {
    to_be((body.len() + 2) as int, 4) + to_be(version as int, 2) + body
}

/// The size of a text in bytes.
pub open spec fn size(text: Seq<char>) -> nat {
    encode_utf8(text).len()
}

/// That a document fits into a frame.
pub open spec fn fits(document: Seq<char>) -> bool {
    size(document) <= MAX_BODY_LENGTH
}

/// The frame of a document in the current version.
pub open spec fn document_frame(document: Seq<char>) -> Seq<u8> {
    frame(PROTOCOL_VERSION, encode_utf8(document))
}

/// Bytes with a limit.
#[derive(Debug)]
pub struct BoundedJson {
    bytes: Vec<u8>,
    maximum: usize,
}

impl BoundedJson {
    /// What has been written.
    pub closed spec fn written(self) -> Seq<u8> {
        self.bytes@
    }

    /// How much may be written.
    pub closed spec fn limit(self) -> nat {
        self.maximum as nat
    }

    #[verifier::type_invariant]
    spec fn well_formed(self) -> bool {
        self.bytes@.len() <= self.maximum
    }

    /// Nothing written yet.
    pub fn new(maximum: usize) -> (writer: BoundedJson)
        ensures
            writer.written() == Seq::<u8>::empty(),
            writer.limit() == maximum,
    {
        BoundedJson { bytes: Vec::new(), maximum }
    }

    /// Writes all of a chunk, or nothing of it if it exceeds the limit.
    pub fn write(&mut self, chunk: &[u8]) -> (result: Result<usize, FrameLimitExceeded>)
        ensures
            final(self).limit() == old(self).limit(),
            match result {
                Ok(count) => count == chunk@.len() && final(self).written() == old(self).written()
                    + chunk@ && old(self).written().len() + chunk@.len() <= old(self).limit(),
                Err(_) => final(self).written() == old(self).written() && old(self).written().len()
                    + chunk@.len() > old(self).limit(),
            },
    {
        proof {
            use_type_invariant(&*self);
        }
        if chunk.len() > self.maximum - self.bytes.len() {
            return Err(FrameLimitExceeded);
        }
        let mut bytes: Vec<u8> = Vec::new();
        bytes.extend_from_slice(self.bytes.as_slice());
        bytes.extend_from_slice(chunk);
        assert(bytes@ =~= self.bytes@ + chunk@);
        self.bytes = bytes;
        Ok(chunk.len())
    }

    /// What has been written.
    pub fn bytes(&self) -> (bytes: &[u8])
        ensures
            bytes@ == self.written(),
    {
        self.bytes.as_slice()
    }

    /// What has been written.
    pub fn into_inner(self) -> (bytes: Vec<u8>)
        ensures
            bytes@ == self.written(),
            bytes@.len() <= self.limit(),
    {
        proof {
            use_type_invariant(&self);
        }
        self.bytes
    }
}

/// Puts a document into a frame.
pub fn encode_frame(json: &str) -> (result: Result<Vec<u8>, FrameLimitExceeded>)
    ensures
        result is Ok <==> fits(json@),
        result matches Ok(bytes) ==> bytes@ == document_frame(json@),
{
    let mut body = BoundedJson::new(MAX_BODY_LENGTH);
    match body.write(json.as_bytes()) {
        Ok(_) => {},
        Err(limit) => {
            return Err(limit);
        },
    }
    let body = body.into_inner();
    assert(body@ =~= encode_utf8(json@));
    let mut bytes: Vec<u8> = Vec::new();
    append_be(&mut bytes, (body.len() + 2) as u64, 4);
    append_be(&mut bytes, PROTOCOL_VERSION as u64, 2);
    bytes.extend_from_slice(body.as_slice());
    assert(bytes@ =~= document_frame(json@));
    Ok(bytes)
}

/// A frame that cannot be read.
#[derive(Clone, Copy, Debug, PartialEq, Eq, Structural)]
pub struct FrameError {
    pub declared_length: Option<u32>,
}

/// Reads the length of the payload from the first four bytes of a frame. A payload holds the
/// version at least and no more than the limit.
pub fn payload_length(header: &[u8]) -> (result: Result<u32, FrameError>)
    requires
        header@.len() == 4,
    ensures
        ({
            let length = from_be(header@);
            result == (if 2 <= length <= MAX_PAYLOAD_LENGTH {
                Ok::<u32, FrameError>(length as u32)
            } else {
                Err::<u32, FrameError>(FrameError { declared_length: Some(length as u32) })
            })
        }),
        result is Ok <==> 2 <= from_be(header@) <= 65_536,
{
    proof {
        ranges();
        crate::bytes::be_writes_back(header@);
    }
    let length: u32 = read_be(header) as u32;
    if length < 2 || length > MAX_PAYLOAD_LENGTH {
        return Err(FrameError { declared_length: Some(length) });
    }
    Ok(length)
}

/// Reads the version from two bytes, and how many bytes of a document follow. What follows a
/// version other than the current one is not read.
pub fn frame_version(version: &[u8], payload_length: u32) -> (read: (u16, usize))
    requires
        version@.len() == 2,
        2 <= payload_length,
    ensures
        read.0 == from_be(version@),
        read.1 == (if read.0 == PROTOCOL_VERSION {
            payload_length - 2
        } else {
            0
        }),
        read.0 == 2 ==> read.1 + 2 == payload_length,
        read.0 != 2 ==> read.1 == 0,
{
    proof {
        ranges();
        crate::bytes::be_writes_back(version@);
    }
    let number: u16 = read_be(version) as u16;
    if number != PROTOCOL_VERSION {
        return (number, 0);
    }
    (number, (payload_length - 2) as usize)
}

/// A frame that was written is read back: its length is valid, its version is the current one,
/// and behind them stands the document.
pub proof fn frame_reads_back(document: Seq<char>)
    requires
        fits(document),
    ensures
        ({
            let bytes = document_frame(document);
            &&& bytes.len() == size(document) + 6
            &&& from_be(bytes.subrange(0, 4)) == size(document) + 2
            &&& 2 <= from_be(bytes.subrange(0, 4)) <= MAX_PAYLOAD_LENGTH
            &&& from_be(bytes.subrange(4, 6)) == PROTOCOL_VERSION
            &&& bytes.skip(6) == encode_utf8(document)
        }),
{
    ranges();
    let length = (size(document) + 2) as int;
    be_reads_back(length, 4);
    be_reads_back(PROTOCOL_VERSION as int, 2);
    let bytes = document_frame(document);
    assert(bytes.subrange(0, 4) =~= to_be(length, 4));
    assert(bytes.subrange(4, 6) =~= to_be(PROTOCOL_VERSION as int, 2));
    assert(bytes.skip(6) =~= encode_utf8(document));
}

/// The size of joined texts is the sum of their sizes.
pub proof fn sizes_add_up(left: Seq<char>, right: Seq<char>)
    ensures
        size(left + right) == size(left) + size(right),
    decreases left.len(),
{
    if left.len() == 0 {
        assert(left + right =~= right);
    } else {
        sizes_add_up(left.drop_first(), right);
        assert((left + right).drop_first() =~= left.drop_first() + right);
    }
}

/// An ASCII text takes one byte for each character.
proof fn lemma_size_of_ascii(text: Seq<char>)
    requires
        is_ascii_chars(text),
    ensures
        size(text) == text.len(),
{
    is_ascii_chars_encode_utf8(text);
}

/// The size of one character that stands for itself in a JSON string.
pub open spec fn plain_char(c: char) -> bool {
    ' ' <= c <= '~' && c != '"' && c != '\\'
}

/// That every character of a text stands for itself in a JSON string, in one byte.
pub open spec fn plain(text: Seq<char>) -> bool {
    forall|i: int| 0 <= i < text.len() ==> plain_char(#[trigger] text[i])
}

/// A plain text is escaped by itself.
proof fn lemma_plain_escapes_to_itself(text: Seq<char>)
    requires
        plain(text),
    ensures
        escaped_text(text) == text,
    decreases text.len(),
{
    if text.len() > 0 {
        assert(plain_char(text[text.len() - 1]));
        assert forall|i: int| 0 <= i < text.drop_last().len() implies plain_char(
            #[trigger] text.drop_last()[i],
        ) by {
            assert(plain_char(text[i]));
        }
        lemma_plain_escapes_to_itself(text.drop_last());
        assert(text.drop_last() + seq![text.last()] =~= text);
    }
}

/// The size of a plain text as a JSON string: two more than its length.
pub proof fn size_of_plain_quoted(text: Seq<char>)
    requires
        plain(text),
    ensures
        size(quoted(text)) == text.len() + 2,
        size(text) == text.len(),
{
    lemma_plain_escapes_to_itself(text);
    assert(is_ascii_chars(text)) by {
        assert forall|i: int| 0 <= i < text.len() implies '\0' <= #[trigger] text[i] <= '\u{7f}' by {
            assert(plain_char(text[i]));
        }
    }
    assert(is_ascii_chars(quoted(text))) by {
        let whole = quoted(text);
        assert forall|i: int| 0 <= i < whole.len() implies '\0' <= #[trigger] whole[i]
            <= '\u{7f}' by {
            if 0 < i < whole.len() - 1 {
                assert(whole[i] == text[i - 1]);
            }
        }
    }
    lemma_size_of_ascii(text);
    lemma_size_of_ascii(quoted(text));
}

/// The size of a number in decimal digits.
proof fn lemma_size_of_decimal(number: nat)
    ensures
        size(decimal(number)) == decimal(number).len(),
{
    decimal_reads_back(number);
    let digits = decimal(number);
    assert forall|i: int| 0 <= i < digits.len() implies '\0' <= #[trigger] digits[i]
        <= '\u{7f}' by {
        assert(crate::text::is_digit(digits[i]));
    }
    lemma_size_of_ascii(digits);
}

/// A greater number has no fewer digits.
proof fn lemma_decimal_grows(less: nat, more: nat)
    requires
        less <= more,
    ensures
        decimal(less).len() <= decimal(more).len(),
    decreases more,
{
    if more >= 10 {
        if less >= 10 {
            lemma_decimal_grows(less / 10, more / 10);
        } else {
            decimal_reads_back(more / 10);
        }
    }
}

/// A greater number is no smaller in bytes.
proof fn lemma_decimal_size_grows(less: nat, more: nat)
    requires
        less <= more,
    ensures
        size(decimal(less)) <= size(decimal(more)),
{
    lemma_decimal_grows(less, more);
    lemma_size_of_decimal(less);
    lemma_size_of_decimal(more);
}

/// A list of texts none of which is bigger is not bigger.
proof fn lemma_listed_grows(smaller: Seq<Seq<char>>, bigger: Seq<Seq<char>>)
    requires
        smaller.len() == bigger.len(),
        forall|i: int|
            0 <= i < smaller.len() ==> size(#[trigger] smaller[i]) <= size(bigger[i]),
    ensures
        size(listed(smaller)) <= size(listed(bigger)),
    decreases smaller.len(),
{
    if smaller.len() >= 2 {
        assert forall|i: int| 0 <= i < smaller.drop_last().len() implies size(
            #[trigger] smaller.drop_last()[i],
        ) <= size(bigger.drop_last()[i]) by {
            assert(size(smaller[i]) <= size(bigger[i]));
        }
        lemma_listed_grows(smaller.drop_last(), bigger.drop_last());
        let last = smaller.len() - 1;
        assert(size(smaller[last]) <= size(bigger[last]));
        sizes_add_up(listed(smaller.drop_last()) + seq![','], smaller.last());
        sizes_add_up(listed(smaller.drop_last()), seq![',']);
        sizes_add_up(listed(bigger.drop_last()) + seq![','], bigger.last());
        sizes_add_up(listed(bigger.drop_last()), seq![',']);
    } else if smaller.len() == 1 {
        assert(size(smaller[0]) <= size(bigger[0]));
    }
}

/// An object with the same keys none of whose values is bigger is not bigger.
pub proof fn objects_grow(smaller: Seq<Member>, bigger: Seq<Member>)
    requires
        smaller.len() == bigger.len(),
        forall|i: int|
            0 <= i < smaller.len() ==> (#[trigger] smaller[i]).key == bigger[i].key && size(
                smaller[i].json,
            ) <= size(bigger[i].json),
    ensures
        size(object(smaller)) <= size(object(bigger)),
{
    let render = |member: Member| member_text(member);
    let left = smaller.map_values(render);
    let right = bigger.map_values(render);
    assert forall|i: int| 0 <= i < left.len() implies size(#[trigger] left[i]) <= size(
        right[i],
    ) by {
        let small = smaller[i];
        let big = bigger[i];
        assert(small.key == big.key);
        sizes_add_up(quoted(small.key) + seq![':'], small.json);
        sizes_add_up(quoted(big.key) + seq![':'], big.json);
    }
    lemma_listed_grows(left, right);
    sizes_add_up(seq!['{'] + listed(left), seq!['}']);
    sizes_add_up(seq!['{'], listed(left));
    sizes_add_up(seq!['{'] + listed(right), seq!['}']);
    sizes_add_up(seq!['{'], listed(right));
}

/// The names that occur in answers are plain, and none is longer than the longest.
proof fn lemma_names(phase: WirePhase, category: WireFailureCategory)
    ensures
        size(quoted(phase.name())) <= size(quoted(WirePhase::Reconciling.name())),
        size(quoted(category.name())) <= size(
            quoted(WireFailureCategory::ExitedUnexpectedly.name()),
        ),
        size("null"@) <= size(quoted(WireFailureCategory::ExitedUnexpectedly.name())),
        size("null"@) == 4,
{
    reveal_strlit("reconciling");
    reveal_strlit("stopped");
    reveal_strlit("starting");
    reveal_strlit("running");
    reveal_strlit("stopping");
    reveal_strlit("cooldown");
    reveal_strlit("external");
    reveal_strlit("conflict");
    reveal_strlit("launch_failed");
    reveal_strlit("startup_timed_out");
    reveal_strlit("exited_before_ready");
    reveal_strlit("exited_unexpectedly");
    reveal_strlit("null");
    size_of_plain_quoted(phase.name());
    size_of_plain_quoted(WirePhase::Reconciling.name());
    size_of_plain_quoted(category.name());
    size_of_plain_quoted(WireFailureCategory::ExitedUnexpectedly.name());
    size_of_plain_quoted("null"@);
}

/// The biggest status of a server.
pub open spec fn worst_status(server_id: Seq<char>) -> StatusFields {
    StatusFields {
        server_id,
        phase: WirePhase::Reconciling,
        failure_category: Some(WireFailureCategory::ExitedUnexpectedly),
        failure_streak: u32::MAX,
        retry_after_ms: Some(u64::MAX),
        command_revision: u64::MAX,
    }
}

/// A status is no bigger than the biggest status of a server with an identifier that is no
/// shorter.
pub proof fn status_is_covered(fields: StatusFields, longest_id: Seq<char>)
    requires
        plain(fields.server_id),
        plain(longest_id),
        fields.server_id.len() <= longest_id.len(),
        fits(status_document(worst_status(longest_id))),
    ensures
        fits(status_document(fields)),
{
    let worst = worst_status(longest_id);
    size_of_plain_quoted(fields.server_id);
    size_of_plain_quoted(longest_id);
    let category = match fields.failure_category {
        Some(category) => category,
        None => WireFailureCategory::LaunchFailed,
    };
    lemma_names(fields.phase, category);
    lemma_decimal_size_grows(fields.failure_streak as nat, u32::MAX as nat);
    lemma_decimal_size_grows(fields.command_revision as nat, u64::MAX as nat);
    let retry: u64 = match fields.retry_after_ms {
        Some(milliseconds) => milliseconds,
        None => 1000,
    };
    lemma_decimal_size_grows(retry as nat, u64::MAX as nat);
    lemma_decimal_size_grows(1000, u64::MAX as nat);
    lemma_size_of_decimal(1000);
    assert(decimal(1000).len() == 4) by {
        reveal_with_fuel(decimal, 5);
    }
    let left = status_fields(fields);
    let right = status_fields(worst);
    objects_grow(left, right);
    let left_result = seq![
        text_member("type"@, "status"@),
        Member { key: "server"@, json: object(left) },
    ];
    let right_result = seq![
        text_member("type"@, "status"@),
        Member { key: "server"@, json: object(right) },
    ];
    objects_grow(left_result, right_result);
    objects_grow(
        seq![text_member("type"@, "success"@), Member { key: "result"@, json: object(left_result) }],
        seq![
            text_member("type"@, "success"@),
            Member { key: "result"@, json: object(right_result) },
        ],
    );
}

/// The biggest answer to an admitted request of this name.
pub open spec fn worst_operation(server_id: Seq<char>, operation: Seq<char>) -> OperationFields {
    OperationFields {
        server_id,
        operation,
        request_id: "ffffffffffffffffffffffffffffffff"@,
        command_revision: u64::MAX,
        disposition: "already_satisfied"@,
    }
}

/// An answer to an admitted request is no bigger than the biggest such answer of a server with
/// an identifier that is no shorter.
pub proof fn operation_is_covered(fields: OperationFields, longest_id: Seq<char>)
    requires
        plain(fields.server_id),
        plain(longest_id),
        fields.server_id.len() <= longest_id.len(),
        super::wire::is_request_id(fields.request_id),
        fields.disposition == "accepted"@ || fields.disposition == "already_satisfied"@,
        fits(operation_document(worst_operation(longest_id, fields.operation))),
    ensures
        fits(operation_document(fields)),
{
    let worst = worst_operation(longest_id, fields.operation);
    reveal_strlit("ffffffffffffffffffffffffffffffff");
    reveal_strlit("accepted");
    reveal_strlit("already_satisfied");
    size_of_plain_quoted(fields.server_id);
    size_of_plain_quoted(longest_id);
    assert(plain(fields.request_id)) by {
        assert forall|i: int| 0 <= i < fields.request_id.len() implies plain_char(
            #[trigger] fields.request_id[i],
        ) by {
            assert(super::wire::is_lower_hex(fields.request_id[i]));
        }
    }
    size_of_plain_quoted(fields.request_id);
    size_of_plain_quoted(worst.request_id);
    size_of_plain_quoted(fields.disposition);
    size_of_plain_quoted(worst.disposition);
    lemma_decimal_size_grows(fields.command_revision as nat, u64::MAX as nat);
    let left = seq![
        text_member("type"@, "operation"@),
        text_member("server_id"@, fields.server_id),
        text_member("operation"@, fields.operation),
        text_member("request_id"@, fields.request_id),
        number_member("command_revision"@, fields.command_revision as nat),
        text_member("disposition"@, fields.disposition),
    ];
    let right = seq![
        text_member("type"@, "operation"@),
        text_member("server_id"@, worst.server_id),
        text_member("operation"@, worst.operation),
        text_member("request_id"@, worst.request_id),
        number_member("command_revision"@, worst.command_revision as nat),
        text_member("disposition"@, worst.disposition),
    ];
    objects_grow(left, right);
    objects_grow(
        seq![text_member("type"@, "success"@), Member { key: "result"@, json: object(left) }],
        seq![text_member("type"@, "success"@), Member { key: "result"@, json: object(right) }],
    );
}

/// The size of an object with two members.
proof fn lemma_size_of_pair(first: Member, second: Member)
    ensures
        size(object(seq![first, second])) == size(quoted(first.key)) + size(first.json) + size(
            quoted(second.key),
        ) + size(second.json) + 5,
{
    let render = |member: Member| member_text(member);
    let members = seq![first, second];
    let items = members.map_values(render);
    assert(items =~= seq![member_text(first), member_text(second)]);
    assert(items.drop_last() =~= seq![member_text(first)]);
    reveal_with_fuel(listed, 3);
    sizes_add_up(quoted(first.key) + seq![':'], first.json);
    sizes_add_up(quoted(first.key), seq![':']);
    sizes_add_up(quoted(second.key) + seq![':'], second.json);
    sizes_add_up(quoted(second.key), seq![':']);
    sizes_add_up(member_text(first) + seq![','], member_text(second));
    sizes_add_up(member_text(first), seq![',']);
    sizes_add_up(seq!['{'] + listed(items), seq!['}']);
    sizes_add_up(seq!['{'], listed(items));
    lemma_size_of_ascii(seq!['{']);
    lemma_size_of_ascii(seq!['}']);
    lemma_size_of_ascii(seq![':']);
    lemma_size_of_ascii(seq![',']);
}

/// Every refusal fits into a frame.
pub proof fn errors_fit(code: WireErrorCode)
    ensures
        fits(error_document(code)),
{
    reveal_strlit("type");
    reveal_strlit("error");
    reveal_strlit("code");
    reveal_strlit("message");
    reveal_strlit("malformed_request");
    reveal_strlit("unsupported_protocol_version");
    reveal_strlit("unsupported_operation");
    reveal_strlit("unknown_server_id");
    reveal_strlit("operation_rejected");
    reveal_strlit("external_backend_not_owned");
    reveal_strlit("conflicting_backend_evidence");
    reveal_strlit("operation_in_progress");
    reveal_strlit("stale_command_revision");
    reveal_strlit("request_id_conflict");
    reveal_strlit("command_queue_full");
    reveal_strlit("internal_failure");
    reveal_strlit("malformed request");
    reveal_strlit("unsupported control protocol version");
    reveal_strlit("unsupported operation");
    reveal_strlit("unknown server ID");
    reveal_strlit("operation rejected");
    reveal_strlit("external backend is not owned");
    reveal_strlit("backend evidence conflicts");
    reveal_strlit("operation in progress");
    reveal_strlit("command revision is stale");
    reveal_strlit("request ID conflicts");
    reveal_strlit("command queue is full");
    reveal_strlit("internal failure");
    size_of_plain_quoted("type"@);
    size_of_plain_quoted("error"@);
    size_of_plain_quoted("code"@);
    size_of_plain_quoted("message"@);
    size_of_plain_quoted(code.name());
    size_of_plain_quoted(code.meaning());
    let inner = seq![text_member("code"@, code.name()), text_member("message"@, code.meaning())];
    lemma_size_of_pair(text_member("code"@, code.name()), text_member("message"@, code.meaning()));
    lemma_size_of_pair(
        text_member("type"@, "error"@),
        Member { key: "error"@, json: object(inner) },
    );
}

/// A frame is the length of what follows in four bytes, the version in two, both with the highest
/// byte first, and the body. Documents are sent in version 2.
pub proof fn frames_are_laid_out(version: u16, body: Seq<u8>, document: Seq<char>)
    requires
        body.len() <= 65_534,
        encode_utf8(document).len() <= 65_534,
    ensures
        ({
            let bytes = frame(version, body);
            &&& bytes.len() == body.len() + 6
            &&& 0x100_0000 * bytes[0] + 0x1_0000 * bytes[1] + 0x100 * bytes[2] + bytes[3]
                == body.len() + 2
            &&& 0x100 * bytes[4] + bytes[5] == version
            &&& bytes.skip(6) == body
        }),
        document_frame(document)[4] == 0,
        document_frame(document)[5] == 2,
        document_frame(document).skip(6) == encode_utf8(document),
        fits(document),
{
    ranges();
    let bytes = frame(version, body);
    be_reads_back((body.len() + 2) as int, 4);
    be_reads_back(version as int, 2);
    highest_bytes_come_first(to_be((body.len() + 2) as int, 4));
    highest_bytes_come_first(to_be(version as int, 2));
    assert(bytes.skip(6) =~= body);
    let content = encode_utf8(document);
    be_reads_back((content.len() + 2) as int, 4);
    be_reads_back(2, 2);
    highest_bytes_come_first(to_be(2, 2));
    assert(document_frame(document).skip(6) =~= content);
}

/// A document of more than 65534 bytes does not fit into a frame.
pub proof fn long_documents_do_not_fit(document: Seq<char>)
    ensures
        fits(document) <==> encode_utf8(document).len() <= 65_534,
{
}

} // verus!
