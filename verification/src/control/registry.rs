//! The servers that the control protocol knows.

use vstd::prelude::*;
use vstd::string::{StringExecFns, StringSliceAdditionalSpecFns};

use crate::text::{
    byte_order_is_strict, byte_order_is_transitive, is_text_before, same_text, text_before,
};

use crate::supervisor::admission::MutationReply;
use crate::supervisor::lifecycle::{LifecycleStatusSnapshot, Nanos};

use super::exchange::{
    constant_error_frame, operation_fields, reply_frame, retry_can_be_told, snapshot_fields,
    status_frame,
};
use super::frame::{
    document_frame, encode_frame, fits, plain, size, size_of_plain_quoted, worst_operation,
    worst_status, FrameLimitExceeded,
};
use super::wire::{
    error_document, is_request_id, list_document, mutation_code, operation_document,
    status_document, texts, write_list, write_operation, write_status, ClientMutationOperation,
    OperationFields, StatusFields, WireErrorCode, WireFailureCategory, WirePhase,
};

verus! {

/// That texts are in ascending order.
pub open spec fn ascending(items: Seq<Seq<char>>) -> bool {
    forall|i: int, j: int|
        0 <= i < j < items.len() ==> !text_before(#[trigger] items[j], #[trigger] items[i])
}

/// That texts are in strictly ascending order: ascending, and none twice.
pub open spec fn strictly_ascending(items: Seq<Seq<char>>) -> bool {
    forall|i: int, j: int|
        0 <= i < j < items.len() ==> text_before(#[trigger] items[i], #[trigger] items[j])
}

/// The order of texts is total and transitive where it matters here.
proof fn lemma_not_before_is_transitive(first: Seq<char>, second: Seq<char>, third: Seq<char>)
    requires
        !text_before(second, first),
        !text_before(third, second),
    ensures
        !text_before(third, first),
{
    let a = vstd::utf8::encode_utf8(first);
    let b = vstd::utf8::encode_utf8(second);
    let c = vstd::utf8::encode_utf8(third);
    byte_order_is_strict(a, b);
    byte_order_is_strict(b, c);
    byte_order_is_strict(a, c);
    if text_before(third, first) {
        if a != b {
            byte_order_is_transitive(c, a, b);
        }
    }
}

/// Sorts texts.
pub fn sort_texts(items: &Vec<String>) -> (sorted: Vec<String>)
    ensures
        ascending(texts(sorted@)),
        texts(sorted@).to_multiset() == texts(items@).to_multiset(),
        sorted@.len() == items@.len(),
{
    let mut sorted: Vec<String> = Vec::new();
    let mut i: usize = 0;
    assert(texts(sorted@) =~= texts(items@.take(0)));
    while i < items.len()
        invariant
            i <= items.len(),
            sorted@.len() == i,
            ascending(texts(sorted@)),
            texts(sorted@).to_multiset() == texts(items@.take(i as int)).to_multiset(),
        decreases items.len() - i,
    {
        let mut at: usize = 0;
        while at < sorted.len() && !is_text_before(items[i].as_str(), sorted[at].as_str())
            invariant
                i < items.len(),
                at <= sorted.len(),
                forall|j: int|
                    0 <= j < at ==> !text_before(items@[i as int]@, #[trigger] texts(sorted@)[j]),
            decreases sorted.len() - at,
        {
            at += 1;
        }
        let ghost before = texts(sorted@);
        let ghost new = items@[i as int]@;
        proof {
            lemma_insertion_keeps_order(before, new, at as int);
        }
        let copy = items[i].clone();
        sorted.insert(at, copy);
        proof {
            assert(texts(sorted@) =~= before.insert(at as int, new));
            assert(texts(items@.take(i + 1)) =~= texts(items@.take(i as int)).push(new));
            before.to_multiset_ensures();
            texts(items@.take(i as int)).to_multiset_ensures();
            assert(before.insert(at as int, new).to_multiset() =~= before.to_multiset().insert(new))
                by {
                lemma_insert_in_multiset(before, new, at as int);
            }
        }
        i += 1;
    }
    assert(items@.take(items@.len() as int) =~= items@);
    sorted
}

/// Inserting a text before the first that comes after it keeps the order.
proof fn lemma_insertion_keeps_order(items: Seq<Seq<char>>, new: Seq<char>, at: int)
    requires
        ascending(items),
        0 <= at <= items.len(),
        forall|j: int| 0 <= j < at ==> !text_before(new, #[trigger] items[j]),
        at < items.len() ==> text_before(new, items[at]),
    ensures
        ascending(items.insert(at, new)),
{
    let longer = items.insert(at, new);
    assert forall|i: int, j: int| 0 <= i < j < longer.len() implies !text_before(
        #[trigger] longer[j],
        #[trigger] longer[i],
    ) by {
        if j < at {
            assert(longer[i] == items[i] && longer[j] == items[j]);
        } else if j == at {
            assert(longer[i] == items[i]);
        } else if i == at {
            assert(longer[j] == items[j - 1]);
            byte_order_is_strict(
                vstd::utf8::encode_utf8(new),
                vstd::utf8::encode_utf8(items[at]),
            );
            if j - 1 > at {
                assert(!text_before(items[j - 1], items[at]));
                lemma_not_before_is_transitive(new, items[at], items[j - 1]);
            }
        } else if i < at {
            assert(longer[i] == items[i] && longer[j] == items[j - 1]);
        } else {
            assert(longer[i] == items[i - 1] && longer[j] == items[j - 1]);
        }
    }
}

/// Inserting adds one occurrence.
proof fn lemma_insert_in_multiset(items: Seq<Seq<char>>, new: Seq<char>, at: int)
    requires
        0 <= at <= items.len(),
    ensures
        items.insert(at, new).to_multiset() == items.to_multiset().insert(new),
{
    let front = items.take(at);
    let back = items.skip(at);
    assert(items.insert(at, new) =~= front.push(new) + back);
    assert(items =~= front + back);
    vstd::seq_lib::lemma_multiset_commutative(front.push(new), back);
    vstd::seq_lib::lemma_multiset_commutative(front, back);
    front.to_multiset_ensures();
    assert((front.push(new) + back).to_multiset() =~= (front + back).to_multiset().insert(new));
}

/// The last of the biggest texts.
pub open spec fn longest(items: Seq<Seq<char>>) -> Seq<char>
    decreases items.len(),
{
    if items.len() <= 1 {
        items[0]
    } else {
        let earlier = longest(items.drop_last());
        if size(items.last()) >= size(earlier) {
            items.last()
        } else {
            earlier
        }
    }
}

/// No text is bigger than the biggest.
proof fn lemma_longest(items: Seq<Seq<char>>, index: int)
    requires
        0 <= index < items.len(),
    ensures
        items.contains(longest(items)),
        size(items[index]) <= size(longest(items)),
    decreases items.len(),
{
    if items.len() == 1 {
        assert(items[0] == longest(items));
    } else {
        let front = items.drop_last();
        lemma_longest(front, 0);
        let at = choose|at: int| 0 <= at < front.len() && front[at] == longest(front);
        assert(items[at] == longest(front));
        assert(items[items.len() - 1] == items.last());
        if index < items.len() - 1 {
            lemma_longest(front, index);
        }
    }
}

/// The position of the last of the biggest texts.
fn longest_text(items: &Vec<String>) -> (at: usize)
    requires
        items@.len() > 0,
    ensures
        at < items@.len(),
        items@[at as int]@ == longest(texts(items@)),
{
    let mut at: usize = 0;
    let mut i: usize = 1;
    assert(texts(items@.take(1)).len() == 1);
    while i < items.len()
        invariant
            1 <= i <= items.len(),
            at < i,
            items@[at as int]@ == longest(texts(items@.take(i as int))),
        decreases items.len() - i,
    {
        proof {
            let next = texts(items@.take(i + 1));
            assert(next.drop_last() =~= texts(items@.take(i as int)));
            assert(next.last() == items@[i as int]@);
        }
        if items[i].as_str().as_bytes().len() >= items[at].as_str().as_bytes().len() {
            at = i;
        }
        i += 1;
    }
    assert(items@.take(items@.len() as int) =~= items@);
    at
}

/// The text for an answer that could exceed the limit of a frame.
pub open spec fn limit_text(what: Seq<char>) -> Seq<char> {
    "control protocol v2 response limit exceeded by "@ + what + ": "@
        + "failed to encode bounded JSON"@
}

/// Why servers with these identifiers cannot be controlled, if they cannot: the list of them
/// and the biggest answers about them have to fit into a frame.
pub open spec fn registry_fault(server_ids: Seq<Seq<char>>) -> Option<Seq<char>> {
    if !fits(list_document(server_ids)) {
        Some(limit_text("the complete server list"@))
    } else if server_ids.len() == 0 {
        Some("control registry requires at least one configured server"@)
    } else {
        let id = longest(server_ids);
        if !fits(status_document(worst_status(id))) {
            Some(limit_text("a worst-case server status"@))
        } else if !fits(operation_document(worst_operation(id, "start"@))) {
            Some(limit_text("a worst-case start success"@))
        } else if !fits(operation_document(worst_operation(id, "stop"@))) {
            Some(limit_text("a worst-case stop success"@))
        } else if !fits(operation_document(worst_operation(id, "restart"@))) {
            Some(limit_text("a worst-case restart success"@))
        } else {
            None
        }
    }
}

/// The servers that the control protocol knows, with the prepared answer to a request for the
/// list of them.
pub struct PreparedRegistry {
    server_ids: Vec<String>,
    list_response: Vec<u8>,
}

/// What is wrong with the handles that a registry is activated with.
#[derive(Clone, Copy, Debug, PartialEq, Eq, Structural)]
pub enum ActivationFault {
    MissingServer,
    IdentityMismatch,
}

impl ActivationFault {
    /// The text of the error.
    pub fn message(self) -> (text: &'static str)
        ensures
            text@ == match self {
                ActivationFault::MissingServer => {
                    "control registry activation did not receive every prepared server"@
                },
                ActivationFault::IdentityMismatch => {
                    "control registry handle identity does not match its server ID"@
                },
            },
    {
        match self {
            ActivationFault::MissingServer => {
                "control registry activation did not receive every prepared server"
            },
            ActivationFault::IdentityMismatch => {
                "control registry handle identity does not match its server ID"
            },
        }
    }
}

/// Whether two lists of texts are the same.
fn same_texts(left: &Vec<String>, right: &Vec<String>) -> (same: bool)
    ensures
        same == (texts(left@) == texts(right@)),
{
    if left.len() != right.len() {
        assert(texts(left@).len() != texts(right@).len());
        return false;
    }
    let mut i: usize = 0;
    while i < left.len()
        invariant
            i <= left.len(),
            left.len() == right.len(),
            forall|j: int| 0 <= j < i ==> #[trigger] left@[j]@ == right@[j]@,
        decreases left.len() - i,
    {
        if !same_text(left[i].as_str(), right[i].as_str()) {
            assert(texts(left@)[i as int] != texts(right@)[i as int]);
            return false;
        }
        i += 1;
    }
    assert(texts(left@) =~= texts(right@));
    true
}

/// The text for an answer that could exceed the limit of a frame.
fn limit_message(what: &str, limit: FrameLimitExceeded) -> (text: String)
    ensures
        text@ == limit_text(what@),
{
    let mut text = "control protocol v2 response limit exceeded by ".to_owned();
    text.append(what);
    text.append(": ");
    text.append(limit.message());
    text
}

/// Checks the biggest answer to an admitted request.
fn check_operation(server_id: &str, operation: ClientMutationOperation) -> (result: Result<
    (),
    FrameLimitExceeded,
>)
    ensures
        result is Ok <==> fits(operation_document(worst_operation(server_id@, operation.name()))),
{
    let document = write_operation(
        server_id,
        operation.as_str(),
        "ffffffffffffffffffffffffffffffff",
        18_446_744_073_709_551_615,
        "already_satisfied",
    );
    match encode_frame(document.as_str()) {
        Ok(_) => Ok(()),
        Err(limit) => Err(limit),
    }
}

/// The answer to a request for the status of a server.
pub enum StatusAnswer {
    Frame(Vec<u8>),
    /// The server is going away: no answer.
    HangUp,
}

impl PreparedRegistry {
    #[verifier::type_invariant]
    spec fn well_formed(self) -> bool {
        &&& registry_fault(texts(self.server_ids@)) is None
        &&& ascending(texts(self.server_ids@))
    }

    /// The identifiers of the servers, in ascending order.
    pub closed spec fn ids(self) -> Seq<Seq<char>> {
        texts(self.server_ids@)
    }

    /// The answer to a request for the list of servers.
    pub closed spec fn list(self) -> Seq<u8> {
        self.list_response@
    }

    /// Prepares the servers with these identifiers.
    pub fn new(server_ids: &Vec<String>) -> (result: Result<PreparedRegistry, String>)
        ensures
            exists|sorted: Seq<Seq<char>>|
                #![trigger registry_fault(sorted)]
                ascending(sorted) && sorted.to_multiset() == texts(server_ids@).to_multiset()
                    && match result {
                    Ok(registry) => registry_fault(sorted) is None && registry.ids() == sorted
                        && registry.list() == document_frame(list_document(sorted)),
                    Err(text) => registry_fault(sorted) == Some(text@),
                },
    {
        let server_ids = sort_texts(server_ids);
        let ghost sorted = texts(server_ids@);
        let list = write_list(&server_ids);
        let list_response = match encode_frame(list.as_str()) {
            Ok(frame) => frame,
            Err(limit) => {
                let text = limit_message("the complete server list", limit);
                assert(registry_fault(sorted) == Some(text@));
                return Err(text);
            },
        };
        if server_ids.len() == 0 {
            let text = "control registry requires at least one configured server".to_owned();
            assert(registry_fault(sorted) == Some(text@));
            return Err(text);
        }
        let at = longest_text(&server_ids);
        let longest_id = server_ids[at].as_str();
        let status = write_status(
            longest_id,
            WirePhase::Reconciling,
            Some(WireFailureCategory::ExitedUnexpectedly),
            4_294_967_295,
            Some(18_446_744_073_709_551_615),
            18_446_744_073_709_551_615,
        );
        if let Err(limit) = encode_frame(status.as_str()) {
            let text = limit_message("a worst-case server status", limit);
            assert(registry_fault(sorted) == Some(text@));
            return Err(text);
        }
        if let Err(limit) = check_operation(longest_id, ClientMutationOperation::Start) {
            let text = limit_message("a worst-case start success", limit);
            assert(registry_fault(sorted) == Some(text@));
            return Err(text);
        }
        if let Err(limit) = check_operation(longest_id, ClientMutationOperation::Stop) {
            let text = limit_message("a worst-case stop success", limit);
            assert(registry_fault(sorted) == Some(text@));
            return Err(text);
        }
        if let Err(limit) = check_operation(longest_id, ClientMutationOperation::Restart) {
            let text = limit_message("a worst-case restart success", limit);
            assert(registry_fault(sorted) == Some(text@));
            return Err(text);
        }
        assert(registry_fault(sorted) is None);
        Ok(PreparedRegistry { server_ids, list_response })
    }

    /// Checks the handles that the registry is activated with: one for each server, in the same
    /// order, each for the server that it is filed under.
    pub fn activate(&self, filed_under: &Vec<String>, handle_ids: &Vec<String>) -> (result: Result<
        (),
        ActivationFault,
    >)
        ensures
            result == (if texts(filed_under@) != self.ids() {
                Err::<(), ActivationFault>(ActivationFault::MissingServer)
            } else if texts(handle_ids@) != self.ids() {
                Err::<(), ActivationFault>(ActivationFault::IdentityMismatch)
            } else {
                Ok::<(), ActivationFault>(())
            }),
    {
        if !same_texts(filed_under, &self.server_ids) {
            return Err(ActivationFault::MissingServer);
        }
        if !same_texts(filed_under, handle_ids) {
            return Err(ActivationFault::IdentityMismatch);
        }
        Ok(())
    }

    /// Where a server stands among the servers, if it is one of them.
    pub fn find(&self, server_id: &str) -> (found: Option<usize>)
        ensures
            match found {
                Some(at) => at < self.ids().len() && self.ids()[at as int] == server_id@,
                None => !self.ids().contains(server_id@),
            },
    {
        let mut at: usize = 0;
        while at < self.server_ids.len()
            invariant
                at <= self.server_ids@.len(),
                forall|i: int| 0 <= i < at ==> #[trigger] self.ids()[i] != server_id@,
            decreases self.server_ids@.len() - at,
        {
            if same_text(self.server_ids[at].as_str(), server_id) {
                assert(self.ids()[at as int] == server_id@);
                return Some(at);
            }
            at += 1;
        }
        None
    }

    /// Answers a request for the status of a server; `snapshot` is none if the server is going
    /// away. An answer always fits into a frame.
    pub fn serve_status(
        &self,
        server_id: &str,
        snapshot: Option<LifecycleStatusSnapshot>,
        now: Nanos,
    ) -> (answer: StatusAnswer)
        requires
            forall|i: int| 0 <= i < self.ids().len() ==> plain(#[trigger] self.ids()[i]),
            snapshot matches Some(shown) ==> retry_can_be_told(shown, now),
        ensures
            if !self.ids().contains(server_id@) {
                answer matches StatusAnswer::Frame(bytes) && bytes@ == document_frame(
                    error_document(WireErrorCode::UnknownServerId),
                )
            } else {
                match snapshot {
                    None => answer is HangUp,
                    Some(shown) => answer matches StatusAnswer::Frame(bytes) && bytes@
                        == document_frame(
                        status_document(snapshot_fields(server_id@, shown, now)),
                    ),
                }
            },
    {
        let at = match self.find(server_id) {
            None => {
                return StatusAnswer::Frame(constant_error_frame(WireErrorCode::UnknownServerId));
            },
            Some(at) => at,
        };
        assert(self.ids().contains(self.ids()[at as int]));
        match snapshot {
            None => StatusAnswer::HangUp,
            Some(shown) => {
                proof {
                    use_type_invariant(self);
                    let fields = snapshot_fields(server_id@, shown, now);
                    status_answers_fit(self.ids(), at as int, fields);
                }
                match status_frame(server_id, shown, now) {
                    Ok(bytes) => StatusAnswer::Frame(bytes),
                    Err(_) => StatusAnswer::HangUp,
                }
            },
        }
    }

    /// The frame of a supervisor's answer. It always fits.
    pub fn serve_reply(&self, reply: &MutationReply) -> (bytes: Vec<u8>)
        requires
            forall|i: int| 0 <= i < self.ids().len() ==> plain(#[trigger] self.ids()[i]),
            reply matches Ok(success) ==> self.ids().contains(success@.server_id)
                && is_request_id(success@.request_id),
        ensures
            bytes@ == document_frame(
                match *reply {
                    Ok(success) => operation_document(operation_fields(success@)),
                    Err(error) => error_document(mutation_code(error)),
                },
            ),
    {
        proof {
            use_type_invariant(self);
            if let Ok(success) = reply {
                let ids = self.ids();
                let at = choose|at: int| 0 <= at < ids.len() && ids[at] == success@.server_id;
                operation_answers_fit(ids, at, operation_fields(success@));
            }
        }
        match reply_frame(reply) {
            Ok(bytes) => bytes,
            Err(_) => Vec::new(),
        }
    }

    /// The identifiers of the servers, in ascending order.
    pub fn server_ids(&self) -> (ids: &Vec<String>)
        ensures
            texts(ids@) == self.ids(),
    {
        &self.server_ids
    }

    /// The answer to a request for the list of servers.
    pub fn list_response(&self) -> (frame: &[u8])
        ensures
            frame@ == self.list(),
    {
        self.list_response.as_slice()
    }
}

/// Servers that could be prepared can always be answered about: every status of any of them
/// fits into a frame.
pub proof fn status_answers_fit(server_ids: Seq<Seq<char>>, index: int, status: StatusFields)
    requires
        registry_fault(server_ids) is None,
        forall|i: int| 0 <= i < server_ids.len() ==> plain(#[trigger] server_ids[i]),
        0 <= index < server_ids.len(),
        status.server_id == server_ids[index],
    ensures
        fits(status_document(status)),
{
    let id = longest(server_ids);
    lemma_longest(server_ids, index);
    let at = choose|at: int| 0 <= at < server_ids.len() && server_ids[at] == id;
    assert(plain(server_ids[at]));
    assert(plain(server_ids[index]));
    size_of_plain_quoted(server_ids[index]);
    size_of_plain_quoted(id);
    super::frame::status_is_covered(status, id);
}

/// Servers that could be prepared can always be answered about: the answer to every admitted
/// request to any of them fits into a frame.
pub proof fn operation_answers_fit(
    server_ids: Seq<Seq<char>>,
    index: int,
    operation: OperationFields,
)
    requires
        registry_fault(server_ids) is None,
        forall|i: int| 0 <= i < server_ids.len() ==> plain(#[trigger] server_ids[i]),
        0 <= index < server_ids.len(),
        operation.server_id == server_ids[index],
        is_request_id(operation.request_id),
        operation.disposition == "accepted"@ || operation.disposition == "already_satisfied"@,
        operation.operation == "start"@ || operation.operation == "stop"@ || operation.operation
            == "restart"@,
    ensures
        fits(operation_document(operation)),
{
    let id = longest(server_ids);
    lemma_longest(server_ids, index);
    let at = choose|at: int| 0 <= at < server_ids.len() && server_ids[at] == id;
    assert(plain(server_ids[at]));
    assert(plain(server_ids[index]));
    size_of_plain_quoted(server_ids[index]);
    size_of_plain_quoted(id);
    super::frame::operation_is_covered(operation, id);
}

/// The prepared list of servers that differ is one that clients accept: not empty, and strictly
/// ascending.
pub proof fn prepared_list_is_strictly_ascending(server_ids: Seq<Seq<char>>)
    requires
        registry_fault(server_ids) is None,
        ascending(server_ids),
        server_ids.no_duplicates(),
    ensures
        server_ids.len() > 0,
        strictly_ascending(server_ids),
{
    assert forall|i: int, j: int| 0 <= i < j < server_ids.len() implies text_before(
        #[trigger] server_ids[i],
        #[trigger] server_ids[j],
    ) by {
        let left = vstd::utf8::encode_utf8(server_ids[i]);
        let right = vstd::utf8::encode_utf8(server_ids[j]);
        vstd::utf8::encode_utf8_decode_utf8(server_ids[i]);
        vstd::utf8::encode_utf8_decode_utf8(server_ids[j]);
        assert(left != right);
        byte_order_is_strict(left, right);
        assert(!text_before(server_ids[j], server_ids[i]));
    }
}

/// The longest of several texts is one of them, and none of them is longer.
pub proof fn the_longest_is_one_of_all(items: Seq<Seq<char>>, at: int)
    requires
        0 <= at < items.len(),
    ensures
        items.contains(longest(items)),
        size(items[at]) <= size(longest(items)),
    decreases items.len(),
{
    if items.len() == 1 {
        assert(items[0] == longest(items));
    } else {
        let front = items.drop_last();
        the_longest_is_one_of_all(front, 0);
        assert(items[items.len() - 1] == items.last());
        let place = choose|i: int| 0 <= i < front.len() && front[i] == longest(front);
        assert(items[place] == longest(front));
        if at < items.len() - 1 {
            the_longest_is_one_of_all(front, at);
            assert(front[at] == items[at]);
        }
    }
}

/// Servers are served exactly if there is one, and their list and every answer about the longest
/// identifier fit into a frame.
pub proof fn servers_are_served_if_answers_fit(server_ids: Seq<Seq<char>>)
    ensures
        registry_fault(server_ids) is None <==> server_ids.len() > 0 && fits(
            list_document(server_ids),
        ) && fits(status_document(worst_status(longest(server_ids)))) && fits(
            operation_document(worst_operation(longest(server_ids), "start"@)),
        ) && fits(operation_document(worst_operation(longest(server_ids), "stop"@))) && fits(
            operation_document(worst_operation(longest(server_ids), "restart"@)),
        ),
{
}

/// Texts are in order exactly if none is followed by an earlier one; strictly so if each comes
/// before the next ones.
pub proof fn order_is_of_every_two(items: Seq<Seq<char>>, i: int, j: int)
    requires
        0 <= i < j < items.len(),
    ensures
        ascending(items) ==> !text_before(items[j], items[i]),
        strictly_ascending(items) ==> text_before(items[i], items[j]) && items[i] != items[j],
{
    byte_order_is_strict(
        vstd::utf8::encode_utf8(items[i]),
        vstd::utf8::encode_utf8(items[j]),
    );
}

} // verus!
