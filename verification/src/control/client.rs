//! The client's side of an exchange.

use vstd::prelude::*;

use crate::text::{is_text_before, same_text, text_before};

use super::frame::{document_frame, encode_frame, fits};
use super::registry::strictly_ascending;
use super::wire::{
    is_request_id, request_document, texts, write_request, ClientMutationOperation, Request,
    RequestId, WireErrorCode, WireFailureCategory, WirePhase,
};

verus! {

/// Why a client got no answer that it can use.
#[derive(Debug)]
pub enum ClientError {
    DaemonUnavailable,
    ProtocolMismatch,
    UnknownServerId,
    SubmissionUncertain,
    Operation(String),
}

impl ClientError {
    /// The text of the error, in mathematical form.
    pub open spec fn text(self) -> Seq<char> {
        match self {
            ClientError::DaemonUnavailable => {
                "the MCServerNap daemon is unavailable for the current OS principal"@
            },
            ClientError::ProtocolMismatch => {
                "the client and daemon use incompatible control protocols"@
            },
            ClientError::UnknownServerId => "unknown server ID"@,
            ClientError::SubmissionUncertain => {
                "the mutation outcome could not be validated; submission may or may not have been admitted"@
            },
            ClientError::Operation(message) => message@,
        }
    }

    /// The text of the error.
    pub fn to_string(&self) -> (text: String)
        ensures
            text@ == self.text(),
    {
        match self {
            ClientError::DaemonUnavailable => {
                "the MCServerNap daemon is unavailable for the current OS principal".to_owned()
            },
            ClientError::ProtocolMismatch => {
                "the client and daemon use incompatible control protocols".to_owned()
            },
            ClientError::UnknownServerId => "unknown server ID".to_owned(),
            ClientError::SubmissionUncertain => {
                "the mutation outcome could not be validated; submission may or may not have been admitted".to_owned()
            },
            ClientError::Operation(message) => message.clone(),
        }
    }
}

/// What the daemon answered about a server.
pub struct ReceivedStatus {
    pub server_id: String,
    pub phase: WirePhase,
    pub failure_category: Option<WireFailureCategory>,
    pub failure_streak: u32,
    pub retry_after_ms: Option<u64>,
    pub command_revision: u64,
}

/// What the daemon answered to an admitted request.
pub struct ReceivedOperation {
    pub server_id: String,
    pub operation: ClientMutationOperation,
    pub request_id: String,
    pub command_revision: u64,
    pub disposition: String,
}

/// A successful answer of the daemon.
pub enum SuccessResult {
    List { servers: Vec<String> },
    Status { server: ReceivedStatus },
    Operation(ReceivedOperation),
}

/// What came back from the daemon.
pub enum ReceivedResponse {
    /// No frame that can be read.
    BadFrame,
    /// A frame of another version of the protocol.
    OtherVersion,
    /// A document that is no answer.
    BadDocument,
    Success(SuccessResult),
    Error(WireErrorCode),
}

/// The status of a server.
pub struct ServerStatus {
    server_id: String,
    phase: WirePhase,
    failure_category: Option<WireFailureCategory>,
    failure_streak: u32,
    retry_after_ms: Option<u64>,
    command_revision: u64,
}

/// A [`ServerStatus`] with its identifier as a sequence of characters.
pub struct ServerStatusView {
    pub server_id: Seq<char>,
    pub phase: WirePhase,
    pub failure_category: Option<WireFailureCategory>,
    pub failure_streak: u32,
    pub retry_after_ms: Option<u64>,
    pub command_revision: u64,
}

impl View for ServerStatus {
    type V = ServerStatusView;

    closed spec fn view(&self) -> ServerStatusView {
        ServerStatusView {
            server_id: self.server_id@,
            phase: self.phase,
            failure_category: self.failure_category,
            failure_streak: self.failure_streak,
            retry_after_ms: self.retry_after_ms,
            command_revision: self.command_revision,
        }
    }
}

impl View for ReceivedStatus {
    type V = ServerStatusView;

    open spec fn view(&self) -> ServerStatusView {
        ServerStatusView {
            server_id: self.server_id@,
            phase: self.phase,
            failure_category: self.failure_category,
            failure_streak: self.failure_streak,
            retry_after_ms: self.retry_after_ms,
            command_revision: self.command_revision,
        }
    }
}

impl ServerStatus {
    /// The status that was received.
    pub fn new(received: ReceivedStatus) -> (status: ServerStatus)
        ensures
            status@ == received@,
    {
        ServerStatus {
            server_id: received.server_id,
            phase: received.phase,
            failure_category: received.failure_category,
            failure_streak: received.failure_streak,
            retry_after_ms: received.retry_after_ms,
            command_revision: received.command_revision,
        }
    }

    /// Which server it is about.
    pub fn server_id(&self) -> (id: &str)
        ensures
            id@ == self@.server_id,
    {
        self.server_id.as_str()
    }

    /// The name of its phase.
    pub fn phase(&self) -> (name: &'static str)
        ensures
            name@ == self@.phase.name(),
    {
        self.phase.as_str()
    }

    /// The name of its last failure, if it failed.
    pub fn failure_category(&self) -> (name: Option<&'static str>)
        ensures
            name is Some <==> self@.failure_category is Some,
            name matches Some(text) ==> text@ == (self@.failure_category->0).name(),
    {
        match self.failure_category {
            Some(category) => Some(category.as_str()),
            None => None,
        }
    }

    /// How often it failed in a row.
    pub fn failure_streak(&self) -> (streak: u32)
        ensures
            streak == self@.failure_streak,
    {
        self.failure_streak
    }

    /// In how many milliseconds it may be started again.
    pub fn retry_after_ms(&self) -> (milliseconds: Option<u64>)
        ensures
            milliseconds == self@.retry_after_ms,
    {
        self.retry_after_ms
    }

    /// The revision of its commands.
    pub fn command_revision(&self) -> (revision: u64)
        ensures
            revision == self@.command_revision,
    {
        self.command_revision
    }
}

/// The answer to an admitted request.
pub struct OperationStatus {
    server_id: String,
    operation: ClientMutationOperation,
    request_id: String,
    command_revision: u64,
    disposition: String,
}

/// An [`OperationStatus`] with its texts as sequences of characters.
pub struct OperationStatusView {
    pub server_id: Seq<char>,
    pub operation: ClientMutationOperation,
    pub request_id: Seq<char>,
    pub command_revision: u64,
    pub disposition: Seq<char>,
}

impl View for OperationStatus {
    type V = OperationStatusView;

    closed spec fn view(&self) -> OperationStatusView {
        OperationStatusView {
            server_id: self.server_id@,
            operation: self.operation,
            request_id: self.request_id@,
            command_revision: self.command_revision,
            disposition: self.disposition@,
        }
    }
}

impl View for ReceivedOperation {
    type V = OperationStatusView;

    open spec fn view(&self) -> OperationStatusView {
        OperationStatusView {
            server_id: self.server_id@,
            operation: self.operation,
            request_id: self.request_id@,
            command_revision: self.command_revision,
            disposition: self.disposition@,
        }
    }
}

impl OperationStatus {
    /// Which server it is about.
    pub fn server_id(&self) -> (id: &str)
        ensures
            id@ == self@.server_id,
    {
        self.server_id.as_str()
    }

    /// The name of the operation.
    pub fn operation(&self) -> (name: &str)
        ensures
            name@ == self@.operation.name(),
    {
        self.operation.as_str()
    }

    /// Which request it answers.
    pub fn request_id(&self) -> (id: &str)
        ensures
            id@ == self@.request_id,
    {
        self.request_id.as_str()
    }

    /// The revision that the request got.
    pub fn command_revision(&self) -> (revision: u64)
        ensures
            revision == self@.command_revision,
    {
        self.command_revision
    }

    /// How the request was met.
    pub fn disposition(&self) -> (disposition: &str)
        ensures
            disposition@ == self@.disposition,
    {
        self.disposition.as_str()
    }
}

/// The order of neighbours is the order of all.
proof fn lemma_neighbours_ascend(items: Seq<Seq<char>>, i: int, j: int)
    requires
        0 <= i < j < items.len(),
        forall|k: int|
            0 <= k < items.len() - 1 ==> text_before(#[trigger] items[k], items[k + 1]),
    ensures
        text_before(items[i], items[j]),
    decreases j - i,
{
    assert(text_before(items[j - 1], items[j - 1 + 1]));
    if i < j - 1 {
        lemma_neighbours_ascend(items, i, j - 1);
        crate::text::byte_order_is_transitive(
            vstd::utf8::encode_utf8(items[i]),
            vstd::utf8::encode_utf8(items[j - 1]),
            vstd::utf8::encode_utf8(items[j]),
        );
    }
}

/// Checks a list of servers: a daemon always sends one that is not empty and strictly
/// ascending.
pub fn validate_server_list(servers: Vec<String>) -> (result: Result<Vec<String>, ClientError>)
    ensures
        result is Ok <==> servers@.len() > 0 && strictly_ascending(texts(servers@)),
        result matches Ok(accepted) ==> accepted == servers,
        result matches Err(error) ==> error == ClientError::DaemonUnavailable,
{
    if servers.len() == 0 {
        return Err(ClientError::DaemonUnavailable);
    }
    let mut i: usize = 0;
    while i < servers.len() - 1
        invariant
            servers.len() > 0,
            i <= servers.len() - 1,
            forall|k: int|
                0 <= k < i ==> text_before(#[trigger] texts(servers@)[k], texts(servers@)[k + 1]),
        decreases servers.len() - i,
    {
        if !is_text_before(servers[i].as_str(), servers[i + 1].as_str()) {
            assert(!text_before(texts(servers@)[i as int], texts(servers@)[i + 1]));
            return Err(ClientError::DaemonUnavailable);
        }
        i += 1;
    }
    assert(strictly_ascending(texts(servers@))) by {
        assert forall|a: int, b: int| 0 <= a < b < texts(servers@).len() implies text_before(
            #[trigger] texts(servers@)[a],
            #[trigger] texts(servers@)[b],
        ) by {
            lemma_neighbours_ascend(texts(servers@), a, b);
        }
    }
    Ok(servers)
}

/// Takes the answer to a request for the list of servers.
pub fn list(result: SuccessResult) -> (servers: Result<Vec<String>, ClientError>)
    ensures
        match result {
            SuccessResult::List { servers: listed } => {
                &&& servers is Ok <==> listed@.len() > 0 && strictly_ascending(texts(listed@))
                &&& servers matches Ok(accepted) ==> accepted == listed
            },
            _ => servers is Err,
        },
        servers matches Err(error) ==> error == ClientError::DaemonUnavailable,
{
    match result {
        SuccessResult::List { servers } => validate_server_list(servers),
        SuccessResult::Status { .. } | SuccessResult::Operation(_) => Err(
            ClientError::DaemonUnavailable,
        ),
    }
}

/// Takes the answer to a request for the status of a server. An answer about another server is
/// none.
pub fn status(result: SuccessResult, expected_server_id: &str) -> (status: Result<
    ServerStatus,
    ClientError,
>)
    ensures
        match result {
            SuccessResult::Status { server } => {
                &&& status is Ok <==> server.server_id@ == expected_server_id@
                &&& status matches Ok(accepted) ==> accepted@ == server@
            },
            _ => status is Err,
        },
        status matches Err(error) ==> error == ClientError::DaemonUnavailable,
{
    match result {
        SuccessResult::Status { server } => {
            if same_text(server.server_id.as_str(), expected_server_id) {
                Ok(ServerStatus::new(server))
            } else {
                Err(ClientError::DaemonUnavailable)
            }
        },
        SuccessResult::List { .. } | SuccessResult::Operation(_) => Err(
            ClientError::DaemonUnavailable,
        ),
    }
}

/// That an answer is the one that was asked for: same server, same request, same operation, the
/// next revision, and a disposition that the operation can have.
pub open spec fn answers(
    operation: OperationStatusView,
    server_id: Seq<char>,
    request_id: Seq<char>,
    expected: ClientMutationOperation,
    revision: Option<u64>,
) -> bool {
    &&& operation.server_id == server_id
    &&& operation.request_id == request_id
    &&& operation.operation == expected
    &&& revision == Some(operation.command_revision)
    &&& expected.allows_disposition(operation.disposition)
}

/// Checks the answer to a request for a change.
pub fn validate_mutation_success(
    operation: ReceivedOperation,
    expected_server_id: &str,
    expected_request_id: &str,
    expected_operation: ClientMutationOperation,
    expected_result_revision: Option<u64>,
) -> (result: Result<OperationStatus, ClientError>)
    ensures
        result is Ok <==> answers(
            operation@,
            expected_server_id@,
            expected_request_id@,
            expected_operation,
            expected_result_revision,
        ),
        result matches Ok(status) ==> status@ == operation@,
        result matches Err(error) ==> error == ClientError::SubmissionUncertain,
{
    let revision_matches = match expected_result_revision {
        Some(revision) => revision == operation.command_revision,
        None => false,
    };
    if !same_text(operation.server_id.as_str(), expected_server_id) || !same_text(
        operation.request_id.as_str(),
        expected_request_id,
    ) || operation.operation != expected_operation || !revision_matches
        || !expected_operation.accepts_disposition(operation.disposition.as_str()) {
        return Err(ClientError::SubmissionUncertain);
    }
    Ok(
        OperationStatus {
            server_id: operation.server_id,
            operation: operation.operation,
            request_id: operation.request_id,
            command_revision: operation.command_revision,
            disposition: operation.disposition,
        },
    )
}

/// The error that a refusal means to a client.
pub open spec fn refusal_text(code: WireErrorCode) -> Option<Seq<char>> {
    match code {
        WireErrorCode::UnknownServerId
        | WireErrorCode::UnsupportedProtocolVersion
        | WireErrorCode::MalformedRequest => None,
        WireErrorCode::InternalFailure => Some("daemon internal failure"@),
        other => Some(other.meaning()),
    }
}

/// That an error is the one that a refusal means.
pub open spec fn refused_with(code: WireErrorCode, error: ClientError) -> bool {
    match code {
        WireErrorCode::UnknownServerId => error == ClientError::UnknownServerId,
        WireErrorCode::UnsupportedProtocolVersion => error == ClientError::ProtocolMismatch,
        WireErrorCode::MalformedRequest => error == ClientError::DaemonUnavailable,
        _ => error matches ClientError::Operation(text) && Some(text@) == refusal_text(code),
    }
}

/// Takes what came back from the daemon.
pub fn client_exchange(response: ReceivedResponse) -> (result: Result<SuccessResult, ClientError>)
    ensures
        match response {
            ReceivedResponse::Success(success) => result == Ok::<SuccessResult, ClientError>(
                success,
            ),
            ReceivedResponse::BadFrame | ReceivedResponse::BadDocument => result == Err::<
                SuccessResult,
                ClientError,
            >(ClientError::DaemonUnavailable),
            ReceivedResponse::OtherVersion => result == Err::<SuccessResult, ClientError>(
                ClientError::ProtocolMismatch,
            ),
            ReceivedResponse::Error(code) => result matches Err(error) && refused_with(code, error),
        },
{
    match response {
        ReceivedResponse::Success(success) => Ok(success),
        ReceivedResponse::BadFrame | ReceivedResponse::BadDocument => Err(
            ClientError::DaemonUnavailable,
        ),
        ReceivedResponse::OtherVersion => Err(ClientError::ProtocolMismatch),
        ReceivedResponse::Error(code) => match code {
            WireErrorCode::UnknownServerId => Err(ClientError::UnknownServerId),
            WireErrorCode::UnsupportedProtocolVersion => Err(ClientError::ProtocolMismatch),
            WireErrorCode::MalformedRequest => Err(ClientError::DaemonUnavailable),
            WireErrorCode::InternalFailure => Err(
                ClientError::Operation("daemon internal failure".to_owned()),
            ),
            other => Err(ClientError::Operation(other.message().to_owned())),
        },
    }
}

/// The error of an exchange that may have submitted a change: when the daemon is lost on the
/// way, nobody knows whether it took the request.
pub fn mutation_exchange_error(error: ClientError) -> (mapped: ClientError)
    ensures
        mapped == (if error == ClientError::DaemonUnavailable {
            ClientError::SubmissionUncertain
        } else {
            error
        }),
{
    match error {
        ClientError::DaemonUnavailable => ClientError::SubmissionUncertain,
        other => other,
    }
}

/// Takes the result of an exchange that submitted a change.
pub fn mutate(
    result: Result<SuccessResult, ClientError>,
    expected_server_id: &str,
    expected_request_id: &str,
    expected_operation: ClientMutationOperation,
    expected_result_revision: Option<u64>,
) -> (status: Result<OperationStatus, ClientError>)
    ensures
        match result {
            Ok(SuccessResult::Operation(operation)) => {
                &&& status is Ok <==> answers(
                    operation@,
                    expected_server_id@,
                    expected_request_id@,
                    expected_operation,
                    expected_result_revision,
                )
                &&& status matches Ok(accepted) ==> accepted@ == operation@
                &&& status matches Err(error) ==> error == ClientError::SubmissionUncertain
            },
            Ok(_) => status matches Err(error) && error == ClientError::SubmissionUncertain,
            Err(error) => status matches Err(mapped) && mapped == (if error
                == ClientError::DaemonUnavailable {
                ClientError::SubmissionUncertain
            } else {
                error
            }),
        },
{
    match result {
        Ok(SuccessResult::Operation(operation)) => validate_mutation_success(
            operation,
            expected_server_id,
            expected_request_id,
            expected_operation,
            expected_result_revision,
        ),
        Ok(_) => Err(ClientError::SubmissionUncertain),
        Err(error) => Err(mutation_exchange_error(error)),
    }
}

/// A request for a change that is ready to be sent.
pub struct Submission {
    pub frame: Vec<u8>,
    pub server_id: String,
    pub request_id: String,
    pub operation: ClientMutationOperation,
    pub result_revision: Option<u64>,
}

/// The document of a request for a change.
pub open spec fn submission_document(
    operation: ClientMutationOperation,
    server_id: Seq<char>,
    request_id: Seq<char>,
    revision: u64,
) -> Seq<char> {
    super::wire::mutation_document(operation.name(), server_id, request_id, revision)
}

/// The revision that an admitted request gets, if there is one.
pub open spec fn next_revision(revision: u64) -> Option<u64> {
    if revision == u64::MAX {
        None
    } else {
        Some((revision + 1) as u64)
    }
}

/// Prepares a request for a change. Nothing is sent if the request is invalid or too long.
pub fn submit(
    operation: ClientMutationOperation,
    server_id: String,
    request_id: String,
    expected_command_revision: u64,
) -> (result: Result<Submission, ClientError>)
    ensures
        ({
            let document = submission_document(
                operation,
                server_id@,
                request_id@,
                expected_command_revision,
            );
            match result {
                Ok(submission) => {
                    &&& is_request_id(request_id@)
                    &&& fits(document)
                    &&& submission.frame@ == document_frame(document)
                    &&& submission.server_id@ == server_id@
                    &&& submission.request_id@ == request_id@
                    &&& submission.operation == operation
                    &&& submission.result_revision == next_revision(expected_command_revision)
                },
                Err(error) => {
                    &&& !is_request_id(request_id@) || !fits(document)
                    &&& error matches ClientError::Operation(text) && text@ == (if is_request_id(
                        request_id@,
                    ) {
                        "failed to encode bounded JSON"@
                    } else {
                        "invalid request ID"@
                    })
                },
            }
        }),
{
    let request_id = match RequestId::new(request_id) {
        Some(id) => id,
        None => {
            return Err(ClientError::Operation("invalid request ID".to_owned()));
        },
    };
    let request = operation.request(
        server_id.clone(),
        request_id.clone(),
        expected_command_revision,
    );
    let document = write_request(&request);
    match encode_frame(document.as_str()) {
        Ok(frame) => Ok(
            Submission {
                frame,
                server_id,
                request_id: request_id.into_string(),
                operation,
                result_revision: expected_command_revision.checked_add(1),
            },
        ),
        Err(limit) => Err(ClientError::Operation(limit.message().to_owned())),
    }
}

/// The frame of a request for the list of servers or for the status of one.
pub fn read_only_frame(request: &Request) -> (result: Result<Vec<u8>, ClientError>)
    ensures
        match result {
            Ok(bytes) => fits(request_document(*request)) && bytes@ == document_frame(
                request_document(*request),
            ),
            Err(error) => !fits(request_document(*request)) && (error matches
                ClientError::Operation(text) && text@ == "failed to encode bounded JSON"@),
        },
{
    let document = write_request(request);
    match encode_frame(document.as_str()) {
        Ok(bytes) => Ok(bytes),
        Err(limit) => Err(ClientError::Operation(limit.message().to_owned())),
    }
}

/// A change is never reported as done on anything less than the exact answer: if the daemon is
/// lost or answers something else, the outcome is uncertain.
pub proof fn lost_submissions_stay_uncertain(
    operation: OperationStatusView,
    server_id: Seq<char>,
    request_id: Seq<char>,
    expected: ClientMutationOperation,
    revision: u64,
)
    requires
        answers(operation, server_id, request_id, expected, next_revision(revision)),
    ensures
        operation.command_revision == revision + 1,
        operation.operation == expected,
        operation.server_id == server_id,
        operation.request_id == request_id,
{
}

/// What was received is seen as it came.
pub proof fn answers_are_seen_as_they_came(
    status: ReceivedStatus,
    operation: ReceivedOperation,
)
    ensures
        status@.server_id == status.server_id@,
        status@.phase == status.phase,
        status@.failure_category == status.failure_category,
        status@.failure_streak == status.failure_streak,
        status@.retry_after_ms == status.retry_after_ms,
        status@.command_revision == status.command_revision,
        operation@.server_id == operation.server_id@,
        operation@.operation == operation.operation,
        operation@.request_id == operation.request_id@,
        operation@.command_revision == operation.command_revision,
        operation@.disposition == operation.disposition@,
{
}

/// An answer to a submission is believed exactly if it speaks of this server, this request, this
/// change and the revision that follows the expected one, and says that the change was accepted
/// or, unless it is a restart, was already so.
pub proof fn only_fitting_answers_are_believed(
    operation: OperationStatusView,
    server_id: Seq<char>,
    request_id: Seq<char>,
    expected: ClientMutationOperation,
    revision: u64,
)
    ensures
        answers(operation, server_id, request_id, expected, next_revision(revision))
            <==> operation.server_id == server_id && operation.request_id == request_id
            && operation.operation == expected && operation.command_revision == revision + 1 && (
        operation.disposition == "accepted"@ || (operation.disposition == "already_satisfied"@
            && expected != ClientMutationOperation::Restart)),
{
}

/// What a client is told of a refusal goes by its code: an unknown server, another version and a
/// broken request by what they are, anything else in words.
pub proof fn refusals_are_told_apart(code: WireErrorCode, error: ClientError)
    requires
        refused_with(code, error),
    ensures
        error == ClientError::UnknownServerId <==> code == WireErrorCode::UnknownServerId,
        error == ClientError::ProtocolMismatch <==> code
            == WireErrorCode::UnsupportedProtocolVersion,
        error == ClientError::DaemonUnavailable <==> code == WireErrorCode::MalformedRequest,
        error != ClientError::SubmissionUncertain,
        code == WireErrorCode::OperationRejected ==> error.text() == "operation rejected"@,
        code == WireErrorCode::ExternalBackendNotOwned ==> error.text()
            == "external backend is not owned"@,
        code == WireErrorCode::ConflictingBackendEvidence ==> error.text()
            == "backend evidence conflicts"@,
        code == WireErrorCode::OperationInProgress ==> error.text() == "operation in progress"@,
        code == WireErrorCode::StaleCommandRevision ==> error.text()
            == "command revision is stale"@,
        code == WireErrorCode::RequestIdConflict ==> error.text() == "request ID conflicts"@,
        code == WireErrorCode::CommandQueueFull ==> error.text() == "command queue is full"@,
        code == WireErrorCode::UnsupportedOperation ==> error.text() == "unsupported operation"@,
        code == WireErrorCode::InternalFailure ==> error.text() == "daemon internal failure"@,
        code == WireErrorCode::UnknownServerId ==> error.text() == "unknown server ID"@,
        code == WireErrorCode::UnsupportedProtocolVersion ==> error.text()
            == "the client and daemon use incompatible control protocols"@,
        code == WireErrorCode::MalformedRequest ==> error.text()
            == "the MCServerNap daemon is unavailable for the current OS principal"@,
{
}

} // verus!
