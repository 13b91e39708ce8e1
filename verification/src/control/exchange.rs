//! The daemon's side of an exchange.

use vstd::prelude::*;

use crate::supervisor::admission::{
    AdmissionGate, MutationError, MutationOperation, MutationReply, MutationSuccess, SuccessView,
};
use crate::supervisor::lifecycle::{LifecycleStatusSnapshot, Nanos};

use crate::text::{in_context, with_context};

use super::frame::{
    document_frame, encode_frame, errors_fit, fits, FrameLimitExceeded,
};
use super::wire::{
    error_document, mutation_code, operation_document, status_document, wire_failure, wire_phase,
    write_error, write_operation, write_status, OperationFields, Request, StatusFields,
    WireErrorCode, WireFailureCategory, WirePhase,
};

verus! {

/// Nanoseconds in one millisecond.
pub const MILLISECOND: Nanos = 1_000_000;

/// The frame of a refusal.
pub fn constant_error_frame(code: WireErrorCode) -> (bytes: Vec<u8>)
    ensures
        bytes@ == document_frame(error_document(code)),
{
    let document = write_error(code);
    proof {
        errors_fit(code);
    }
    match encode_frame(document.as_str()) {
        Ok(bytes) => bytes,
        Err(_) => Vec::new(),
    }
}

/// The frame of a refusal by the supervisor.
pub fn mutation_error_frame(error: MutationError) -> (bytes: Vec<u8>)
    ensures
        bytes@ == document_frame(error_document(mutation_code(error))),
{
    constant_error_frame(
        match error {
            MutationError::OperationRejected => WireErrorCode::OperationRejected,
            MutationError::ExternalBackendNotOwned => WireErrorCode::ExternalBackendNotOwned,
            MutationError::ConflictingBackendEvidence => {
                WireErrorCode::ConflictingBackendEvidence
            },
            MutationError::OperationInProgress => WireErrorCode::OperationInProgress,
            MutationError::StaleCommandRevision => WireErrorCode::StaleCommandRevision,
            MutationError::RequestIdConflict => WireErrorCode::RequestIdConflict,
            MutationError::InternalFailure => WireErrorCode::InternalFailure,
        },
    )
}

/// What the answer to an admitted request says.
pub open spec fn operation_fields(success: SuccessView) -> OperationFields {
    OperationFields {
        server_id: success.server_id,
        operation: success.operation.name(),
        request_id: success.request_id,
        command_revision: success.command_revision,
        disposition: success.disposition.name(),
    }
}

/// The frame of the answer to an admitted request.
pub fn operation_frame(success: &MutationSuccess) -> (result: Result<Vec<u8>, FrameLimitExceeded>)
    ensures
        result is Ok <==> fits(operation_document(operation_fields(success@))),
        result matches Ok(bytes) ==> bytes@ == document_frame(
            operation_document(operation_fields(success@)),
        ),
{
    let document = write_operation(
        success.server_id.as_str(),
        success.operation.as_str(),
        success.request_id.as_str(),
        success.command_revision,
        success.disposition.as_str(),
    );
    encode_frame(document.as_str())
}

/// The time until `retry_at` in milliseconds, rounded up.
pub open spec fn milliseconds_until(retry_at: Nanos, now: Nanos) -> int {
    if retry_at <= now {
        0
    } else {
        (retry_at - now + MILLISECOND - 1) / (MILLISECOND as int)
    }
}

/// The time until `retry_at` in milliseconds, rounded up.
pub fn retry_milliseconds(retry_at: Nanos, now: Nanos) -> (milliseconds: u64)
    requires
        milliseconds_until(retry_at, now) <= u64::MAX,
    ensures
        milliseconds == milliseconds_until(retry_at, now),
{
    if retry_at <= now {
        return 0;
    }
    let remaining: Nanos = retry_at - now;
    let whole: Nanos = remaining / MILLISECOND;
    if remaining % MILLISECOND == 0 {
        whole as u64
    } else {
        (whole + 1) as u64
    }
}

/// That the time until a retry can be told in the answer.
pub open spec fn retry_can_be_told(snapshot: LifecycleStatusSnapshot, now: Nanos) -> bool {
    snapshot.retry_at matches Some(retry_at) ==> milliseconds_until(retry_at, now) <= u64::MAX
}

/// What the answer to a request for the status of a server says.
pub open spec fn snapshot_fields(
    server_id: Seq<char>,
    snapshot: LifecycleStatusSnapshot,
    now: Nanos,
) -> StatusFields {
    StatusFields {
        server_id,
        phase: wire_phase(snapshot.phase),
        failure_category: match snapshot.failure {
            Some(failure) => Some(wire_failure(failure)),
            None => None,
        },
        failure_streak: snapshot.failure_streak,
        retry_after_ms: match snapshot.retry_at {
            Some(retry_at) => Some(milliseconds_until(retry_at, now) as u64),
            None => None,
        },
        command_revision: snapshot.command_revision,
    }
}

/// The frame of the answer to a request for the status of a server.
pub fn status_frame(server_id: &str, snapshot: LifecycleStatusSnapshot, now: Nanos) -> (result:
    Result<Vec<u8>, FrameLimitExceeded>)
    requires
        retry_can_be_told(snapshot, now),
    ensures
        result is Ok <==> fits(status_document(snapshot_fields(server_id@, snapshot, now))),
        result matches Ok(bytes) ==> bytes@ == document_frame(
            status_document(snapshot_fields(server_id@, snapshot, now)),
        ),
{
    let failure_category = match snapshot.failure {
        Some(failure) => Some(WireFailureCategory::from(failure)),
        None => None,
    };
    let retry_after_ms = match snapshot.retry_at {
        Some(retry_at) => Some(retry_milliseconds(retry_at, now)),
        None => None,
    };
    let document = write_status(
        server_id,
        WirePhase::from(snapshot.phase),
        failure_category,
        snapshot.failure_streak,
        retry_after_ms,
        snapshot.command_revision,
    );
    encode_frame(document.as_str())
}

/// A request as it came in.
pub enum ReceivedRequest {
    /// The frame could not be read.
    BadFrame,
    /// The frame is of another version of the protocol.
    OtherVersion,
    /// The document is no request.
    BadDocument,
    Request(Request),
}

/// What to do with a request.
pub enum ExchangeStep {
    /// Answer with a refusal.
    Refuse(WireErrorCode),
    /// Answer with the list of servers.
    List,
    /// Answer with the status of a server.
    Status { server_id: String },
    /// Pass the request on to the supervisor of a server.
    Mutate {
        server_id: String,
        request_id: String,
        expected_command_revision: u64,
        operation: MutationOperation,
    },
}

/// That a step passes on this change.
pub open spec fn passes_on(
    step: ExchangeStep,
    server: Seq<char>,
    request: Seq<char>,
    revision: u64,
    wanted: MutationOperation,
) -> bool {
    step matches ExchangeStep::Mutate {
        server_id,
        request_id,
        expected_command_revision,
        operation,
    } && server_id@ == server && request_id@ == request && expected_command_revision == revision
        && operation == wanted
}

/// What to do with a request.
pub fn serve_exchange(received: ReceivedRequest) -> (step: ExchangeStep)
    ensures
        match received {
            ReceivedRequest::BadFrame | ReceivedRequest::BadDocument => step
                == ExchangeStep::Refuse(WireErrorCode::MalformedRequest),
            ReceivedRequest::OtherVersion => step == ExchangeStep::Refuse(
                WireErrorCode::UnsupportedProtocolVersion,
            ),
            ReceivedRequest::Request(Request::List) => step == ExchangeStep::List,
            ReceivedRequest::Request(Request::Status { server_id }) => step
                == (ExchangeStep::Status { server_id }),
            ReceivedRequest::Request(
                Request::Start { server_id, request_id, expected_command_revision },
            ) => passes_on(
                step,
                server_id@,
                request_id@,
                expected_command_revision,
                MutationOperation::Start,
            ),
            ReceivedRequest::Request(
                Request::Stop { server_id, request_id, expected_command_revision },
            ) => passes_on(
                step,
                server_id@,
                request_id@,
                expected_command_revision,
                MutationOperation::Stop,
            ),
            ReceivedRequest::Request(
                Request::Restart { server_id, request_id, expected_command_revision },
            ) => passes_on(
                step,
                server_id@,
                request_id@,
                expected_command_revision,
                MutationOperation::Restart,
            ),
        },
{
    match received {
        ReceivedRequest::BadFrame | ReceivedRequest::BadDocument => ExchangeStep::Refuse(
            WireErrorCode::MalformedRequest,
        ),
        ReceivedRequest::OtherVersion => ExchangeStep::Refuse(
            WireErrorCode::UnsupportedProtocolVersion,
        ),
        ReceivedRequest::Request(request) => match request {
            Request::List => ExchangeStep::List,
            Request::Status { server_id } => ExchangeStep::Status { server_id },
            Request::Start { server_id, request_id, expected_command_revision } => {
                ExchangeStep::Mutate {
                    server_id,
                    request_id: request_id.into_string(),
                    expected_command_revision,
                    operation: MutationOperation::Start,
                }
            },
            Request::Stop { server_id, request_id, expected_command_revision } => {
                ExchangeStep::Mutate {
                    server_id,
                    request_id: request_id.into_string(),
                    expected_command_revision,
                    operation: MutationOperation::Stop,
                }
            },
            Request::Restart { server_id, request_id, expected_command_revision } => {
                ExchangeStep::Mutate {
                    server_id,
                    request_id: request_id.into_string(),
                    expected_command_revision,
                    operation: MutationOperation::Restart,
                }
            },
        },
    }
}

/// How finding a place in a supervisor's mailbox went.
#[derive(Clone, Copy, Debug, PartialEq, Eq, Structural)]
pub enum MailboxPlace {
    UnknownServer,
    Full,
    Closed,
    Reserved,
}

/// The refusal for a request that cannot be passed on, if it cannot.
pub fn serve_mutation(place: MailboxPlace) -> (refusal: Option<WireErrorCode>)
    ensures
        refusal == (match place {
            MailboxPlace::UnknownServer => Some(WireErrorCode::UnknownServerId),
            MailboxPlace::Full => Some(WireErrorCode::CommandQueueFull),
            MailboxPlace::Closed => Some(WireErrorCode::InternalFailure),
            MailboxPlace::Reserved => None,
        }),
{
    match place {
        MailboxPlace::UnknownServer => Some(WireErrorCode::UnknownServerId),
        MailboxPlace::Full => Some(WireErrorCode::CommandQueueFull),
        MailboxPlace::Closed => Some(WireErrorCode::InternalFailure),
        MailboxPlace::Reserved => None,
    }
}

/// The frame of the supervisor's answer.
pub fn reply_frame(reply: &MutationReply) -> (result: Result<Vec<u8>, FrameLimitExceeded>)
    ensures
        match *reply {
            Ok(success) => {
                let document = operation_document(operation_fields(success@));
                &&& result is Ok <==> fits(document)
                &&& result matches Ok(bytes) ==> bytes@ == document_frame(document)
            },
            Err(error) => result matches Ok(bytes) && bytes@ == document_frame(
                error_document(mutation_code(error)),
            ),
        },
{
    match reply {
        Ok(success) => operation_frame(success),
        Err(error) => Ok(mutation_error_frame(*error)),
    }
}

/// Withdraws a request when the exchange ends before the supervisor has answered.
#[derive(Clone, Copy, Debug, PartialEq, Eq, Structural)]
pub struct AdmissionCancellation {
    pub active: bool,
}

impl AdmissionCancellation {
    /// The request is under way.
    pub fn armed() -> (cancellation: AdmissionCancellation)
        ensures
            cancellation.active,
    {
        AdmissionCancellation { active: true }
    }

    /// The supervisor has answered.
    pub fn disarm(&mut self)
        ensures
            !final(self).active,
    {
        self.active = false;
    }

    /// The exchange is over. Says whether the request was withdrawn.
    pub fn finish(&self, gate: &mut AdmissionGate) -> (withdrawn: bool)
        ensures
            withdrawn == (self.active && *old(gate) == AdmissionGate::Pending),
            *final(gate) == (if withdrawn {
                AdmissionGate::Cancelled
            } else {
                *old(gate)
            }),
    {
        if self.active {
            gate.cancel()
        } else {
            false
        }
    }
}

/// The failures of the control endpoint at its end.
pub struct ControlFailures {
    pub primary: Result<(), String>,
    /// Failures that are only reported.
    pub secondary: Vec<String>,
}

/// The failures among results and panics, in their order.
pub open spec fn failures_in_order(
    accept_result: Result<(), String>,
    endpoint_result: Result<(), String>,
    client_panics: Seq<String>,
) -> Seq<String> {
    let first = match accept_result {
        Err(error) => seq![error],
        Ok(_) => Seq::empty(),
    };
    let second = match endpoint_result {
        Err(error) => seq![error],
        Ok(_) => Seq::empty(),
    };
    first + second + client_panics
}

/// Combines how accepting, cleaning up and the clients ended: the first failure counts, the
/// others are reported.
pub fn combine_control_results(
    accept_result: Result<(), String>,
    endpoint_result: Result<(), String>,
    client_panics: Vec<String>,
) -> (failures: ControlFailures)
    ensures
        ({
            let all = failures_in_order(accept_result, endpoint_result, client_panics@);
            if all.len() == 0 {
                failures.primary == Ok::<(), String>(()) && failures.secondary@.len() == 0
            } else {
                failures.primary == Err::<(), String>(all[0]) && failures.secondary@ == all.skip(1)
            }
        }),
{
    let ghost all = failures_in_order(accept_result, endpoint_result, client_panics@);
    let mut errors: Vec<String> = Vec::new();
    if let Err(error) = accept_result {
        errors.push(error);
    }
    if let Err(error) = endpoint_result {
        errors.push(error);
    }
    let mut client_panics = client_panics;
    errors.append(&mut client_panics);
    assert(errors@ =~= all);
    if errors.len() == 0 {
        return ControlFailures { primary: Ok(()), secondary: errors };
    }
    let first = errors.remove(0);
    assert(errors@ =~= all.skip(1));
    ControlFailures { primary: Err(first), secondary: errors }
}

/// What can happen to the control endpoint, the most urgent first.
pub enum ControlEvent {
    Shutdown,
    /// Serving a client ended; a text says that it did not end by itself.
    ClientEnded(Option<String>),
    AcceptFailed(String),
    /// A client was accepted; it is served if there is room for it.
    Accepted { room: bool },
}

/// What the control endpoint does next.
pub enum ControlStep {
    Continue,
    Serve,
    /// Hang up: too many clients are being served.
    Reject,
    /// Accept no more clients, for this reason.
    Stop(Result<(), String>),
}

/// What the control endpoint does next.
pub fn control_step(event: ControlEvent) -> (step: ControlStep)
    ensures
        match event {
            ControlEvent::Shutdown => step matches ControlStep::Stop(result) && result is Ok,
            ControlEvent::ClientEnded(None) => step is Continue,
            ControlEvent::ClientEnded(Some(error)) => step matches ControlStep::Stop(Err(text))
                && text@ == in_context("control-client task panicked"@, error@),
            ControlEvent::AcceptFailed(error) => step matches ControlStep::Stop(Err(text)) && text@
                == in_context("control endpoint accept failed"@, error@),
            ControlEvent::Accepted { room } => if room {
                step is Serve
            } else {
                step is Reject
            },
        },
{
    match event {
        ControlEvent::Shutdown => ControlStep::Stop(Ok(())),
        ControlEvent::ClientEnded(None) => ControlStep::Continue,
        ControlEvent::ClientEnded(Some(error)) => ControlStep::Stop(
            Err(with_context("control-client task panicked", error.as_str())),
        ),
        ControlEvent::AcceptFailed(error) => ControlStep::Stop(
            Err(with_context("control endpoint accept failed", error.as_str())),
        ),
        ControlEvent::Accepted { room } => {
            if room {
                ControlStep::Serve
            } else {
                ControlStep::Reject
            }
        },
    }
}

/// The milliseconds until a moment are the fewest that reach it; none are left once it has come.
pub proof fn milliseconds_reach_the_moment(retry_at: Nanos, now: Nanos)
    ensures
        retry_at <= now ==> milliseconds_until(retry_at, now) == 0,
        retry_at > now ==> now + milliseconds_until(retry_at, now) * 1_000_000 >= retry_at && now
            + (milliseconds_until(retry_at, now) - 1) * 1_000_000 < retry_at,
{
}

/// A change is passed on with its own server, request, revision and kind.
pub proof fn changes_are_passed_on_whole(
    step: ExchangeStep,
    server: Seq<char>,
    request: Seq<char>,
    revision: u64,
    wanted: MutationOperation,
)
    ensures
        passes_on(step, server, request, revision, wanted) <==> step is Mutate
            && (step->Mutate_server_id)@ == server && (step->Mutate_request_id)@ == request
            && step->Mutate_expected_command_revision == revision && step->Mutate_operation
            == wanted,
{
}

/// The failures of a control loop come in order: that of accepting, that of the endpoint, then
/// those of the clients.
pub proof fn control_failures_come_in_order(
    accept: Result<(), String>,
    endpoint: Result<(), String>,
    panics: Seq<String>,
)
    ensures
        ({
            let all = failures_in_order(accept, endpoint, panics);
            &&& accept matches Err(error) ==> all.len() > 0 && all[0] == error
            &&& accept is Ok ==> (endpoint matches Err(error) ==> all.len() > 0 && all[0] == error)
            &&& accept is Err ==> (endpoint matches Err(error) ==> all.len() > 1 && all[1]
                == error)
            &&& accept is Ok && endpoint is Ok ==> all == panics
            &&& all.len() == panics.len() + (if accept is Err {
                1int
            } else {
                0
            }) + (if endpoint is Err {
                1int
            } else {
                0
            })
            &&& all.skip(all.len() - panics.len()) == panics
        }),
{
    let all = failures_in_order(accept, endpoint, panics);
    assert(all.skip(all.len() - panics.len()) =~= panics);
    if accept is Ok && endpoint is Ok {
        assert(all =~= panics);
    }
}

} // verus!
