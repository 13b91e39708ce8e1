//! The words of the control protocol, and its documents.

use vstd::prelude::*;
use vstd::string::StringExecFns;

use crate::json::{array, object, quoted, text_array, Member, ObjectWriter};
use crate::supervisor::admission::MutationError;
use crate::supervisor::lifecycle::{FailureCategory, ServerPhase};
use crate::text::{characters, decimal, same_text};

verus! {

/// The version of the protocol.
pub const PROTOCOL_VERSION: u16 = 2;

/// The longest payload of a frame: version and document.
pub const MAX_PAYLOAD_LENGTH: u32 = 65_536;

/// How many exchanges go on at once.
pub const MAX_CONTROL_EXCHANGES: usize = 32;

/// How long an exchange may take, in seconds.
pub const EXCHANGE_TIMEOUT_SECONDS: u64 = 5;

/// That a character is a hexadecimal digit in lower case.
pub open spec fn is_lower_hex(c: char) -> bool {
    '0' <= c <= '9' || 'a' <= c <= 'f'
}

/// That a text identifies a request: 32 hexadecimal digits in lower case.
pub open spec fn is_request_id(text: Seq<char>) -> bool {
    text.len() == 32 && forall|i: int| 0 <= i < 32 ==> is_lower_hex(#[trigger] text[i])
}

/// Whether a text consists of that many hexadecimal digits in lower case.
pub fn is_lower_hex_text(text: &str, length: usize) -> (valid: bool)
    ensures
        valid == (text@.len() == length && forall|i: int|
            0 <= i < text@.len() ==> is_lower_hex(#[trigger] text@[i])),
{
    let chars = characters(text);
    if chars.len() != length {
        return false;
    }
    let mut i: usize = 0;
    while i < chars.len()
        invariant
            i <= chars.len(),
            chars@ == text@,
            forall|j: int| 0 <= j < i ==> is_lower_hex(#[trigger] text@[j]),
        decreases chars.len() - i,
    {
        let c = chars[i];
        if !((c >= '0' && c <= '9') || (c >= 'a' && c <= 'f')) {
            assert(!is_lower_hex(text@[i as int]));
            return false;
        }
        i += 1;
    }
    true
}

/// The identifier of a request.
#[derive(Debug, PartialEq, Eq)]
pub struct RequestId {
    value: String,
}

impl Clone for RequestId {
    fn clone(&self) -> (copy: RequestId)
        ensures
            copy@ == self@,
    {
        proof {
            use_type_invariant(self);
        }
        RequestId { value: self.value.clone() }
    }
}

impl View for RequestId {
    type V = Seq<char>;

    closed spec fn view(&self) -> Seq<char> {
        self.value@
    }
}

impl RequestId {
    #[verifier::type_invariant]
    spec fn well_formed(self) -> bool {
        is_request_id(self.value@)
    }

    /// The identifier that a text is, if it is one.
    pub fn new(value: String) -> (id: Option<RequestId>)
        ensures
            id is Some <==> is_request_id(value@),
            id matches Some(found) ==> found@ == value@,
    {
        if is_lower_hex_text(value.as_str(), 32) {
            Some(RequestId { value })
        } else {
            None
        }
    }

    /// The identifier as a text.
    pub fn into_string(self) -> (text: String)
        ensures
            text@ == self@,
            is_request_id(text@),
    {
        proof {
            use_type_invariant(&self);
        }
        self.value
    }

    /// The identifier as a text.
    pub fn as_str(&self) -> (text: &str)
        ensures
            text@ == self@,
            is_request_id(text@),
    {
        proof {
            use_type_invariant(self);
        }
        self.value.as_str()
    }
}

/// What the operator asks for.
#[derive(Clone, Copy, Debug, PartialEq, Eq, Structural)]
pub enum ClientMutationOperation {
    Start,
    Stop,
    Restart,
}

impl ClientMutationOperation {
    /// The name of the operation, in mathematical form.
    pub open spec fn name(self) -> Seq<char> {
        match self {
            ClientMutationOperation::Start => "start"@,
            ClientMutationOperation::Stop => "stop"@,
            ClientMutationOperation::Restart => "restart"@,
        }
    }

    /// The name of the operation.
    pub fn as_str(self) -> (name: &'static str)
        ensures
            name@ == self.name(),
    {
        match self {
            ClientMutationOperation::Start => "start",
            ClientMutationOperation::Stop => "stop",
            ClientMutationOperation::Restart => "restart",
        }
    }

    /// The request for this operation.
    pub fn request(self, server_id: String, request_id: RequestId, expected_command_revision: u64) -> (request:
        Request)
        ensures
            request == (match self {
                ClientMutationOperation::Start => Request::Start {
                    server_id,
                    request_id,
                    expected_command_revision,
                },
                ClientMutationOperation::Stop => Request::Stop {
                    server_id,
                    request_id,
                    expected_command_revision,
                },
                ClientMutationOperation::Restart => Request::Restart {
                    server_id,
                    request_id,
                    expected_command_revision,
                },
            }),
    {
        match self {
            ClientMutationOperation::Start => Request::Start {
                server_id,
                request_id,
                expected_command_revision,
            },
            ClientMutationOperation::Stop => Request::Stop {
                server_id,
                request_id,
                expected_command_revision,
            },
            ClientMutationOperation::Restart => Request::Restart {
                server_id,
                request_id,
                expected_command_revision,
            },
        }
    }

    /// That an answer to this operation may have this disposition: a restart is never already
    /// satisfied.
    pub open spec fn allows_disposition(self, disposition: Seq<char>) -> bool {
        disposition == "accepted"@ || (self != ClientMutationOperation::Restart && disposition
            == "already_satisfied"@)
    }

    /// Whether an answer to this operation may have this disposition.
    pub fn accepts_disposition(self, disposition: &str) -> (allowed: bool)
        ensures
            allowed == self.allows_disposition(disposition@),
    {
        match self {
            ClientMutationOperation::Start | ClientMutationOperation::Stop => {
                same_text(disposition, "accepted") || same_text(disposition, "already_satisfied")
            },
            ClientMutationOperation::Restart => same_text(disposition, "accepted"),
        }
    }

    /// The operation of the given name.
    pub fn from_wire_name(value: &str) -> (operation: Option<ClientMutationOperation>)
        ensures
            match operation {
                Some(found) => found.name() == value@,
                None => forall|any: ClientMutationOperation| #[trigger] any.name() != value@,
            },
    {
        if same_text(value, "start") {
            return Some(ClientMutationOperation::Start);
        }
        if same_text(value, "stop") {
            return Some(ClientMutationOperation::Stop);
        }
        if same_text(value, "restart") {
            return Some(ClientMutationOperation::Restart);
        }
        None
    }
}

/// What a client asks of the daemon.
pub enum Request {
    List,
    Status { server_id: String },
    Start { server_id: String, request_id: RequestId, expected_command_revision: u64 },
    Stop { server_id: String, request_id: RequestId, expected_command_revision: u64 },
    Restart { server_id: String, request_id: RequestId, expected_command_revision: u64 },
}

/// The kind of a request document.
#[derive(Clone, Copy, Debug, PartialEq, Eq, Structural)]
pub enum RequestDocumentOperation {
    List,
    Status,
    Start,
    Stop,
    Restart,
}

/// The fields of a request document. A field that is there may not be null.
pub struct RequestDocument {
    pub operation: RequestDocumentOperation,
    pub server_id: Option<String>,
    pub request_id: Option<String>,
    pub expected_command_revision: Option<u64>,
}

impl RequestDocument {
    /// That exactly the fields are there which the operation calls for, and that they are
    /// valid.
    pub open spec fn complete(self) -> bool {
        match self.operation {
            RequestDocumentOperation::List => self.server_id is None && self.request_id is None
                && self.expected_command_revision is None,
            RequestDocumentOperation::Status => self.server_id is Some && self.request_id is None
                && self.expected_command_revision is None,
            _ => self.server_id is Some && self.request_id is Some && is_request_id(
                (self.request_id->0)@,
            ) && self.expected_command_revision is Some,
        }
    }

    /// That a request says what this document says.
    pub open spec fn says(self, request: Request) -> bool {
        match (self.operation, request) {
            (RequestDocumentOperation::List, Request::List) => true,
            (RequestDocumentOperation::Status, Request::Status { server_id }) => Some(server_id)
                == self.server_id,
            (
                RequestDocumentOperation::Start,
                Request::Start { server_id, request_id, expected_command_revision },
            )
            | (
                RequestDocumentOperation::Stop,
                Request::Stop { server_id, request_id, expected_command_revision },
            )
            | (
                RequestDocumentOperation::Restart,
                Request::Restart { server_id, request_id, expected_command_revision },
            ) => {
                &&& Some(server_id) == self.server_id
                &&& self.request_id matches Some(text) && request_id@ == text@
                &&& Some(expected_command_revision) == self.expected_command_revision
            },
            _ => false,
        }
    }

    /// The request that the document is, if its fields match its operation.
    pub fn into_request(self) -> (request: Option<Request>)
        ensures
            request is Some <==> self.complete(),
            request matches Some(found) ==> self.says(found),
    {
        match (self.operation, self.server_id, self.request_id, self.expected_command_revision) {
            (RequestDocumentOperation::List, None, None, None) => Some(Request::List),
            (RequestDocumentOperation::Status, Some(server_id), None, None) => Some(
                Request::Status { server_id },
            ),
            (RequestDocumentOperation::Start, Some(server_id), Some(text), Some(revision)) => {
                match RequestId::new(text) {
                    Some(request_id) => Some(
                        ClientMutationOperation::Start.request(server_id, request_id, revision),
                    ),
                    None => None,
                }
            },
            (RequestDocumentOperation::Stop, Some(server_id), Some(text), Some(revision)) => {
                match RequestId::new(text) {
                    Some(request_id) => Some(
                        ClientMutationOperation::Stop.request(server_id, request_id, revision),
                    ),
                    None => None,
                }
            },
            (RequestDocumentOperation::Restart, Some(server_id), Some(text), Some(revision)) => {
                match RequestId::new(text) {
                    Some(request_id) => Some(
                        ClientMutationOperation::Restart.request(server_id, request_id, revision),
                    ),
                    None => None,
                }
            },
            _ => None,
        }
    }
}

/// The phases by name.
#[derive(Clone, Copy, Debug, PartialEq, Eq, Structural)]
pub enum WirePhase {
    Reconciling,
    Stopped,
    Starting,
    Running,
    Stopping,
    Cooldown,
    External,
    Conflict,
}

impl WirePhase {
    /// The name of the phase, in mathematical form.
    pub open spec fn name(self) -> Seq<char> {
        match self {
            WirePhase::Reconciling => "reconciling"@,
            WirePhase::Stopped => "stopped"@,
            WirePhase::Starting => "starting"@,
            WirePhase::Running => "running"@,
            WirePhase::Stopping => "stopping"@,
            WirePhase::Cooldown => "cooldown"@,
            WirePhase::External => "external"@,
            WirePhase::Conflict => "conflict"@,
        }
    }

    /// The name of the phase.
    pub fn as_str(self) -> (name: &'static str)
        ensures
            name@ == self.name(),
    {
        match self {
            WirePhase::Reconciling => "reconciling",
            WirePhase::Stopped => "stopped",
            WirePhase::Starting => "starting",
            WirePhase::Running => "running",
            WirePhase::Stopping => "stopping",
            WirePhase::Cooldown => "cooldown",
            WirePhase::External => "external",
            WirePhase::Conflict => "conflict",
        }
    }
}

/// The name that a phase goes by.
pub open spec fn wire_phase(phase: ServerPhase) -> WirePhase {
    match phase {
        ServerPhase::Reconciling => WirePhase::Reconciling,
        ServerPhase::Stopped => WirePhase::Stopped,
        ServerPhase::Starting => WirePhase::Starting,
        ServerPhase::Running => WirePhase::Running,
        ServerPhase::Stopping => WirePhase::Stopping,
        ServerPhase::Cooldown => WirePhase::Cooldown,
        ServerPhase::External => WirePhase::External,
        ServerPhase::Conflict => WirePhase::Conflict,
    }
}

impl From<ServerPhase> for WirePhase {
    fn from(phase: ServerPhase) -> (wire: WirePhase) {
        match phase {
            ServerPhase::Reconciling => WirePhase::Reconciling,
            ServerPhase::Stopped => WirePhase::Stopped,
            ServerPhase::Starting => WirePhase::Starting,
            ServerPhase::Running => WirePhase::Running,
            ServerPhase::Stopping => WirePhase::Stopping,
            ServerPhase::Cooldown => WirePhase::Cooldown,
            ServerPhase::External => WirePhase::External,
            ServerPhase::Conflict => WirePhase::Conflict,
        }
    }
}

impl vstd::std_specs::convert::FromSpecImpl<ServerPhase> for WirePhase {
    open spec fn obeys_from_spec() -> bool {
        true
    }

    open spec fn from_spec(phase: ServerPhase) -> WirePhase {
        wire_phase(phase)
    }
}

/// The categories of failures by name.
#[derive(Clone, Copy, Debug, PartialEq, Eq, Structural)]
pub enum WireFailureCategory {
    LaunchFailed,
    StartupTimedOut,
    ExitedBeforeReady,
    ExitedUnexpectedly,
}

impl WireFailureCategory {
    /// The name of the category, in mathematical form.
    pub open spec fn name(self) -> Seq<char> {
        match self {
            WireFailureCategory::LaunchFailed => "launch_failed"@,
            WireFailureCategory::StartupTimedOut => "startup_timed_out"@,
            WireFailureCategory::ExitedBeforeReady => "exited_before_ready"@,
            WireFailureCategory::ExitedUnexpectedly => "exited_unexpectedly"@,
        }
    }

    /// The name of the category.
    pub fn as_str(self) -> (name: &'static str)
        ensures
            name@ == self.name(),
    {
        match self {
            WireFailureCategory::LaunchFailed => "launch_failed",
            WireFailureCategory::StartupTimedOut => "startup_timed_out",
            WireFailureCategory::ExitedBeforeReady => "exited_before_ready",
            WireFailureCategory::ExitedUnexpectedly => "exited_unexpectedly",
        }
    }
}

/// The name that a category goes by.
pub open spec fn wire_failure(category: FailureCategory) -> WireFailureCategory {
    match category {
        FailureCategory::LaunchFailed => WireFailureCategory::LaunchFailed,
        FailureCategory::StartupTimedOut => WireFailureCategory::StartupTimedOut,
        FailureCategory::ExitedBeforeReady => WireFailureCategory::ExitedBeforeReady,
        FailureCategory::ExitedUnexpectedly => WireFailureCategory::ExitedUnexpectedly,
    }
}

impl From<FailureCategory> for WireFailureCategory {
    fn from(category: FailureCategory) -> (wire: WireFailureCategory) {
        match category {
            FailureCategory::LaunchFailed => WireFailureCategory::LaunchFailed,
            FailureCategory::StartupTimedOut => WireFailureCategory::StartupTimedOut,
            FailureCategory::ExitedBeforeReady => WireFailureCategory::ExitedBeforeReady,
            FailureCategory::ExitedUnexpectedly => WireFailureCategory::ExitedUnexpectedly,
        }
    }
}

impl vstd::std_specs::convert::FromSpecImpl<FailureCategory> for WireFailureCategory {
    open spec fn obeys_from_spec() -> bool {
        true
    }

    open spec fn from_spec(category: FailureCategory) -> WireFailureCategory {
        wire_failure(category)
    }
}

/// Why the daemon does not do what was asked.
#[derive(Clone, Copy, Debug, PartialEq, Eq, Structural)]
pub enum WireErrorCode {
    MalformedRequest,
    UnsupportedProtocolVersion,
    UnsupportedOperation,
    UnknownServerId,
    OperationRejected,
    ExternalBackendNotOwned,
    ConflictingBackendEvidence,
    OperationInProgress,
    StaleCommandRevision,
    RequestIdConflict,
    CommandQueueFull,
    InternalFailure,
}

impl WireErrorCode {
    /// The name of the code, in mathematical form.
    pub open spec fn name(self) -> Seq<char> {
        match self {
            WireErrorCode::MalformedRequest => "malformed_request"@,
            WireErrorCode::UnsupportedProtocolVersion => "unsupported_protocol_version"@,
            WireErrorCode::UnsupportedOperation => "unsupported_operation"@,
            WireErrorCode::UnknownServerId => "unknown_server_id"@,
            WireErrorCode::OperationRejected => "operation_rejected"@,
            WireErrorCode::ExternalBackendNotOwned => "external_backend_not_owned"@,
            WireErrorCode::ConflictingBackendEvidence => "conflicting_backend_evidence"@,
            WireErrorCode::OperationInProgress => "operation_in_progress"@,
            WireErrorCode::StaleCommandRevision => "stale_command_revision"@,
            WireErrorCode::RequestIdConflict => "request_id_conflict"@,
            WireErrorCode::CommandQueueFull => "command_queue_full"@,
            WireErrorCode::InternalFailure => "internal_failure"@,
        }
    }

    /// The name of the code.
    pub fn as_str(self) -> (name: &'static str)
        ensures
            name@ == self.name(),
    {
        match self {
            WireErrorCode::MalformedRequest => "malformed_request",
            WireErrorCode::UnsupportedProtocolVersion => "unsupported_protocol_version",
            WireErrorCode::UnsupportedOperation => "unsupported_operation",
            WireErrorCode::UnknownServerId => "unknown_server_id",
            WireErrorCode::OperationRejected => "operation_rejected",
            WireErrorCode::ExternalBackendNotOwned => "external_backend_not_owned",
            WireErrorCode::ConflictingBackendEvidence => "conflicting_backend_evidence",
            WireErrorCode::OperationInProgress => "operation_in_progress",
            WireErrorCode::StaleCommandRevision => "stale_command_revision",
            WireErrorCode::RequestIdConflict => "request_id_conflict",
            WireErrorCode::CommandQueueFull => "command_queue_full",
            WireErrorCode::InternalFailure => "internal_failure",
        }
    }

    /// What the code means, in mathematical form.
    pub open spec fn meaning(self) -> Seq<char> {
        match self {
            WireErrorCode::MalformedRequest => "malformed request"@,
            WireErrorCode::UnsupportedProtocolVersion => "unsupported control protocol version"@,
            WireErrorCode::UnsupportedOperation => "unsupported operation"@,
            WireErrorCode::UnknownServerId => "unknown server ID"@,
            WireErrorCode::OperationRejected => "operation rejected"@,
            WireErrorCode::ExternalBackendNotOwned => "external backend is not owned"@,
            WireErrorCode::ConflictingBackendEvidence => "backend evidence conflicts"@,
            WireErrorCode::OperationInProgress => "operation in progress"@,
            WireErrorCode::StaleCommandRevision => "command revision is stale"@,
            WireErrorCode::RequestIdConflict => "request ID conflicts"@,
            WireErrorCode::CommandQueueFull => "command queue is full"@,
            WireErrorCode::InternalFailure => "internal failure"@,
        }
    }

    /// What the code means.
    pub fn message(self) -> (text: &'static str)
        ensures
            text@ == self.meaning(),
    {
        match self {
            WireErrorCode::MalformedRequest => "malformed request",
            WireErrorCode::UnsupportedProtocolVersion => "unsupported control protocol version",
            WireErrorCode::UnsupportedOperation => "unsupported operation",
            WireErrorCode::UnknownServerId => "unknown server ID",
            WireErrorCode::OperationRejected => "operation rejected",
            WireErrorCode::ExternalBackendNotOwned => "external backend is not owned",
            WireErrorCode::ConflictingBackendEvidence => "backend evidence conflicts",
            WireErrorCode::OperationInProgress => "operation in progress",
            WireErrorCode::StaleCommandRevision => "command revision is stale",
            WireErrorCode::RequestIdConflict => "request ID conflicts",
            WireErrorCode::CommandQueueFull => "command queue is full",
            WireErrorCode::InternalFailure => "internal failure",
        }
    }

    /// Every code.
    pub fn all() -> (codes: Vec<WireErrorCode>)
        ensures
            forall|code: WireErrorCode| #[trigger] codes@.contains(code),
            codes@.no_duplicates(),
    {
        let codes = vec![
            WireErrorCode::MalformedRequest,
            WireErrorCode::UnsupportedProtocolVersion,
            WireErrorCode::UnsupportedOperation,
            WireErrorCode::UnknownServerId,
            WireErrorCode::OperationRejected,
            WireErrorCode::ExternalBackendNotOwned,
            WireErrorCode::ConflictingBackendEvidence,
            WireErrorCode::OperationInProgress,
            WireErrorCode::StaleCommandRevision,
            WireErrorCode::RequestIdConflict,
            WireErrorCode::CommandQueueFull,
            WireErrorCode::InternalFailure,
        ];
        assert forall|code: WireErrorCode| #[trigger] codes@.contains(code) by {
            let at: int = match code {
                WireErrorCode::MalformedRequest => 0,
                WireErrorCode::UnsupportedProtocolVersion => 1,
                WireErrorCode::UnsupportedOperation => 2,
                WireErrorCode::UnknownServerId => 3,
                WireErrorCode::OperationRejected => 4,
                WireErrorCode::ExternalBackendNotOwned => 5,
                WireErrorCode::ConflictingBackendEvidence => 6,
                WireErrorCode::OperationInProgress => 7,
                WireErrorCode::StaleCommandRevision => 8,
                WireErrorCode::RequestIdConflict => 9,
                WireErrorCode::CommandQueueFull => 10,
                WireErrorCode::InternalFailure => 11,
            };
            assert(codes@[at] == code);
        }
        codes
    }
}

/// The code for a request that the supervisor refused.
pub open spec fn mutation_code(error: MutationError) -> WireErrorCode {
    match error {
        MutationError::OperationRejected => WireErrorCode::OperationRejected,
        MutationError::ExternalBackendNotOwned => WireErrorCode::ExternalBackendNotOwned,
        MutationError::ConflictingBackendEvidence => WireErrorCode::ConflictingBackendEvidence,
        MutationError::OperationInProgress => WireErrorCode::OperationInProgress,
        MutationError::StaleCommandRevision => WireErrorCode::StaleCommandRevision,
        MutationError::RequestIdConflict => WireErrorCode::RequestIdConflict,
        MutationError::InternalFailure => WireErrorCode::InternalFailure,
    }
}

/// A member whose value is a text.
pub open spec fn text_member(key: Seq<char>, value: Seq<char>) -> Member {
    Member { key, json: quoted(value) }
}

/// A member whose value is a number.
pub open spec fn number_member(key: Seq<char>, value: nat) -> Member {
    Member { key, json: decimal(value) }
}

/// A document of a successful answer.
pub open spec fn success_document(result: Seq<char>) -> Seq<char> {
    object(seq![text_member("type"@, "success"@), Member { key: "result"@, json: result }])
}

/// The answer to a request for the list of servers.
pub open spec fn list_document(server_ids: Seq<Seq<char>>) -> Seq<char> {
    success_document(
        object(
            seq![
                text_member("type"@, "list"@),
                Member {
                    key: "servers"@,
                    json: array(server_ids.map_values(|id: Seq<char>| quoted(id))),
                },
            ],
        ),
    )
}

/// What a status says of a server.
pub struct StatusFields {
    pub server_id: Seq<char>,
    pub phase: WirePhase,
    pub failure_category: Option<WireFailureCategory>,
    pub failure_streak: u32,
    pub retry_after_ms: Option<u64>,
    pub command_revision: u64,
}

/// The fields of a status as JSON. Those that a server lacks are null.
pub open spec fn status_fields(fields: StatusFields) -> Seq<Member> {
    seq![
        text_member("server_id"@, fields.server_id),
        text_member("phase"@, fields.phase.name()),
        Member {
            key: "failure_category"@,
            json: match fields.failure_category {
                Some(category) => quoted(category.name()),
                None => "null"@,
            },
        },
        number_member("failure_streak"@, fields.failure_streak as nat),
        Member {
            key: "retry_after_ms"@,
            json: match fields.retry_after_ms {
                Some(milliseconds) => decimal(milliseconds as nat),
                None => "null"@,
            },
        },
        number_member("command_revision"@, fields.command_revision as nat),
    ]
}

/// The answer to a request for the status of a server.
pub open spec fn status_document(fields: StatusFields) -> Seq<char> {
    success_document(
        object(
            seq![
                text_member("type"@, "status"@),
                Member { key: "server"@, json: object(status_fields(fields)) },
            ],
        ),
    )
}

/// What an answer to an admitted request says.
pub struct OperationFields {
    pub server_id: Seq<char>,
    pub operation: Seq<char>,
    pub request_id: Seq<char>,
    pub command_revision: u64,
    pub disposition: Seq<char>,
}

/// The answer to an admitted request.
pub open spec fn operation_document(fields: OperationFields) -> Seq<char> {
    success_document(
        object(
            seq![
                text_member("type"@, "operation"@),
                text_member("server_id"@, fields.server_id),
                text_member("operation"@, fields.operation),
                text_member("request_id"@, fields.request_id),
                number_member("command_revision"@, fields.command_revision as nat),
                text_member("disposition"@, fields.disposition),
            ],
        ),
    )
}

/// The answer to a request that is refused.
pub open spec fn error_document(code: WireErrorCode) -> Seq<char> {
    object(
        seq![
            text_member("type"@, "error"@),
            Member {
                key: "error"@,
                json: object(
                    seq![
                        text_member("code"@, code.name()),
                        text_member("message"@, code.meaning()),
                    ],
                ),
            },
        ],
    )
}

/// A request as a document.
pub open spec fn request_document(request: Request) -> Seq<char> {
    match request {
        Request::List => object(seq![text_member("type"@, "list"@)]),
        Request::Status { server_id } => object(
            seq![text_member("type"@, "status"@), text_member("server_id"@, server_id@)],
        ),
        Request::Start { server_id, request_id, expected_command_revision } => mutation_document(
            "start"@,
            server_id@,
            request_id@,
            expected_command_revision,
        ),
        Request::Stop { server_id, request_id, expected_command_revision } => mutation_document(
            "stop"@,
            server_id@,
            request_id@,
            expected_command_revision,
        ),
        Request::Restart { server_id, request_id, expected_command_revision } => mutation_document(
            "restart"@,
            server_id@,
            request_id@,
            expected_command_revision,
        ),
    }
}

/// A request for a change as a document.
pub open spec fn mutation_document(
    operation: Seq<char>,
    server_id: Seq<char>,
    request_id: Seq<char>,
    expected_command_revision: u64,
) -> Seq<char> {
    object(
        seq![
            text_member("type"@, operation),
            text_member("server_id"@, server_id),
            text_member("request_id"@, request_id),
            number_member("expected_command_revision"@, expected_command_revision as nat),
        ],
    )
}

/// Writes the document of a successful answer.
fn write_success(result: &str) -> (json: String)
    ensures
        json@ == success_document(result@),
{
    let writer = ObjectWriter::new().text("type", "success").json("result", result);
    assert(writer@ =~= seq![
        text_member("type"@, "success"@),
        Member { key: "result"@, json: result@ },
    ]);
    writer.finish()
}

/// The texts of a list.
pub open spec fn texts(items: Seq<String>) -> Seq<Seq<char>> {
    items.map_values(|item: String| item@)
}

/// Writes the answer to a request for the list of servers.
pub fn write_list(server_ids: &Vec<String>) -> (json: String)
    ensures
        json@ == list_document(texts(server_ids@)),
{
    let servers = text_array(server_ids);
    assert(server_ids@.map_values(|item: String| quoted(item@)) =~= texts(
        server_ids@,
    ).map_values(|id: Seq<char>| quoted(id)));
    let writer = ObjectWriter::new().text("type", "list").json("servers", servers.as_str());
    assert(writer@ =~= seq![
        text_member("type"@, "list"@),
        Member {
            key: "servers"@,
            json: array(texts(server_ids@).map_values(|id: Seq<char>| quoted(id))),
        },
    ]);
    write_success(writer.finish().as_str())
}

/// Writes the answer to a request for the status of a server.
pub fn write_status(
    server_id: &str,
    phase: WirePhase,
    failure_category: Option<WireFailureCategory>,
    failure_streak: u32,
    retry_after_ms: Option<u64>,
    command_revision: u64,
) -> (json: String)
    ensures
        json@ == status_document(
            StatusFields {
                server_id: server_id@,
                phase,
                failure_category,
                failure_streak,
                retry_after_ms,
                command_revision,
            },
        ),
{
    let ghost fields = StatusFields {
        server_id: server_id@,
        phase,
        failure_category,
        failure_streak,
        retry_after_ms,
        command_revision,
    };
    let writer = ObjectWriter::new().text("server_id", server_id).text("phase", phase.as_str());
    let writer = match failure_category {
        Some(category) => writer.text("failure_category", category.as_str()),
        None => writer.json("failure_category", "null"),
    };
    let writer = writer.number("failure_streak", failure_streak as u64);
    let writer = match retry_after_ms {
        Some(milliseconds) => writer.number("retry_after_ms", milliseconds),
        None => writer.json("retry_after_ms", "null"),
    };
    let writer = writer.number("command_revision", command_revision);
    assert(writer@ =~= status_fields(fields));
    let result = ObjectWriter::new().text("type", "status").json(
        "server",
        writer.finish().as_str(),
    );
    assert(result@ =~= seq![
        text_member("type"@, "status"@),
        Member { key: "server"@, json: object(status_fields(fields)) },
    ]);
    write_success(result.finish().as_str())
}

/// Writes the answer to an admitted request.
pub fn write_operation(
    server_id: &str,
    operation: &str,
    request_id: &str,
    command_revision: u64,
    disposition: &str,
) -> (json: String)
    ensures
        json@ == operation_document(
            OperationFields {
                server_id: server_id@,
                operation: operation@,
                request_id: request_id@,
                command_revision,
                disposition: disposition@,
            },
        ),
{
    let writer = ObjectWriter::new().text("type", "operation").text("server_id", server_id).text(
        "operation",
        operation,
    ).text("request_id", request_id).number("command_revision", command_revision).text(
        "disposition",
        disposition,
    );
    assert(writer@ =~= seq![
        text_member("type"@, "operation"@),
        text_member("server_id"@, server_id@),
        text_member("operation"@, operation@),
        text_member("request_id"@, request_id@),
        number_member("command_revision"@, command_revision as nat),
        text_member("disposition"@, disposition@),
    ]);
    write_success(writer.finish().as_str())
}

/// Writes the answer to a request that is refused.
pub fn write_error(code: WireErrorCode) -> (json: String)
    ensures
        json@ == error_document(code),
{
    let fields = ObjectWriter::new().text("code", code.as_str()).text("message", code.message());
    assert(fields@ =~= seq![
        text_member("code"@, code.name()),
        text_member("message"@, code.meaning()),
    ]);
    let writer = ObjectWriter::new().text("type", "error").json("error", fields.finish().as_str());
    assert(writer@ =~= seq![
        text_member("type"@, "error"@),
        Member {
            key: "error"@,
            json: object(
                seq![
                    text_member("code"@, code.name()),
                    text_member("message"@, code.meaning()),
                ],
            ),
        },
    ]);
    writer.finish()
}

/// Writes a request for a change.
fn write_mutation(operation: &str, server_id: &str, request_id: &RequestId, revision: u64) -> (json:
    String)
    ensures
        json@ == mutation_document(operation@, server_id@, request_id@, revision),
{
    let writer = ObjectWriter::new().text("type", operation).text("server_id", server_id).text(
        "request_id",
        request_id.as_str(),
    ).number("expected_command_revision", revision);
    assert(writer@ =~= seq![
        text_member("type"@, operation@),
        text_member("server_id"@, server_id@),
        text_member("request_id"@, request_id@),
        number_member("expected_command_revision"@, revision as nat),
    ]);
    writer.finish()
}

/// Writes a request.
pub fn write_request(request: &Request) -> (json: String)
    ensures
        json@ == request_document(*request),
{
    match request {
        Request::List => {
            let writer = ObjectWriter::new().text("type", "list");
            assert(writer@ =~= seq![text_member("type"@, "list"@)]);
            writer.finish()
        },
        Request::Status { server_id } => {
            let writer = ObjectWriter::new().text("type", "status").text(
                "server_id",
                server_id.as_str(),
            );
            assert(writer@ =~= seq![
                text_member("type"@, "status"@),
                text_member("server_id"@, server_id@),
            ]);
            writer.finish()
        },
        Request::Start { server_id, request_id, expected_command_revision } => write_mutation(
            "start",
            server_id.as_str(),
            request_id,
            *expected_command_revision,
        ),
        Request::Stop { server_id, request_id, expected_command_revision } => write_mutation(
            "stop",
            server_id.as_str(),
            request_id,
            *expected_command_revision,
        ),
        Request::Restart { server_id, request_id, expected_command_revision } => write_mutation(
            "restart",
            server_id.as_str(),
            request_id,
            *expected_command_revision,
        ),
    }
}

/// A request is identified by thirty-two digits of `0` to `9` and `a` to `f`.
pub proof fn identifiers_are_hexadecimal(text: Seq<char>)
    ensures
        is_request_id(text) <==> text.len() == 32 && forall|i: int|
            0 <= i < text.len() ==> 48 <= #[trigger] text[i] as int <= 57 || 97 <= text[i] as int
                <= 102,
{
    if is_request_id(text) {
        assert forall|i: int| 0 <= i < text.len() implies 48 <= #[trigger] text[i] as int <= 57
            || 97 <= text[i] as int <= 102 by {
            assert(is_lower_hex(text[i]));
        }
    }
}

/// A document says a request exactly if it has all of its fields and no others, and says what
/// stands in them.
pub proof fn documents_say_their_fields(document: RequestDocument, request: Request)
    requires
        document.complete(),
        document.says(request),
    ensures
        document.operation == RequestDocumentOperation::List <==> request == Request::List,
        document.operation == RequestDocumentOperation::Status <==> request is Status,
        document.operation == RequestDocumentOperation::Start <==> request is Start,
        document.operation == RequestDocumentOperation::Stop <==> request is Stop,
        document.operation == RequestDocumentOperation::Restart <==> request is Restart,
        request matches Request::Status { server_id } ==> document.server_id == Some(server_id),
        request matches Request::Start { server_id, request_id, expected_command_revision }
            ==> document.server_id == Some(server_id) && document.expected_command_revision
            == Some(expected_command_revision) && (document.request_id->0)@ == request_id@,
        request matches Request::Stop { server_id, request_id, expected_command_revision }
            ==> document.server_id == Some(server_id) && document.expected_command_revision
            == Some(expected_command_revision) && (document.request_id->0)@ == request_id@,
        request matches Request::Restart { server_id, request_id, expected_command_revision }
            ==> document.server_id == Some(server_id) && document.expected_command_revision
            == Some(expected_command_revision) && (document.request_id->0)@ == request_id@,
{
}

/// A change needs a server, a request and a revision; a status needs a server alone; a list needs
/// nothing.
pub proof fn requests_have_their_fields(document: RequestDocument)
    ensures
        document.complete() <==> ((document.server_id is None <==> document.operation
            == RequestDocumentOperation::List) && (document.request_id is Some
            <==> document.operation != RequestDocumentOperation::List && document.operation
            != RequestDocumentOperation::Status) && (document.expected_command_revision is Some
            <==> document.operation != RequestDocumentOperation::List && document.operation
            != RequestDocumentOperation::Status) && (document.request_id is Some
            ==> is_request_id((document.request_id->0)@))),
{
}

/// The daemon serves at most 32 exchanges at a time, of five seconds each, in version 2 and with
/// payloads of at most 65536 bytes.
pub proof fn exchanges_are_limited(exchanges: usize, seconds: u64, payload: u32, version: u16)
    ensures
        exchanges <= MAX_CONTROL_EXCHANGES <==> exchanges <= 32,
        seconds <= EXCHANGE_TIMEOUT_SECONDS <==> seconds <= 5,
        payload <= MAX_PAYLOAD_LENGTH <==> payload <= 65_536,
        version == PROTOCOL_VERSION <==> version == 2,
{
    assert(MAX_CONTROL_EXCHANGES == 32 && EXCHANGE_TIMEOUT_SECONDS == 5);
    assert(MAX_PAYLOAD_LENGTH == 65_536 && PROTOCOL_VERSION == 2);
}

/// Texts are seen one by one, in their order.
pub proof fn texts_are_seen_in_order(items: Seq<String>, at: int)
    requires
        0 <= at < items.len(),
    ensures
        texts(items).len() == items.len(),
        texts(items)[at] == items[at]@,
{
}

/// Every request is said by a document of its kind, and by no other.
pub proof fn requests_are_said_by_their_kind(document: RequestDocument, request: Request)
    ensures
        request is List ==> (document.says(request) <==> document.operation
            == RequestDocumentOperation::List),
        request matches Request::Status { server_id } ==> (document.says(request)
            <==> document.operation == RequestDocumentOperation::Status && document.server_id
            == Some(server_id)),
        request matches Request::Start { server_id, request_id, expected_command_revision } ==> (
        document.says(request) <==> document.operation == RequestDocumentOperation::Start
            && document.server_id == Some(server_id) && document.expected_command_revision == Some(
            expected_command_revision,
        ) && document.request_id is Some && (document.request_id->0)@ == request_id@),
        request matches Request::Stop { server_id, request_id, expected_command_revision } ==> (
        document.says(request) <==> document.operation == RequestDocumentOperation::Stop
            && document.server_id == Some(server_id) && document.expected_command_revision == Some(
            expected_command_revision,
        ) && document.request_id is Some && (document.request_id->0)@ == request_id@),
        request matches Request::Restart { server_id, request_id, expected_command_revision } ==> (
        document.says(request) <==> document.operation == RequestDocumentOperation::Restart
            && document.server_id == Some(server_id) && document.expected_command_revision == Some(
            expected_command_revision,
        ) && document.request_id is Some && (document.request_id->0)@ == request_id@),
{
}

} // verus!
