//! What the documents of the protocol say to whoever reads them as JSON.

use vstd::prelude::*;

use crate::json::{
    array, json_of, lists_read_back, nothing_reads_back, numbers_read_back, object,
    objects_read_back, quoted, quoted_texts_read_back, says, told_members, Json, Member,
};
use crate::supervisor::admission::{
    MutationDisposition, MutationError, MutationOperation, SuccessView,
};
use crate::supervisor::lifecycle::{
    FailureCategory, LifecycleStatusSnapshot, Nanos, ServerPhase,
};

use super::client::submission_document;
use super::exchange::{milliseconds_until, operation_fields, retry_can_be_told, snapshot_fields};
use super::wire::{
    error_document, list_document, mutation_code, mutation_document, number_member,
    operation_document, request_document, status_document, status_fields, success_document,
    text_member, ClientMutationOperation, Request, WireErrorCode,
};

verus! {

/// A successful answer says so and carries its result.
proof fn lemma_success_reads_back(result: Seq<char>, value: Json)
    requires
        says(result, value),
    ensures
        json_of(success_document(result)) == Some(
            Json::Object(seq![("type"@, Json::Text("success"@)), ("result"@, value)]),
        ),
{
    quoted_texts_read_back("success"@);
    let members = seq![text_member("type"@, "success"@), Member { key: "result"@, json: result }];
    let values = seq![Json::Text("success"@), value];
    objects_read_back(members, values);
    assert(told_members(members, values) =~= seq![
        ("type"@, Json::Text("success"@)),
        ("result"@, value),
    ]);
}

/// A request for a change says what is to be done to which server, who asks and what the asker
/// has seen.
pub proof fn change_requests_say_what_is_asked(
    operation: Seq<char>,
    server_id: Seq<char>,
    request_id: Seq<char>,
    expected_command_revision: u64,
)
    ensures
        json_of(
            mutation_document(operation, server_id, request_id, expected_command_revision),
        ) == Some(
            Json::Object(
                seq![
                    ("type"@, Json::Text(operation)),
                    ("server_id"@, Json::Text(server_id)),
                    ("request_id"@, Json::Text(request_id)),
                    (
                        "expected_command_revision"@,
                        Json::Number(expected_command_revision as nat),
                    ),
                ],
            ),
        ),
{
    quoted_texts_read_back(operation);
    quoted_texts_read_back(server_id);
    quoted_texts_read_back(request_id);
    numbers_read_back(expected_command_revision as nat);
    let members = seq![
        text_member("type"@, operation),
        text_member("server_id"@, server_id),
        text_member("request_id"@, request_id),
        number_member("expected_command_revision"@, expected_command_revision as nat),
    ];
    let values = seq![
        Json::Text(operation),
        Json::Text(server_id),
        Json::Text(request_id),
        Json::Number(expected_command_revision as nat),
    ];
    objects_read_back(members, values);
    assert(told_members(members, values) =~= seq![
        ("type"@, Json::Text(operation)),
        ("server_id"@, Json::Text(server_id)),
        ("request_id"@, Json::Text(request_id)),
        ("expected_command_revision"@, Json::Number(expected_command_revision as nat)),
    ]);
}

/// A request says what is asked, each kind under its own name.
pub proof fn requests_say_what_is_asked(request: Request)
    ensures
        json_of(request_document(request)) == Some(
            Json::Object(
                match request {
                    Request::List => seq![("type"@, Json::Text("list"@))],
                    Request::Status { server_id } => seq![
                        ("type"@, Json::Text("status"@)),
                        ("server_id"@, Json::Text(server_id@)),
                    ],
                    Request::Start { server_id, request_id, expected_command_revision } => seq![
                        ("type"@, Json::Text("start"@)),
                        ("server_id"@, Json::Text(server_id@)),
                        ("request_id"@, Json::Text(request_id@)),
                        (
                            "expected_command_revision"@,
                            Json::Number(expected_command_revision as nat),
                        ),
                    ],
                    Request::Stop { server_id, request_id, expected_command_revision } => seq![
                        ("type"@, Json::Text("stop"@)),
                        ("server_id"@, Json::Text(server_id@)),
                        ("request_id"@, Json::Text(request_id@)),
                        (
                            "expected_command_revision"@,
                            Json::Number(expected_command_revision as nat),
                        ),
                    ],
                    Request::Restart { server_id, request_id, expected_command_revision } => seq![
                        ("type"@, Json::Text("restart"@)),
                        ("server_id"@, Json::Text(server_id@)),
                        ("request_id"@, Json::Text(request_id@)),
                        (
                            "expected_command_revision"@,
                            Json::Number(expected_command_revision as nat),
                        ),
                    ],
                },
            ),
        ),
{
    match request {
        Request::List => {
            quoted_texts_read_back("list"@);
            let members = seq![text_member("type"@, "list"@)];
            let values = seq![Json::Text("list"@)];
            objects_read_back(members, values);
            assert(told_members(members, values) =~= seq![("type"@, Json::Text("list"@))]);
        },
        Request::Status { server_id } => {
            quoted_texts_read_back("status"@);
            quoted_texts_read_back(server_id@);
            let members = seq![
                text_member("type"@, "status"@),
                text_member("server_id"@, server_id@),
            ];
            let values = seq![Json::Text("status"@), Json::Text(server_id@)];
            objects_read_back(members, values);
            assert(told_members(members, values) =~= seq![
                ("type"@, Json::Text("status"@)),
                ("server_id"@, Json::Text(server_id@)),
            ]);
        },
        Request::Start { server_id, request_id, expected_command_revision } => {
            change_requests_say_what_is_asked(
                "start"@,
                server_id@,
                request_id@,
                expected_command_revision,
            );
        },
        Request::Stop { server_id, request_id, expected_command_revision } => {
            change_requests_say_what_is_asked(
                "stop"@,
                server_id@,
                request_id@,
                expected_command_revision,
            );
        },
        Request::Restart { server_id, request_id, expected_command_revision } => {
            change_requests_say_what_is_asked(
                "restart"@,
                server_id@,
                request_id@,
                expected_command_revision,
            );
        },
    }
}

/// The answer to a request for the list says the identifiers in their order and nothing else.
pub proof fn lists_say_the_servers(server_ids: Seq<Seq<char>>)
    ensures
        json_of(list_document(server_ids)) == Some(
            Json::Object(
                seq![
                    ("type"@, Json::Text("success"@)),
                    (
                        "result"@,
                        Json::Object(
                            seq![
                                ("type"@, Json::Text("list"@)),
                                (
                                    "servers"@,
                                    Json::List(
                                        server_ids.map_values(|id: Seq<char>| Json::Text(id)),
                                    ),
                                ),
                            ],
                        ),
                    ),
                ],
            ),
        ),
{
    let items = server_ids.map_values(|id: Seq<char>| quoted(id));
    let texts = server_ids.map_values(|id: Seq<char>| Json::Text(id));
    assert forall|i: int| 0 <= i < items.len() implies says(#[trigger] items[i], texts[i]) by {
        quoted_texts_read_back(server_ids[i]);
    }
    lists_read_back(items, texts);
    quoted_texts_read_back("list"@);
    let members = seq![
        text_member("type"@, "list"@),
        Member { key: "servers"@, json: array(items) },
    ];
    let values = seq![Json::Text("list"@), Json::List(texts)];
    objects_read_back(members, values);
    assert(told_members(members, values) =~= seq![
        ("type"@, Json::Text("list"@)),
        ("servers"@, Json::List(texts)),
    ]);
    lemma_success_reads_back(object(members), Json::Object(told_members(members, values)));
}

/// A status says its fields.
proof fn lemma_status_reads_back(
    server_id: Seq<char>,
    snapshot: LifecycleStatusSnapshot,
    now: Nanos,
    phase: Seq<char>,
    failure: Json,
    retry: Json,
)
    requires
        phase == snapshot_fields(server_id, snapshot, now).phase.name(),
        failure == (match snapshot_fields(server_id, snapshot, now).failure_category {
            Some(category) => Json::Text(category.name()),
            None => Json::Nothing,
        }),
        retry == (match snapshot_fields(server_id, snapshot, now).retry_after_ms {
            Some(milliseconds) => Json::Number(milliseconds as nat),
            None => Json::Nothing,
        }),
        snapshot_fields(server_id, snapshot, now).server_id == server_id,
        snapshot_fields(server_id, snapshot, now).failure_streak == snapshot.failure_streak,
        snapshot_fields(server_id, snapshot, now).command_revision == snapshot.command_revision,
    ensures
        json_of(status_document(snapshot_fields(server_id, snapshot, now))) == Some(
            Json::Object(
                seq![
                    ("type"@, Json::Text("success"@)),
                    (
                        "result"@,
                        Json::Object(
                            seq![
                                ("type"@, Json::Text("status"@)),
                                (
                                    "server"@,
                                    Json::Object(
                                        seq![
                                            ("server_id"@, Json::Text(server_id)),
                                            ("phase"@, Json::Text(phase)),
                                            ("failure_category"@, failure),
                                            (
                                                "failure_streak"@,
                                                Json::Number(snapshot.failure_streak as nat),
                                            ),
                                            ("retry_after_ms"@, retry),
                                            (
                                                "command_revision"@,
                                                Json::Number(snapshot.command_revision as nat),
                                            ),
                                        ],
                                    ),
                                ),
                            ],
                        ),
                    ),
                ],
            ),
        ),
{
    let fields = snapshot_fields(server_id, snapshot, now);
    nothing_reads_back();
    match fields.failure_category {
        Some(category) => quoted_texts_read_back(category.name()),
        None => {},
    }
    match fields.retry_after_ms {
        Some(milliseconds) => numbers_read_back(milliseconds as nat),
        None => {},
    }
    quoted_texts_read_back(server_id);
    quoted_texts_read_back(phase);
    numbers_read_back(snapshot.failure_streak as nat);
    numbers_read_back(snapshot.command_revision as nat);
    let members = status_fields(fields);
    let values = seq![
        Json::Text(server_id),
        Json::Text(phase),
        failure,
        Json::Number(snapshot.failure_streak as nat),
        retry,
        Json::Number(snapshot.command_revision as nat),
    ];
    objects_read_back(members, values);
    let server = seq![
        ("server_id"@, Json::Text(server_id)),
        ("phase"@, Json::Text(phase)),
        ("failure_category"@, failure),
        ("failure_streak"@, Json::Number(snapshot.failure_streak as nat)),
        ("retry_after_ms"@, retry),
        ("command_revision"@, Json::Number(snapshot.command_revision as nat)),
    ];
    assert(told_members(members, values) =~= server);
    let inner = object(members);
    quoted_texts_read_back("status"@);
    let members = seq![text_member("type"@, "status"@), Member { key: "server"@, json: inner }];
    let values = seq![Json::Text("status"@), Json::Object(server)];
    objects_read_back(members, values);
    assert(told_members(members, values) =~= seq![
        ("type"@, Json::Text("status"@)),
        ("server"@, Json::Object(server)),
    ]);
    lemma_success_reads_back(object(members), Json::Object(told_members(members, values)));
}

/// The answer to a request for the status of a server says in which phase the server is, what
/// failed last and how often in a row, after how many milliseconds it may be tried again, never
/// too early and less than one too late, and how many changes have been admitted.
pub proof fn statuses_say_the_lifecycle(
    server_id: Seq<char>,
    snapshot: LifecycleStatusSnapshot,
    now: Nanos,
) -> (milliseconds: nat)
    requires
        retry_can_be_told(snapshot, now),
    ensures
        snapshot.retry_at matches Some(retry_at) ==> if retry_at <= now {
            milliseconds == 0
        } else {
            (milliseconds - 1) * 1_000_000 < retry_at - now <= milliseconds * 1_000_000
        },
        json_of(status_document(snapshot_fields(server_id, snapshot, now))) == Some(
            Json::Object(
                seq![
                    ("type"@, Json::Text("success"@)),
                    (
                        "result"@,
                        Json::Object(
                            seq![
                                ("type"@, Json::Text("status"@)),
                                (
                                    "server"@,
                                    Json::Object(
                                        seq![
                                            ("server_id"@, Json::Text(server_id)),
                                            (
                                                "phase"@,
                                                Json::Text(
                                                    match snapshot.phase {
                                                        ServerPhase::Reconciling => "reconciling"@,
                                                        ServerPhase::Stopped => "stopped"@,
                                                        ServerPhase::Starting => "starting"@,
                                                        ServerPhase::Running => "running"@,
                                                        ServerPhase::Stopping => "stopping"@,
                                                        ServerPhase::Cooldown => "cooldown"@,
                                                        ServerPhase::External => "external"@,
                                                        ServerPhase::Conflict => "conflict"@,
                                                    },
                                                ),
                                            ),
                                            (
                                                "failure_category"@,
                                                match snapshot.failure {
                                                    None => Json::Nothing,
                                                    Some(FailureCategory::LaunchFailed) => Json::Text(
                                                        "launch_failed"@,
                                                    ),
                                                    Some(FailureCategory::StartupTimedOut) => Json::Text(
                                                        "startup_timed_out"@,
                                                    ),
                                                    Some(FailureCategory::ExitedBeforeReady) => Json::Text(
                                                        "exited_before_ready"@,
                                                    ),
                                                    Some(FailureCategory::ExitedUnexpectedly) => Json::Text(
                                                        "exited_unexpectedly"@,
                                                    ),
                                                },
                                            ),
                                            (
                                                "failure_streak"@,
                                                Json::Number(snapshot.failure_streak as nat),
                                            ),
                                            (
                                                "retry_after_ms"@,
                                                match snapshot.retry_at {
                                                    None => Json::Nothing,
                                                    Some(_) => Json::Number(milliseconds),
                                                },
                                            ),
                                            (
                                                "command_revision"@,
                                                Json::Number(snapshot.command_revision as nat),
                                            ),
                                        ],
                                    ),
                                ),
                            ],
                        ),
                    ),
                ],
            ),
        ),
{
    let fields = snapshot_fields(server_id, snapshot, now);
    let failure = match fields.failure_category {
        Some(category) => Json::Text(category.name()),
        None => Json::Nothing,
    };
    let retry = match fields.retry_after_ms {
        Some(milliseconds) => Json::Number(milliseconds as nat),
        None => Json::Nothing,
    };
    lemma_status_reads_back(server_id, snapshot, now, fields.phase.name(), failure, retry);
    match snapshot.retry_at {
        Some(retry_at) => milliseconds_until(retry_at, now) as nat,
        None => 0,
    }
}

/// The answer to an admitted request says which change was admitted for which server under which
/// identifier, how many changes have been admitted with it, and whether anything is left to do.
pub proof fn admissions_are_told(success: SuccessView)
    ensures
        json_of(operation_document(operation_fields(success))) == Some(
            Json::Object(
                seq![
                    ("type"@, Json::Text("success"@)),
                    (
                        "result"@,
                        Json::Object(
                            seq![
                                ("type"@, Json::Text("operation"@)),
                                ("server_id"@, Json::Text(success.server_id)),
                                (
                                    "operation"@,
                                    Json::Text(
                                        match success.operation {
                                            MutationOperation::Start => "start"@,
                                            MutationOperation::Stop => "stop"@,
                                            MutationOperation::Restart => "restart"@,
                                        },
                                    ),
                                ),
                                ("request_id"@, Json::Text(success.request_id)),
                                (
                                    "command_revision"@,
                                    Json::Number(success.command_revision as nat),
                                ),
                                (
                                    "disposition"@,
                                    Json::Text(
                                        match success.disposition {
                                            MutationDisposition::Accepted => "accepted"@,
                                            MutationDisposition::AlreadySatisfied => {
                                                "already_satisfied"@
                                            },
                                        },
                                    ),
                                ),
                            ],
                        ),
                    ),
                ],
            ),
        ),
{
    let fields = operation_fields(success);
    quoted_texts_read_back("operation"@);
    quoted_texts_read_back(fields.server_id);
    quoted_texts_read_back(fields.operation);
    quoted_texts_read_back(fields.request_id);
    numbers_read_back(fields.command_revision as nat);
    quoted_texts_read_back(fields.disposition);
    let members = seq![
        text_member("type"@, "operation"@),
        text_member("server_id"@, fields.server_id),
        text_member("operation"@, fields.operation),
        text_member("request_id"@, fields.request_id),
        number_member("command_revision"@, fields.command_revision as nat),
        text_member("disposition"@, fields.disposition),
    ];
    let values = seq![
        Json::Text("operation"@),
        Json::Text(fields.server_id),
        Json::Text(fields.operation),
        Json::Text(fields.request_id),
        Json::Number(fields.command_revision as nat),
        Json::Text(fields.disposition),
    ];
    objects_read_back(members, values);
    assert(told_members(members, values) =~= seq![
        ("type"@, Json::Text("operation"@)),
        ("server_id"@, Json::Text(fields.server_id)),
        ("operation"@, Json::Text(fields.operation)),
        ("request_id"@, Json::Text(fields.request_id)),
        ("command_revision"@, Json::Number(fields.command_revision as nat)),
        ("disposition"@, Json::Text(fields.disposition)),
    ]);
    lemma_success_reads_back(object(members), Json::Object(told_members(members, values)));
}

/// A refusal says its code and what it means.
proof fn lemma_error_reads_back(code: WireErrorCode)
    ensures
        json_of(error_document(code)) == Some(
            Json::Object(
                seq![
                    ("type"@, Json::Text("error"@)),
                    (
                        "error"@,
                        Json::Object(
                            seq![
                                ("code"@, Json::Text(code.name())),
                                ("message"@, Json::Text(code.meaning())),
                            ],
                        ),
                    ),
                ],
            ),
        ),
{
    quoted_texts_read_back(code.name());
    quoted_texts_read_back(code.meaning());
    let members = seq![text_member("code"@, code.name()), text_member("message"@, code.meaning())];
    let values = seq![Json::Text(code.name()), Json::Text(code.meaning())];
    objects_read_back(members, values);
    assert(told_members(members, values) =~= seq![
        ("code"@, Json::Text(code.name())),
        ("message"@, Json::Text(code.meaning())),
    ]);
    let inner = object(members);
    let fields = told_members(members, values);
    quoted_texts_read_back("error"@);
    let members = seq![text_member("type"@, "error"@), Member { key: "error"@, json: inner }];
    let values = seq![Json::Text("error"@), Json::Object(fields)];
    objects_read_back(members, values);
    assert(told_members(members, values) =~= seq![
        ("type"@, Json::Text("error"@)),
        ("error"@, Json::Object(fields)),
    ]);
}

/// A refusal of the supervisor says why the change was refused.
pub proof fn refusals_say_why(error: MutationError)
    ensures
        ({
            let (code, meaning) = match error {
                MutationError::OperationRejected => ("operation_rejected"@, "operation rejected"@),
                MutationError::ExternalBackendNotOwned => (
                    "external_backend_not_owned"@,
                    "external backend is not owned"@,
                ),
                MutationError::ConflictingBackendEvidence => (
                    "conflicting_backend_evidence"@,
                    "backend evidence conflicts"@,
                ),
                MutationError::OperationInProgress => (
                    "operation_in_progress"@,
                    "operation in progress"@,
                ),
                MutationError::StaleCommandRevision => (
                    "stale_command_revision"@,
                    "command revision is stale"@,
                ),
                MutationError::RequestIdConflict => (
                    "request_id_conflict"@,
                    "request ID conflicts"@,
                ),
                MutationError::InternalFailure => ("internal_failure"@, "internal failure"@),
            };
            json_of(error_document(mutation_code(error))) == Some(
                Json::Object(
                    seq![
                        ("type"@, Json::Text("error"@)),
                        (
                            "error"@,
                            Json::Object(
                                seq![
                                    ("code"@, Json::Text(code)),
                                    ("message"@, Json::Text(meaning)),
                                ],
                            ),
                        ),
                    ],
                ),
            )
        }),
{
    lemma_error_reads_back(mutation_code(error));
}

/// A refusal of the daemon itself says why the request was refused.
pub proof fn daemon_refusals_say_why(code: WireErrorCode)
    ensures
        code == WireErrorCode::MalformedRequest ==> code.name() == "malformed_request"@
            && code.meaning() == "malformed request"@,
        code == WireErrorCode::UnsupportedProtocolVersion ==> code.name()
            == "unsupported_protocol_version"@ && code.meaning()
            == "unsupported control protocol version"@,
        code == WireErrorCode::UnsupportedOperation ==> code.name() == "unsupported_operation"@
            && code.meaning() == "unsupported operation"@,
        code == WireErrorCode::UnknownServerId ==> code.name() == "unknown_server_id"@
            && code.meaning() == "unknown server ID"@,
        code == WireErrorCode::CommandQueueFull ==> code.name() == "command_queue_full"@
            && code.meaning() == "command queue is full"@,
        code == WireErrorCode::InternalFailure ==> code.name() == "internal_failure"@
            && code.meaning() == "internal failure"@,
        json_of(error_document(code)) == Some(
            Json::Object(
                seq![
                    ("type"@, Json::Text("error"@)),
                    (
                        "error"@,
                        Json::Object(
                            seq![
                                ("code"@, Json::Text(code.name())),
                                ("message"@, Json::Text(code.meaning())),
                            ],
                        ),
                    ),
                ],
            ),
        ),
{
    lemma_error_reads_back(code);
}

/// A submission says the change by its name, with its server, its request and the revision that
/// its client has seen.
pub proof fn submissions_say_what_is_asked(
    operation: ClientMutationOperation,
    server_id: Seq<char>,
    request_id: Seq<char>,
    revision: u64,
)
    ensures
        json_of(submission_document(operation, server_id, request_id, revision)) == Some(
            Json::Object(
                seq![
                    (
                        "type"@,
                        Json::Text(
                            match operation {
                                ClientMutationOperation::Start => "start"@,
                                ClientMutationOperation::Stop => "stop"@,
                                ClientMutationOperation::Restart => "restart"@,
                            },
                        ),
                    ),
                    ("server_id"@, Json::Text(server_id)),
                    ("request_id"@, Json::Text(request_id)),
                    ("expected_command_revision"@, Json::Number(revision as nat)),
                ],
            ),
        ),
{
    change_requests_say_what_is_asked(operation.name(), server_id, request_id, revision);
}

} // verus!
