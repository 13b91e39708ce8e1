//! The control protocol: frames, answers, and what a client makes of them.

use mcservernap::control::client::{
    client_exchange, list, mutate, read_only_frame, status, submit, ReceivedResponse,
    SuccessResult,
};
use mcservernap::control::exchange::{
    constant_error_frame, mutation_error_frame, operation_frame, reply_frame, retry_milliseconds,
    serve_exchange, serve_mutation, status_frame, ExchangeStep, MailboxPlace, ReceivedRequest,
};
use mcservernap::control::frame::{encode_frame, frame_version, payload_length, BoundedJson};
use mcservernap::control::registry::{sort_texts, ActivationFault, PreparedRegistry};
use mcservernap::control::wire::{
    write_request, ClientMutationOperation, Request, RequestDocument, RequestDocumentOperation,
    RequestId, WireErrorCode, WireFailureCategory, WirePhase, MAX_CONTROL_EXCHANGES,
    PROTOCOL_VERSION,
};
use mcservernap::control::{
    combine_control_results, validate_mutation_success, validate_server_list,
    AdmissionCancellation, ClientError, OperationStatus, ReceivedOperation, ReceivedStatus,
};
use mcservernap::supervisor::admission::{
    AdmissionGate, MutationDisposition, MutationError, MutationOperation, MutationSuccess,
};
use mcservernap::supervisor::lifecycle::{
    FailureCategory, LifecycleState, ReconciliationEvidence, ServerPhase,
};
use serde::de::{Deserialize, Deserializer, Error as _, MapAccess, Visitor};
use serde_json::Value;
use std::fmt;
use std::sync::Arc;
use tokio::sync::{watch, Semaphore};

const REQUEST_ID: &str = "11111111111111111111111111111111";

fn raw_frame(version: u16, body: &[u8]) -> Vec<u8> {
    let payload_length = u32::try_from(body.len() + 2).unwrap();
    let mut frame = Vec::with_capacity(body.len() + 6);
    frame.extend_from_slice(&payload_length.to_be_bytes());
    frame.extend_from_slice(&version.to_be_bytes());
    frame.extend_from_slice(body);
    frame
}

fn frame_body(frame: &[u8]) -> &[u8] {
    let payload_length = u32::from_be_bytes(frame[..4].try_into().unwrap()) as usize;
    assert_eq!(frame.len(), payload_length + 4);
    assert_eq!(
        u16::from_be_bytes(frame[4..6].try_into().unwrap()),
        PROTOCOL_VERSION
    );
    &frame[6..]
}

fn frame_value(frame: &[u8]) -> Value {
    serde_json::from_slice(frame_body(frame)).unwrap()
}

fn response_code(frame: &[u8]) -> String {
    let value = frame_value(frame);
    assert_eq!(value["type"], "error");
    value["error"]["code"].as_str().unwrap().to_owned()
}

fn lifecycle(
    phase: ServerPhase,
    failure: Option<FailureCategory>,
    failure_streak: u32,
    retry_at: Option<u128>,
) -> LifecycleState {
    LifecycleState {
        phase,
        command_revision: 0,
        launch_generation: 0,
        failure,
        failure_streak,
        phase_started_at: 0,
        retry_at,
        reconciliation_evidence: ReconciliationEvidence::Absent,
    }
}

fn received_operation(
    operation: ClientMutationOperation,
    revision: u64,
    disposition: &str,
) -> ReceivedOperation {
    ReceivedOperation {
        server_id: "survival".to_owned(),
        operation,
        request_id: REQUEST_ID.to_owned(),
        command_revision: revision,
        disposition: disposition.to_owned(),
    }
}

fn validate_test_operation(
    operation: ReceivedOperation,
    expected_operation: ClientMutationOperation,
    expected_revision: Option<u64>,
) -> Result<OperationStatus, ClientError> {
    validate_mutation_success(
        operation,
        "survival",
        REQUEST_ID,
        expected_operation,
        expected_revision,
    )
}

#[test]
fn start_and_stop_accept_only_their_two_valid_dispositions() {
    for operation in [
        ClientMutationOperation::Start,
        ClientMutationOperation::Stop,
    ] {
        for disposition in ["accepted", "already_satisfied"] {
            let status = validate_test_operation(
                received_operation(operation, 13, disposition),
                operation,
                Some(13),
            )
            .ok()
            .expect("start and stop should accept both contractual dispositions");
            assert_eq!(status.operation(), operation.as_str());
            assert_eq!(status.command_revision(), 13);
            assert_eq!(status.disposition(), disposition);
        }
        assert!(matches!(
            validate_test_operation(
                received_operation(operation, 13, "unknown"),
                operation,
                Some(13),
            ),
            Err(ClientError::SubmissionUncertain)
        ));
    }
}

#[test]
fn mutation_success_requires_the_exact_next_revision() {
    for revision in [11, 12, 14, u64::MAX] {
        assert!(matches!(
            validate_test_operation(
                received_operation(ClientMutationOperation::Start, revision, "accepted"),
                ClientMutationOperation::Start,
                Some(13),
            ),
            Err(ClientError::SubmissionUncertain)
        ));
    }
    assert!(matches!(
        validate_test_operation(
            received_operation(ClientMutationOperation::Start, u64::MAX, "accepted"),
            ClientMutationOperation::Start,
            None,
        ),
        Err(ClientError::SubmissionUncertain)
    ));
}

#[test]
fn mismatched_returned_operation_is_submission_uncertain() {
    let returned = received_operation(ClientMutationOperation::Stop, 13, "accepted");
    assert!(matches!(
        validate_test_operation(returned, ClientMutationOperation::Start, Some(13)),
        Err(ClientError::SubmissionUncertain)
    ));
}

#[test]
fn mutation_success_server_and_request_identity_remain_strict() {
    let mut cases = Vec::new();

    let mut wrong_server = received_operation(ClientMutationOperation::Start, 13, "accepted");
    wrong_server.server_id = "creative".to_owned();
    cases.push(wrong_server);

    let mut wrong_request = received_operation(ClientMutationOperation::Start, 13, "accepted");
    wrong_request.request_id = "22222222222222222222222222222222".to_owned();
    cases.push(wrong_request);

    for operation in cases {
        assert!(matches!(
            validate_test_operation(operation, ClientMutationOperation::Start, Some(13)),
            Err(ClientError::SubmissionUncertain)
        ));
    }
}

fn combine_test_results(
    accept_failure: Option<&str>,
    endpoint_failure: Option<&str>,
    client_panics: &[&str],
) -> (Result<(), String>, Vec<String>) {
    let result = |failure: Option<&str>| match failure {
        Some(message) => Err(message.to_owned()),
        None => Ok(()),
    };
    let combined = combine_control_results(
        result(accept_failure),
        result(endpoint_failure),
        client_panics
            .iter()
            .map(|message| (*message).to_owned())
            .collect(),
    );
    (combined.primary, combined.secondary)
}

#[test]
fn control_result_combination_succeeds_when_every_outcome_succeeds() {
    let (result, secondary) = combine_test_results(None, None, &[]);
    assert!(result.is_ok());
    assert!(secondary.is_empty());
}

#[test]
fn each_individual_control_failure_is_returned_without_secondary_reporting() {
    for (accept, endpoint, panics, expected) in [
        (Some("accept"), None, &[][..], "accept"),
        (None, Some("endpoint"), &[][..], "endpoint"),
        (None, None, &["client"][..], "client"),
    ] {
        let (result, secondary) = combine_test_results(accept, endpoint, panics);
        assert_eq!(result.unwrap_err(), expected);
        assert!(secondary.is_empty());
    }
}

#[test]
fn control_result_combination_preserves_precedence_and_reports_later_failures() {
    let (result, secondary) = combine_test_results(
        Some("accept"),
        Some("endpoint"),
        &["client one", "client two"],
    );
    assert_eq!(result.unwrap_err(), "accept");
    assert_eq!(secondary, ["endpoint", "client one", "client two"]);

    let (result, secondary) = combine_test_results(None, Some("endpoint"), &["client"]);
    assert_eq!(result.unwrap_err(), "endpoint");
    assert_eq!(secondary, ["client"]);
}

#[test]
fn client_accepts_nonempty_strictly_sorted_server_lists() {
    assert_eq!(
        validate_server_list(vec!["survival".to_owned()]).unwrap(),
        ["survival"]
    );
    assert_eq!(
        validate_server_list(vec!["creative".to_owned(), "survival".to_owned()]).unwrap(),
        ["creative", "survival"]
    );
}

#[test]
fn client_rejects_empty_duplicate_and_unsorted_server_lists() {
    for servers in [
        Vec::new(),
        vec!["survival".to_owned(), "survival".to_owned()],
        vec!["survival".to_owned(), "creative".to_owned()],
    ] {
        assert!(matches!(
            validate_server_list(servers),
            Err(ClientError::DaemonUnavailable)
        ));
    }
}

#[test]
fn frame_bytes_are_exact_big_endian_protocol_v2() {
    let frame = encode_frame(&write_request(&Request::List)).unwrap();
    let mut expected = vec![0, 0, 0, 17, 0, 2];
    expected.extend_from_slice(br#"{"type":"list"}"#);
    assert_eq!(frame, expected);

    for (operation, body) in [
        (
            ClientMutationOperation::Start,
            br#"{"type":"start","server_id":"survival","request_id":"11111111111111111111111111111111","expected_command_revision":12}"#.as_slice(),
        ),
        (
            ClientMutationOperation::Stop,
            br#"{"type":"stop","server_id":"survival","request_id":"11111111111111111111111111111111","expected_command_revision":12}"#.as_slice(),
        ),
        (
            ClientMutationOperation::Restart,
            br#"{"type":"restart","server_id":"survival","request_id":"11111111111111111111111111111111","expected_command_revision":12}"#.as_slice(),
        ),
    ] {
        let request = operation.request(
            "survival".to_owned(),
            RequestId::new(REQUEST_ID.to_owned()).unwrap(),
            12,
        );
        assert_eq!(
            encode_frame(&write_request(&request)).unwrap(),
            raw_frame(PROTOCOL_VERSION, body)
        );
    }
    assert!(WireErrorCode::all().contains(&WireErrorCode::UnsupportedOperation));
    assert_eq!(
        response_code(&constant_error_frame(WireErrorCode::UnsupportedOperation)),
        WireErrorCode::UnsupportedOperation.as_str()
    );
}

#[test]
fn bounded_json_rejects_before_copying_an_oversized_chunk() {
    let mut writer = BoundedJson::new(8);
    assert!(writer.write(&[0; 9]).is_err());
    assert!(writer.bytes().is_empty());
}

#[test]
fn bounded_json_takes_chunks_up_to_its_limit() {
    let mut writer = BoundedJson::new(8);
    assert_eq!(writer.write(&[1; 5]).unwrap(), 5);
    assert!(writer.write(&[2; 4]).is_err());
    assert_eq!(writer.write(&[3; 3]).unwrap(), 3);
    assert_eq!(writer.into_inner(), [1, 1, 1, 1, 1, 3, 3, 3]);
}

#[test]
fn restart_client_validation_requires_exact_identity_disposition_and_next_revision() {
    let valid = received_operation(ClientMutationOperation::Restart, 13, "accepted");
    assert_eq!(
        validate_test_operation(valid, ClientMutationOperation::Restart, Some(13))
            .ok()
            .unwrap()
            .operation(),
        "restart"
    );

    for corrupt in [
        "server_id",
        "operation",
        "request_id",
        "revision",
        "disposition",
    ] {
        let mut invalid = received_operation(ClientMutationOperation::Restart, 13, "accepted");
        match corrupt {
            "server_id" => invalid.server_id = "creative".to_owned(),
            "operation" => invalid.operation = ClientMutationOperation::Stop,
            "request_id" => invalid.request_id = "22222222222222222222222222222222".to_owned(),
            "revision" => invalid.command_revision = 12,
            "disposition" => invalid.disposition = "already_satisfied".to_owned(),
            _ => unreachable!(),
        }
        assert!(matches!(
            validate_test_operation(invalid, ClientMutationOperation::Restart, Some(13)),
            Err(ClientError::SubmissionUncertain)
        ));
    }
}

#[test]
fn registry_list_is_sorted_and_preencoded_bytes_are_shared() {
    let ids = vec!["survival".to_owned(), "creative".to_owned()];
    let prepared = PreparedRegistry::new(&ids).unwrap();
    let filed = vec!["creative".to_owned(), "survival".to_owned()];
    assert!(prepared.activate(&filed, &filed).is_ok());
    let (first, second) = (prepared.list_response(), prepared.list_response());
    assert!(std::ptr::eq(first, second));
    let value = frame_value(prepared.list_response());
    assert_eq!(value["type"], "success");
    assert_eq!(value["result"]["type"], "list");
    let servers: Vec<&str> = value["result"]["servers"]
        .as_array()
        .unwrap()
        .iter()
        .map(|server| server.as_str().unwrap())
        .collect();
    assert_eq!(servers, ["creative", "survival"]);
}

#[test]
fn preflight_rejects_oversized_list_and_worst_case_status() {
    let list_ids = vec![
        format!("a{}", "x".repeat(33_000)),
        format!("b{}", "x".repeat(33_000)),
    ];
    let list_error = PreparedRegistry::new(&list_ids).err().unwrap();
    assert!(list_error.contains("control protocol v2 response limit"));
    assert!(list_error.contains("complete server list"));

    let status_id = format!("a{}", "x".repeat(65_350));
    let status_error = PreparedRegistry::new(&vec![status_id]).err().unwrap();
    assert!(status_error.contains("control protocol v2 response limit"));
    assert!(status_error.contains("worst-case server status"));
}

#[test]
fn registry_needs_a_server_and_matching_handles() {
    assert_eq!(
        PreparedRegistry::new(&Vec::new()).err().unwrap(),
        "control registry requires at least one configured server"
    );
    let ids = vec!["creative".to_owned(), "survival".to_owned()];
    let swapped = vec!["survival".to_owned(), "creative".to_owned()];
    let prepared = PreparedRegistry::new(&ids).unwrap();
    assert_eq!(
        prepared.activate(&vec!["creative".to_owned()], &ids),
        Err(ActivationFault::MissingServer)
    );
    assert_eq!(
        prepared.activate(&ids, &swapped),
        Err(ActivationFault::IdentityMismatch)
    );
    assert_eq!(
        ActivationFault::IdentityMismatch.message(),
        "control registry handle identity does not match its server ID"
    );
}

#[test]
fn sorting_keeps_every_text() {
    let items: Vec<String> = ["b", "a", "ab", "", "a", "é"]
        .iter()
        .map(|text| (*text).to_owned())
        .collect();
    assert_eq!(sort_texts(&items), ["", "a", "a", "ab", "b", "é"]);
}

#[test]
fn lifecycle_phase_and_failure_mappings_are_exact() {
    let phases = [
        (ServerPhase::Reconciling, "reconciling"),
        (ServerPhase::Stopped, "stopped"),
        (ServerPhase::Starting, "starting"),
        (ServerPhase::Running, "running"),
        (ServerPhase::Stopping, "stopping"),
        (ServerPhase::Cooldown, "cooldown"),
        (ServerPhase::External, "external"),
        (ServerPhase::Conflict, "conflict"),
    ];
    for (internal, wire) in phases {
        assert_eq!(WirePhase::from(internal).as_str(), wire);
    }

    let failures = [
        (FailureCategory::LaunchFailed, "launch_failed"),
        (FailureCategory::StartupTimedOut, "startup_timed_out"),
        (FailureCategory::ExitedBeforeReady, "exited_before_ready"),
        (FailureCategory::ExitedUnexpectedly, "exited_unexpectedly"),
    ];
    for (internal, wire) in failures {
        assert_eq!(WireFailureCategory::from(internal).as_str(), wire);
    }
}

#[test]
fn status_always_contains_exact_allowlisted_fields_and_explicit_nulls() {
    let snapshot = lifecycle(ServerPhase::Stopped, None, 0, None).status_snapshot();
    let frame = status_frame("survival", snapshot, 1_000).unwrap();
    let value = frame_value(&frame);
    let server = value["result"]["server"].as_object().unwrap();
    let mut keys = server.keys().map(String::as_str).collect::<Vec<_>>();
    keys.sort_unstable();
    assert_eq!(
        keys,
        [
            "command_revision",
            "failure_category",
            "failure_streak",
            "phase",
            "retry_after_ms",
            "server_id"
        ]
    );
    assert!(server["failure_category"].is_null());
    assert!(server["retry_after_ms"].is_null());
}

#[test]
fn status_bytes_are_exact() {
    let snapshot = lifecycle(
        ServerPhase::Cooldown,
        Some(FailureCategory::LaunchFailed),
        2,
        Some(9_400_000_000),
    )
    .status_snapshot();
    let frame = status_frame("survival", snapshot, 1_000_000_000).unwrap();
    assert_eq!(
        frame_body(&frame),
        br#"{"type":"success","result":{"type":"status","server":{"server_id":"survival","phase":"cooldown","failure_category":"launch_failed","failure_streak":2,"retry_after_ms":8400,"command_revision":0}}}"#
    );
}

#[test]
fn retry_milliseconds_ceil_and_expire_at_zero() {
    let now: u128 = 5_000_000_000;
    assert_eq!(retry_milliseconds(now, now), 0);
    assert_eq!(retry_milliseconds(now - 1_000_000_000, now), 0);
    assert_eq!(retry_milliseconds(now + 1, now), 1);
    assert_eq!(retry_milliseconds(now + 1_000_000, now), 1);
    assert_eq!(retry_milliseconds(now + 1_000_000 + 1, now), 2);
}

#[test]
fn encoded_responses_exclude_unallowlisted_runtime_details() {
    let sentinels = [
        "sentinel-password",
        "sentinel-argument",
        "sentinel-working-directory",
        "127.0.0.1:25566",
        "127.0.0.1:25575",
    ];
    let snapshot = lifecycle(
        ServerPhase::Cooldown,
        Some(FailureCategory::LaunchFailed),
        2,
        Some(10_000_000_000),
    )
    .status_snapshot();
    let encoded = status_frame("survival", snapshot, 0).unwrap();
    let text = String::from_utf8(frame_body(&encoded).to_vec()).unwrap();
    for sentinel in sentinels {
        assert!(!text.contains(sentinel));
    }
    for forbidden_field in [
        "ownership",
        "backend_authority",
        "player_count",
        "process_id",
        "launch_generation",
        "phase_started_at",
    ] {
        assert!(!text.contains(forbidden_field));
    }
}

#[test]
fn request_ids_are_strict() {
    for valid in [
        "11111111111111111111111111111111",
        "22222222222222222222222222222222",
        "abcdefabcdefabcdefabcdefabcdefab",
    ] {
        assert_eq!(
            RequestId::new(valid.to_owned()).unwrap().into_string(),
            valid
        );
    }
    for request_id in [
        "1111111111111111111111111111111",
        "111111111111111111111111111111111",
        "ABCDEFABCDEFABCDEFABCDEFABCDEFAB",
        "gggggggggggggggggggggggggggggggg",
        "11111111-1111-1111-1111-111111111111",
    ] {
        assert!(RequestId::new(request_id.to_owned()).is_none());
    }
}

#[test]
fn request_documents_carry_exactly_the_fields_of_their_operation() {
    let document = |operation, server_id: Option<&str>, request_id: Option<&str>, revision| {
        RequestDocument {
            operation,
            server_id: server_id.map(str::to_owned),
            request_id: request_id.map(str::to_owned),
            expected_command_revision: revision,
        }
        .into_request()
    };
    assert!(matches!(
        document(RequestDocumentOperation::List, None, None, None),
        Some(Request::List)
    ));
    assert!(document(RequestDocumentOperation::List, Some("a"), None, None).is_none());
    assert!(matches!(
        document(RequestDocumentOperation::Status, Some("a"), None, None),
        Some(Request::Status { server_id }) if server_id == "a"
    ));
    assert!(document(RequestDocumentOperation::Status, None, None, None).is_none());
    assert!(matches!(
        document(
            RequestDocumentOperation::Restart,
            Some("a"),
            Some(REQUEST_ID),
            Some(4)
        ),
        Some(Request::Restart { expected_command_revision: 4, .. })
    ));
    assert!(document(
        RequestDocumentOperation::Start,
        Some("a"),
        Some(REQUEST_ID),
        None
    )
    .is_none());
    assert!(document(
        RequestDocumentOperation::Stop,
        Some("a"),
        Some("short"),
        Some(4)
    )
    .is_none());
}

#[test]
fn frame_headers_are_bounded_before_the_body_is_read() {
    for length in [0_u32, 1, 65_537] {
        assert!(payload_length(&length.to_be_bytes()).is_err());
    }
    let length = payload_length(&65_536_u32.to_be_bytes()).unwrap();
    assert_eq!(length, 65_536);
    assert_eq!(frame_version(&[0, 2], length), (2, 65_534));
    assert_eq!(frame_version(&[0, 1], 2).0, 1);
}

#[test]
fn exchanges_dispatch_or_refuse_every_request() {
    assert!(matches!(
        serve_exchange(ReceivedRequest::BadFrame),
        ExchangeStep::Refuse(WireErrorCode::MalformedRequest)
    ));
    assert!(matches!(
        serve_exchange(ReceivedRequest::BadDocument),
        ExchangeStep::Refuse(WireErrorCode::MalformedRequest)
    ));
    assert!(matches!(
        serve_exchange(ReceivedRequest::OtherVersion),
        ExchangeStep::Refuse(WireErrorCode::UnsupportedProtocolVersion)
    ));
    assert!(matches!(
        serve_exchange(ReceivedRequest::Request(Request::List)),
        ExchangeStep::List
    ));
    let request = Request::Restart {
        server_id: "survival".to_owned(),
        request_id: RequestId::new(REQUEST_ID.to_owned()).unwrap(),
        expected_command_revision: 7,
    };
    assert!(matches!(
        serve_exchange(ReceivedRequest::Request(request)),
        ExchangeStep::Mutate {
            server_id,
            request_id,
            expected_command_revision: 7,
            operation: MutationOperation::Restart,
        } if server_id == "survival" && request_id == REQUEST_ID
    ));
}

#[test]
fn mailbox_refusals_have_their_own_codes() {
    assert_eq!(serve_mutation(MailboxPlace::Reserved), None);
    assert_eq!(
        serve_mutation(MailboxPlace::UnknownServer),
        Some(WireErrorCode::UnknownServerId)
    );
    assert_eq!(
        serve_mutation(MailboxPlace::Full),
        Some(WireErrorCode::CommandQueueFull)
    );
    assert_eq!(
        serve_mutation(MailboxPlace::Closed),
        Some(WireErrorCode::InternalFailure)
    );
}

#[test]
fn replies_become_frames() {
    let success = MutationSuccess {
        server_id: "survival".to_owned(),
        operation: MutationOperation::Restart,
        request_id: REQUEST_ID.to_owned(),
        command_revision: 1,
        disposition: MutationDisposition::Accepted,
    };
    let frame = operation_frame(&success).unwrap();
    assert_eq!(
        frame_body(&frame),
        br#"{"type":"success","result":{"type":"operation","server_id":"survival","operation":"restart","request_id":"11111111111111111111111111111111","command_revision":1,"disposition":"accepted"}}"#
    );
    assert_eq!(reply_frame(&Ok(success)).unwrap(), frame);
    for (error, code) in [
        (MutationError::OperationRejected, "operation_rejected"),
        (
            MutationError::ExternalBackendNotOwned,
            "external_backend_not_owned",
        ),
        (
            MutationError::ConflictingBackendEvidence,
            "conflicting_backend_evidence",
        ),
        (MutationError::OperationInProgress, "operation_in_progress"),
        (
            MutationError::StaleCommandRevision,
            "stale_command_revision",
        ),
        (MutationError::RequestIdConflict, "request_id_conflict"),
        (MutationError::InternalFailure, "internal_failure"),
    ] {
        assert_eq!(response_code(&mutation_error_frame(error)), code);
        assert_eq!(response_code(&reply_frame(&Err(error)).unwrap()), code);
    }
}

#[test]
fn client_maps_every_code() {
    for code in WireErrorCode::all() {
        let Err(error) = client_exchange(ReceivedResponse::Error(code)) else {
            panic!("wire errors must not be successful client results");
        };
        match code {
            WireErrorCode::MalformedRequest => {
                assert!(matches!(error, ClientError::DaemonUnavailable));
            }
            WireErrorCode::UnsupportedProtocolVersion => {
                assert!(matches!(error, ClientError::ProtocolMismatch));
            }
            WireErrorCode::UnknownServerId => {
                assert!(matches!(error, ClientError::UnknownServerId));
            }
            WireErrorCode::InternalFailure => {
                assert_eq!(error.to_string(), "daemon internal failure");
            }
            other => assert_eq!(error.to_string(), other.message()),
        }
    }
    assert!(matches!(
        client_exchange(ReceivedResponse::OtherVersion),
        Err(ClientError::ProtocolMismatch)
    ));
    assert!(matches!(
        client_exchange(ReceivedResponse::BadFrame),
        Err(ClientError::DaemonUnavailable)
    ));
    assert!(matches!(
        client_exchange(ReceivedResponse::BadDocument),
        Err(ClientError::DaemonUnavailable)
    ));
}

#[test]
fn client_takes_only_the_answer_it_asked_for() {
    let servers = vec!["creative".to_owned(), "survival".to_owned()];
    assert_eq!(
        list(SuccessResult::List {
            servers: servers.clone()
        })
        .unwrap(),
        servers
    );
    assert!(matches!(
        status(SuccessResult::List { servers }, "survival"),
        Err(ClientError::DaemonUnavailable)
    ));
    let received = |server_id: &str| SuccessResult::Status {
        server: ReceivedStatus {
            server_id: server_id.to_owned(),
            phase: WirePhase::Cooldown,
            failure_category: Some(WireFailureCategory::LaunchFailed),
            failure_streak: 2,
            retry_after_ms: Some(8_400),
            command_revision: 12,
        },
    };
    let Ok(shown) = status(received("survival"), "survival") else {
        panic!("the status of the server itself is accepted");
    };
    assert_eq!(shown.server_id(), "survival");
    assert_eq!(shown.phase(), "cooldown");
    assert_eq!(shown.failure_category(), Some("launch_failed"));
    assert_eq!(shown.failure_streak(), 2);
    assert_eq!(shown.retry_after_ms(), Some(8_400));
    assert_eq!(shown.command_revision(), 12);
    assert!(status(received("creative"), "survival").is_err());
    assert!(list(received("survival")).is_err());
}

#[test]
fn lost_submissions_are_uncertain() {
    let lost = mutate(
        Err(ClientError::DaemonUnavailable),
        "survival",
        REQUEST_ID,
        ClientMutationOperation::Start,
        Some(13),
    );
    assert!(matches!(lost, Err(ClientError::SubmissionUncertain)));
    let refused = mutate(
        Err(ClientError::UnknownServerId),
        "survival",
        REQUEST_ID,
        ClientMutationOperation::Start,
        Some(13),
    );
    assert!(matches!(refused, Err(ClientError::UnknownServerId)));
    let wrong_kind = mutate(
        Ok(SuccessResult::List {
            servers: vec!["survival".to_owned()],
        }),
        "survival",
        REQUEST_ID,
        ClientMutationOperation::Start,
        Some(13),
    );
    assert!(matches!(wrong_kind, Err(ClientError::SubmissionUncertain)));
}

#[test]
fn submissions_expect_the_next_revision() {
    let submission = submit(
        ClientMutationOperation::Stop,
        "survival".to_owned(),
        REQUEST_ID.to_owned(),
        12,
    )
    .ok()
    .unwrap();
    assert_eq!(submission.result_revision, Some(13));
    assert_eq!(
        frame_body(&submission.frame),
        br#"{"type":"stop","server_id":"survival","request_id":"11111111111111111111111111111111","expected_command_revision":12}"#
    );
    let last = submit(
        ClientMutationOperation::Stop,
        "survival".to_owned(),
        REQUEST_ID.to_owned(),
        u64::MAX,
    )
    .ok()
    .unwrap();
    assert_eq!(last.result_revision, None);
    let Err(error) = submit(
        ClientMutationOperation::Stop,
        "survival".to_owned(),
        "zz".to_owned(),
        12,
    ) else {
        panic!("an invalid identifier is refused");
    };
    assert_eq!(error.to_string(), "invalid request ID");
    let Err(error) = submit(
        ClientMutationOperation::Stop,
        "x".repeat(70_000),
        REQUEST_ID.to_owned(),
        12,
    ) else {
        panic!("a request that is too long is refused");
    };
    assert_eq!(error.to_string(), "failed to encode bounded JSON");
}

#[test]
fn texts_in_documents_are_escaped() {
    let frame = read_only_frame(&Request::Status {
        server_id: "a\"b\\c\n\u{1}é".to_owned(),
    })
    .ok()
    .unwrap();
    assert_eq!(
        frame_body(&frame),
        "{\"type\":\"status\",\"server_id\":\"a\\\"b\\\\c\\n\\u0001é\"}".as_bytes()
    );
}

#[test]
fn unanswered_requests_are_withdrawn() {
    let mut gate = AdmissionGate::pending();
    let cancellation = AdmissionCancellation::armed();
    assert!(cancellation.finish(&mut gate));
    assert!(gate.is_cancelled());
    assert!(!gate.is_admitted());

    let mut gate = AdmissionGate::pending();
    let mut answered = AdmissionCancellation::armed();
    answered.disarm();
    assert!(!answered.finish(&mut gate));
    assert!(!gate.is_cancelled());

    let mut gate = AdmissionGate::pending();
    assert!(gate.accept());
    assert!(!AdmissionCancellation::armed().finish(&mut gate));
    assert!(gate.is_admitted());
}

struct ParsedRequest(Request);

struct RequestVisitor;

impl<'de> Visitor<'de> for RequestVisitor {
    type Value = ParsedRequest;

    fn expecting(&self, formatter: &mut fmt::Formatter<'_>) -> fmt::Result {
        formatter.write_str("a request document")
    }

    fn visit_map<A>(self, mut map: A) -> Result<ParsedRequest, A::Error>
    where
        A: MapAccess<'de>,
    {
        let mut operation: Option<String> = None;
        let mut server_id: Option<String> = None;
        let mut request_id: Option<String> = None;
        let mut expected_command_revision: Option<u64> = None;
        while let Some(key) = map.next_key::<String>()? {
            let repeated = match key.as_str() {
                "type" => operation.replace(map.next_value()?).is_some(),
                "server_id" => server_id.replace(map.next_value()?).is_some(),
                "request_id" => request_id.replace(map.next_value()?).is_some(),
                "expected_command_revision" => expected_command_revision
                    .replace(map.next_value()?)
                    .is_some(),
                _ => return Err(A::Error::custom("unknown field")),
            };
            if repeated {
                return Err(A::Error::custom("duplicate field"));
            }
        }
        let operation = match operation.as_deref() {
            Some("list") => RequestDocumentOperation::List,
            Some("status") => RequestDocumentOperation::Status,
            Some("start") => RequestDocumentOperation::Start,
            Some("stop") => RequestDocumentOperation::Stop,
            Some("restart") => RequestDocumentOperation::Restart,
            _ => return Err(A::Error::custom("unknown operation")),
        };
        RequestDocument {
            operation,
            server_id,
            request_id,
            expected_command_revision,
        }
        .into_request()
        .map(ParsedRequest)
        .ok_or_else(|| A::Error::custom("request fields do not match the operation"))
    }
}

impl<'de> Deserialize<'de> for ParsedRequest {
    fn deserialize<D>(deserializer: D) -> Result<ParsedRequest, D::Error>
    where
        D: Deserializer<'de>,
    {
        deserializer.deserialize_map(RequestVisitor)
    }
}

#[test]
fn mutation_request_schema_and_request_ids_are_strict() {
    for (body, expected_operation) in [
        (
            br#"{"type":"start","server_id":"survival","request_id":"11111111111111111111111111111111","expected_command_revision":12}"#.as_slice(),
            "start",
        ),
        (
            br#"{"type":"stop","server_id":"survival","request_id":"22222222222222222222222222222222","expected_command_revision":12}"#.as_slice(),
            "stop",
        ),
        (
            br#"{"type":"restart","server_id":"survival","request_id":"abcdefabcdefabcdefabcdefabcdefab","expected_command_revision":12}"#.as_slice(),
            "restart",
        ),
    ] {
        let request = serde_json::from_slice::<ParsedRequest>(body).ok().unwrap().0;
        let operation = match request {
            Request::Start { .. } => "start",
            Request::Stop { .. } => "stop",
            Request::Restart { .. } => "restart",
            Request::List | Request::Status { .. } => "read_only",
        };
        assert_eq!(operation, expected_operation);
    }

    for request_id in [
        "1111111111111111111111111111111",
        "111111111111111111111111111111111",
        "ABCDEFABCDEFABCDEFABCDEFABCDEFAB",
        "gggggggggggggggggggggggggggggggg",
        "11111111-1111-1111-1111-111111111111",
    ] {
        let body = format!(
            r#"{{"type":"start","server_id":"survival","request_id":"{request_id}","expected_command_revision":0}}"#
        );
        assert!(
            serde_json::from_str::<ParsedRequest>(&body).is_err(),
            "accepted {request_id}"
        );
    }
    for body in [
        br#"{"type":"start","server_id":"survival","request_id":"11111111111111111111111111111111"}"#.as_slice(),
        br#"{"type":"stop","server_id":"survival","request_id":"11111111111111111111111111111111","expected_command_revision":0,"extra":1}"#.as_slice(),
        br#"{"type":"restart","server_id":"survival","request_id":"11111111111111111111111111111111","request_id":"11111111111111111111111111111111","expected_command_revision":0}"#.as_slice(),
    ] {
        assert!(serde_json::from_slice::<ParsedRequest>(body).is_err());
    }
}

#[test]
fn snapshot_races_never_mix_fields_from_two_watch_values() {
    let first = lifecycle(ServerPhase::Stopped, None, 0, None);
    let second = lifecycle(
        ServerPhase::Cooldown,
        Some(FailureCategory::LaunchFailed),
        2,
        Some(10_000_000_000),
    );
    let (authority, handle) = watch::channel(first);
    for index in 0..1_000 {
        authority.send_replace(if index % 2 == 0 { second } else { first });
        let snapshot = handle.borrow().status_snapshot();
        assert!(
            (snapshot.phase == ServerPhase::Stopped
                && snapshot.failure.is_none()
                && snapshot.failure_streak == 0
                && snapshot.retry_at.is_none())
                || (snapshot.phase == ServerPhase::Cooldown
                    && snapshot.failure == Some(FailureCategory::LaunchFailed)
                    && snapshot.failure_streak == 2
                    && snapshot.retry_at.is_some())
        );
    }
}

#[test]
fn thirty_two_permits_are_the_only_control_exchange_capacity() {
    let permits = Arc::new(Semaphore::new(MAX_CONTROL_EXCHANGES));
    let held = (0..MAX_CONTROL_EXCHANGES)
        .map(|_| Arc::clone(&permits).try_acquire_owned().unwrap())
        .collect::<Vec<_>>();
    assert_eq!(held.len(), 32);
    assert!(Arc::clone(&permits).try_acquire_owned().is_err());
    drop(held);
    assert_eq!(permits.available_permits(), MAX_CONTROL_EXCHANGES);
}
