//! What the command line shows, and how it identifies its requests.

use mcservernap::cli::{
    ambiguous_outcome, format_list, format_mutation_result, format_status, generate_request_id,
    generate_request_id_with, mutate_server, request_id_from_bytes, MutationStep,
};
use mcservernap::control::wire::ClientMutationOperation;
use mcservernap::control::{validate_mutation_success, ClientError, ReceivedOperation};

#[test]
fn request_id_encoding_is_exact_lowercase_hexadecimal() {
    assert_eq!(
        request_id_from_bytes([
            0x00, 0x01, 0x0f, 0x10, 0x2a, 0x7f, 0x80, 0xab, 0xcd, 0xef, 0x11, 0x22, 0x33, 0x44,
            0x55, 0xff,
        ]),
        "00010f102a7f80abcdef1122334455ff"
    );
    let generated = generate_request_id().unwrap();
    assert_eq!(generated.len(), 32);
    assert!(generated
        .bytes()
        .all(|byte| byte.is_ascii_digit() || (b'a'..=b'f').contains(&byte)));
    assert_eq!(
        generate_request_id_with(Err("entropy unavailable")),
        Err("entropy unavailable")
    );
}

#[test]
fn generated_request_ids_differ() {
    assert_ne!(generate_request_id().unwrap(), generate_request_id().unwrap());
    assert_eq!(
        generate_request_id_with::<String>(Ok([0xa5; 16])),
        Ok("a5".repeat(16))
    );
}

#[test]
fn list_and_status_human_output_is_deterministic() {
    assert_eq!(
        format_list(&vec!["creative".to_owned(), "survival".to_owned()]),
        "creative\nsurvival\n"
    );
    assert_eq!(
        format_status(
            "survival",
            "cooldown",
            Some("launch_failed"),
            2,
            Some(8_400),
            12,
        ),
        "server: survival\nphase: cooldown\nfailure: launch_failed\nfailure streak: 2\nretry after: 8.4s\ncommand revision: 12\n"
    );
    assert_eq!(
        format_status("creative", "running", None, 0, None, 0),
        "server: creative\nphase: running\nfailure streak: 0\ncommand revision: 0\n"
    );
    assert_eq!(
        format_mutation_result(
            ClientMutationOperation::Restart,
            "accepted",
            "11111111111111111111111111111111",
            13,
            "survival",
        ),
        "restart accepted (request 11111111111111111111111111111111, command revision 13). Use `mcservernap server status survival` to observe eventual state.\n"
    );
}

#[test]
fn empty_lists_show_nothing() {
    assert_eq!(format_list(&Vec::new()), "");
}

#[test]
fn mutations_are_printed_diagnosed_or_failed() {
    let accepted = validate_mutation_success(
        ReceivedOperation {
            server_id: "survival".to_owned(),
            operation: ClientMutationOperation::Stop,
            request_id: "1".repeat(32),
            command_revision: 13,
            disposition: "already_satisfied".to_owned(),
        },
        "survival",
        &"1".repeat(32),
        ClientMutationOperation::Stop,
        Some(13),
    );
    match mutate_server(ClientMutationOperation::Stop, accepted) {
        MutationStep::Print(text) => assert_eq!(
            text,
            format!(
                "stop already_satisfied (request {}, command revision 13). Use `mcservernap server status survival` to observe eventual state.\n",
                "1".repeat(32)
            )
        ),
        _ => panic!("an admitted request must be printed"),
    }
    assert!(matches!(
        mutate_server(
            ClientMutationOperation::Stop,
            Err(ClientError::SubmissionUncertain)
        ),
        MutationStep::Diagnose
    ));
    let failed = mutate_server(
        ClientMutationOperation::Stop,
        Err(ClientError::UnknownServerId),
    );
    let expected = ClientError::UnknownServerId.to_string();
    assert!(matches!(failed, MutationStep::Fail(text) if text == expected));
}

#[test]
fn ambiguous_outcomes_tell_what_is_known() {
    let text = |revision| {
        ambiguous_outcome(ClientMutationOperation::Start, "abc", 4, revision)
    };
    assert_eq!(
        text(Some(5)),
        "start submission has an ambiguous outcome (request ID abc, expected command revision 4). The current command revision is 5; that change may belong to this request or another mutation. The request was not resent."
    );
    assert_eq!(
        text(Some(4)),
        "start submission has an ambiguous outcome (request ID abc, expected command revision 4). The command revision is unchanged, but that still cannot prove absence while server-side cancellation is racing. The request was not resent."
    );
    assert_eq!(
        text(None),
        "start submission has an ambiguous outcome (request ID abc, expected command revision 4). A diagnostic status query also failed. The request was not resent."
    );
}
