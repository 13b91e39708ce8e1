//! The remote console protocol.

use mcservernap::rcon::{
    authentication_step, decode_payload, encode_packet, packet_length, validate_body,
    AuthenticationStep, CommandResponse, CommandStep, Packet, RconError, RconSecret, RequestIds,
    AUTH_RESPONSE, EXEC_COMMAND, MAX_COMMAND_BYTES, RESPONSE_VALUE,
};

fn packet(id: i32, kind: i32, body: &[u8]) -> Packet {
    Packet {
        id,
        kind,
        body: body.to_vec(),
    }
}

#[test]
fn packet_encoding_matches_source_rcon_layout() {
    let encoded = encode_packet(42, EXEC_COMMAND, b"list").expect("packet should encode");
    assert_eq!(i32::from_le_bytes(encoded[0..4].try_into().unwrap()), 14);

    let decoded = decode_payload(&encoded[4..]).expect("payload should decode");
    assert_eq!(decoded.id, 42);
    assert_eq!(decoded.kind, EXEC_COMMAND);
    assert_eq!(decoded.body, b"list");
}

#[test]
fn rejects_invalid_packet_terminators() {
    let mut encoded = encode_packet(1, RESPONSE_VALUE, b"ok").expect("packet should encode");
    *encoded.last_mut().expect("packet is nonempty") = 1;
    assert!(decode_payload(&encoded[4..]).is_err());
}

#[test]
fn rejects_embedded_nul_commands() {
    assert!(validate_body("say hi\0stop", "command").is_err());
}

#[test]
fn negative_numbers_survive_packets() {
    let encoded = encode_packet(-7, AUTH_RESPONSE, b"").unwrap();
    assert_eq!(
        encoded,
        [10, 0, 0, 0, 0xf9, 0xff, 0xff, 0xff, 2, 0, 0, 0, 0, 0]
    );
    assert_eq!(decode_payload(&encoded[4..]).unwrap().id, -7);
}

#[test]
fn bodies_are_limited() {
    assert_eq!(
        validate_body(&"x".repeat(MAX_COMMAND_BYTES + 1), "RCON command").unwrap_err(),
        "RCON command exceeds the 1413-byte Minecraft limit"
    );
    assert_eq!(
        validate_body("a\0", "RCON password").unwrap_err(),
        "RCON password contains a NUL byte"
    );
    assert!(validate_body(&"x".repeat(MAX_COMMAND_BYTES), "RCON command").is_ok());
}

#[test]
fn packet_lengths_are_limited() {
    assert_eq!(packet_length(9), Err(RconError::LengthBelowMinimum));
    assert_eq!(packet_length(-1), Err(RconError::LengthBelowMinimum));
    assert_eq!(packet_length(10), Ok(10));
    assert_eq!(packet_length(4_194_304), Ok(4_194_304));
    assert_eq!(packet_length(4_194_305), Err(RconError::PacketLimit));
    assert_eq!(
        RconError::PacketLimit.message(),
        "RCON packet exceeds the 4194304-byte limit"
    );
    assert!(decode_payload(&[0; 9]).is_err());
}

#[test]
fn login_waits_for_its_answer() {
    assert_eq!(
        authentication_step(&packet(1, RESPONSE_VALUE, b""), 1),
        AuthenticationStep::Continue
    );
    assert_eq!(
        authentication_step(&packet(1, AUTH_RESPONSE, b""), 1),
        AuthenticationStep::Authenticated
    );
    assert_eq!(
        authentication_step(&packet(-1, AUTH_RESPONSE, b""), 1),
        AuthenticationStep::Failed(RconError::AuthenticationFailed)
    );
    assert_eq!(
        authentication_step(&packet(2, AUTH_RESPONSE, b""), 1),
        AuthenticationStep::Failed(RconError::UnexpectedAuthenticationId)
    );
}

#[test]
fn multipart_answers_are_collected() {
    let mut response = CommandResponse::new(2, 3);
    assert!(matches!(
        response.accept(&packet(2, RESPONSE_VALUE, b"There are ")),
        CommandStep::Continue
    ));
    assert!(matches!(
        response.accept(&packet(
            2,
            RESPONSE_VALUE,
            b"2 of a max of 20 players online: a, b"
        )),
        CommandStep::Continue
    ));
    assert!(matches!(
        response.accept(&packet(3, RESPONSE_VALUE, b"")),
        CommandStep::Complete(text) if text == "There are 2 of a max of 20 players online: a, b"
    ));
}

#[test]
fn strange_answers_are_refused() {
    let mut response = CommandResponse::new(2, 3);
    assert!(matches!(
        response.accept(&packet(9, RESPONSE_VALUE, b"")),
        CommandStep::Failed(RconError::UnexpectedResponse)
    ));
    assert!(matches!(
        response.accept(&packet(2, RESPONSE_VALUE, &[0; 1_048_577])),
        CommandStep::Failed(RconError::ResponseLimit)
    ));
    assert!(matches!(
        response.accept(&packet(2, RESPONSE_VALUE, &[0xff])),
        CommandStep::Continue
    ));
    assert!(matches!(
        response.accept(&packet(3, RESPONSE_VALUE, b"")),
        CommandStep::Failed(RconError::InvalidUtf8(fault))
            if RconError::InvalidUtf8(fault).message()
                == "RCON response is not valid UTF-8: \
                    invalid utf-8 sequence of 1 bytes from index 0"
    ));
}

#[test]
fn request_identifiers_stay_positive() {
    let mut ids = RequestIds::new();
    let first = ids.take();
    let second = ids.take();
    assert!(first > 0 && second > 0 && first != second);
    let mut last = RequestIds {
        next_request_id: i32::MAX,
    };
    assert_eq!(last.take(), i32::MAX);
    assert_eq!(last.take(), 1);
}

#[test]
fn secrets_expose_what_they_hold() {
    assert_eq!(
        RconSecret::new("secret".to_owned()).ok().unwrap().expose(),
        "secret"
    );
    assert!(RconSecret::new(String::new()).is_err());
    assert!(RconSecret::new("a\0".to_owned()).is_err());
    assert!(RconSecret::new("x".repeat(1_414)).is_err());
}

#[test]
fn refused_passwords_stay_hidden() {
    let refusal = |password: String| RconSecret::new(password).err().unwrap();
    assert_eq!(refusal(String::new()), "RCON password must not be empty");
    assert_eq!(
        refusal("hunter2\0".to_owned()),
        "RCON password contains a NUL byte"
    );
    assert_eq!(
        refusal("hunter2".repeat(202)),
        "RCON password exceeds the 1413-byte Minecraft limit"
    );
}
