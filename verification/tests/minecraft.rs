//! The Minecraft protocol.

use std::collections::HashSet;

use mcservernap::minecraft::packet::{
    encode_packet, encode_string_packet, frame_length, FramePrefix, PacketCursor, PacketError,
};
use mcservernap::minecraft::request::{
    parse_handshake, parse_login_start, parse_status_request, pong, read_sleeping_request,
    validate_login_intent, MAX_HANDSHAKE_PACKET_LENGTH,
};
use mcservernap::minecraft::varint::{decode_varint, varint_size, write_varint};
use mcservernap::minecraft::version::supported_names;
use mcservernap::minecraft::{
    is_normal_client_close, is_normal_disconnect, ConnectionEnvelope, HandshakeIntent,
    InitialProtocol, LoginIntent, MinecraftResponder, MinecraftResponderSettings,
    MinecraftVersion, SleepingStep, SocketFault,
};
use serde_json::Value;

const CONFLICT_DISCONNECT_MESSAGE: &str = "MCServerNap cannot safely start the server because the backend state is uncertain. Try again later or contact the server administrator.";

fn version_named(name: &str) -> MinecraftVersion {
    MinecraftVersion::from_name(name).expect("the release is supported")
}

fn frame_raw_packet(body: &[u8]) -> Vec<u8> {
    let mut packet = Vec::new();
    write_varint(
        i32::try_from(body.len()).expect("test packet length fits in i32"),
        &mut packet,
    );
    packet.extend_from_slice(body);
    packet
}

fn encode_handshake(protocol: i32, address: &str, port: u16, intent: i32) -> Vec<u8> {
    let mut packet = Vec::new();
    write_varint(0, &mut packet);
    write_varint(protocol, &mut packet);
    write_varint(
        i32::try_from(address.len()).expect("test address length fits in i32"),
        &mut packet,
    );
    packet.extend_from_slice(address.as_bytes());
    packet.extend_from_slice(&port.to_be_bytes());
    write_varint(intent, &mut packet);
    packet
}

fn envelope(packet: &[u8]) -> Result<ConnectionEnvelope, PacketError> {
    let framed = frame_raw_packet(packet);
    let header = framed.len() - packet.len();
    ConnectionEnvelope::read(framed, header)
}

fn settings(minecraft_version: MinecraftVersion) -> MinecraftResponderSettings {
    MinecraftResponderSettings {
        minecraft_version,
        sleeping_motd_text: "Server is asleep".to_owned(),
        sleeping_motd_color: "aqua".to_owned(),
        sleeping_motd_bold: true,
        startup_message_text: "Server is starting".to_owned(),
        startup_message_color: "light_purple".to_owned(),
        startup_message_bold: false,
        server_icon: None,
    }
}

fn responder_for_version(minecraft_version: MinecraftVersion) -> MinecraftResponder {
    MinecraftResponder::new(&settings(minecraft_version))
        .ok()
        .expect("test responder should be constructed")
}

fn encode_login_start_prefix(username: &str) -> Vec<u8> {
    let mut packet = Vec::new();
    write_varint(0, &mut packet);
    write_varint(
        i32::try_from(username.len()).expect("test username length fits in i32"),
        &mut packet,
    );
    packet.extend_from_slice(username.as_bytes());
    packet
}

fn encode_required_uuid_login_start(username: &str, uuid: [u8; 16]) -> Vec<u8> {
    let mut packet = encode_login_start_prefix(username);
    packet.extend_from_slice(&uuid);
    packet
}

fn encode_optional_uuid_login_start(username: &str, uuid: Option<[u8; 16]>) -> Vec<u8> {
    let mut packet = encode_login_start_prefix(username);
    packet.push(u8::from(uuid.is_some()));
    if let Some(uuid) = uuid {
        packet.extend_from_slice(&uuid);
    }
    packet
}

fn packet_json(framed: &[u8]) -> Value {
    let (length, length_bytes) = decode_varint(framed).expect("frame length");
    assert_eq!(
        usize::try_from(length).expect("positive frame length"),
        framed.len() - length_bytes
    );
    let mut cursor = PacketCursor::new(&framed[length_bytes..]);
    assert_eq!(cursor.read_varint().expect("packet ID"), 0);
    let json = cursor.read_string(32_767).expect("packet JSON");
    cursor
        .ensure_finished()
        .expect("packet should have no trailing data");
    serde_json::from_str(json).expect("valid JSON")
}

#[test]
fn varint_matches_protocol_examples() {
    let examples: &[(i32, &[u8])] = &[
        (0, &[0x00]),
        (1, &[0x01]),
        (127, &[0x7f]),
        (128, &[0x80, 0x01]),
        (25565, &[0xdd, 0xc7, 0x01]),
        (i32::MAX, &[0xff, 0xff, 0xff, 0xff, 0x07]),
        (-1, &[0xff, 0xff, 0xff, 0xff, 0x0f]),
        (i32::MIN, &[0x80, 0x80, 0x80, 0x80, 0x08]),
    ];

    for &(value, expected) in examples {
        let mut encoded = Vec::new();
        write_varint(value, &mut encoded);
        assert_eq!(encoded, expected);
        assert_eq!(varint_size(value), expected.len());
        assert_eq!(decode_varint(expected).expect("valid VarInt").0, value);
    }
    assert!(decode_varint(&[0x80, 0x80]).is_err());
    assert!(decode_varint(&[0x80, 0x80, 0x80, 0x80, 0x80, 0x01]).is_err());
}

#[test]
fn status_response_advertises_the_configured_version() {
    for minecraft_version in MinecraftVersion::supported() {
        let responder = responder_for_version(minecraft_version);
        let value = packet_json(responder.status_response());
        assert_eq!(value["version"]["protocol"], minecraft_version.protocol());
        assert_eq!(value["version"]["name"], minecraft_version.name());
    }
}

#[test]
fn conflict_disconnect_is_fixed_and_red() {
    let responder = responder_for_version(MinecraftVersion::latest());
    let component = packet_json(responder.conflict_disconnect());
    assert_eq!(component["text"], CONFLICT_DISCONNECT_MESSAGE);
    assert_eq!(component["color"], "red");
    assert_eq!(component.as_object().expect("JSON object").len(), 2);
}

#[test]
fn notices_show_the_configured_texts() {
    let responder = responder_for_version(MinecraftVersion::latest());
    let startup = packet_json(responder.login_disconnect());
    assert_eq!(startup["text"], "Server is starting");
    assert_eq!(startup["color"], "light_purple");
    assert_eq!(startup["bold"], false);
    let status = packet_json(responder.status_response());
    assert_eq!(status["description"]["text"], "Server is asleep");
    assert_eq!(status["description"]["color"], "aqua");
    assert_eq!(status["description"]["bold"], true);
    assert!(status.get("favicon").is_none());

    let mut with_icon = settings(MinecraftVersion::latest());
    with_icon.server_icon = Some("data:image/png;base64,AAAA".to_owned());
    let responder = MinecraftResponder::new(&with_icon).ok().unwrap();
    assert_eq!(
        packet_json(responder.status_response())["favicon"],
        "data:image/png;base64,AAAA"
    );
    let mut too_long = settings(MinecraftVersion::latest());
    too_long.startup_message_text = "x".repeat(40_000);
    assert!(MinecraftResponder::new(&too_long).is_err());
}

#[test]
fn transfer_intent_follows_the_initial_protocol() {
    for minecraft_version in MinecraftVersion::supported() {
        let result = validate_login_intent(minecraft_version, LoginIntent::Transfer);
        assert_eq!(
            result.is_ok(),
            minecraft_version.initial_protocol() == InitialProtocol::RequiredUuidAndTransfer,
            "unexpected transfer support for {}",
            minecraft_version.name()
        );
    }
}

#[test]
fn required_uuid_login_start_rejects_missing_or_trailing_data() {
    let valid = encode_required_uuid_login_start("player", [9; 16]);
    for minecraft_version in MinecraftVersion::supported()
        .into_iter()
        .filter(|version| version.initial_protocol() != InitialProtocol::OptionalUuid)
    {
        assert!(parse_login_start(&valid, minecraft_version).is_ok());

        let mut missing_uuid = valid.clone();
        missing_uuid.pop();
        assert!(parse_login_start(&missing_uuid, minecraft_version).is_err());

        let mut trailing = valid.clone();
        trailing.push(0);
        assert!(parse_login_start(&trailing, minecraft_version).is_err());
    }
}

#[test]
fn optional_uuid_login_start_accepts_present_or_absent_uuid() {
    let minecraft_version = version_named("1.20.1");
    let without_uuid = encode_optional_uuid_login_start("player", None);
    let with_uuid = encode_optional_uuid_login_start("player", Some([9; 16]));
    assert!(parse_login_start(&without_uuid, minecraft_version).is_ok());
    assert!(parse_login_start(&with_uuid, minecraft_version).is_ok());

    let mut invalid_boolean = without_uuid;
    *invalid_boolean.last_mut().expect("packet contains Boolean") = 2;
    assert!(parse_login_start(&invalid_boolean, minecraft_version).is_err());

    let missing_optional_flag = encode_login_start_prefix("player");
    assert!(parse_login_start(&missing_optional_flag, minecraft_version).is_err());
}

#[test]
fn catalogue_is_ordered_and_unique() {
    let versions = MinecraftVersion::supported();
    let first = versions.first().expect("first version");
    let last = versions.last().expect("last version");
    assert_eq!((first.name(), first.protocol()), ("1.20.1", 763));
    assert_eq!((last.name(), last.protocol()), ("26.2", 776));

    let names = versions
        .iter()
        .map(|version| version.name())
        .collect::<HashSet<_>>();
    assert_eq!(names.len(), versions.len());

    assert!(versions
        .windows(2)
        .all(|pair| pair[0].protocol() <= pair[1].protocol()));
}

#[test]
fn catalogue_assigns_initial_protocols_by_protocol_number() {
    for version in MinecraftVersion::supported() {
        match version.initial_protocol() {
            InitialProtocol::OptionalUuid => assert_eq!(version.protocol(), 763),
            InitialProtocol::RequiredUuid => {
                assert!((764..=765).contains(&version.protocol()));
            }
            InitialProtocol::RequiredUuidAndTransfer => {
                assert!(version.protocol() >= 766);
            }
        }
    }
}

#[test]
fn every_release_is_found_by_its_name() {
    for version in MinecraftVersion::supported() {
        let found = MinecraftVersion::from_name(version.name()).expect("the name is known");
        assert_eq!(found.name(), version.name());
        assert_eq!(found.protocol(), version.protocol());
    }
    let names = supported_names();
    assert!(names.starts_with("1.20.1, "));
    assert!(names.ends_with(", 26.2"));
}

#[test]
fn every_release_roundtrips_through_toml() {
    for minecraft_version in MinecraftVersion::supported() {
        let mut value = toml::Table::new();
        value.insert(
            "minecraft_version".to_owned(),
            toml::Value::String(minecraft_version.name().to_owned()),
        );
        let serialized = toml::to_string(&value).expect("version should serialize");
        let deserialized: toml::Table =
            toml::from_str(&serialized).expect("version should deserialize");
        let name = deserialized["minecraft_version"].as_str().unwrap();
        assert_eq!(
            MinecraftVersion::from_name(name),
            Some(minecraft_version)
        );
    }
}

#[test]
fn latest_release_is_the_default_profile() {
    assert_eq!(MinecraftVersion::latest().name(), "26.2");
    assert!(MinecraftVersion::from_name("1.20").is_none());
}

#[test]
fn envelopes_carry_routing_metadata_and_every_intent() {
    let address = "play.example.test";
    for (number, intent) in [
        (1, HandshakeIntent::Status),
        (2, HandshakeIntent::Login),
        (3, HandshakeIntent::Transfer),
        (4, HandshakeIntent::Unknown(4)),
    ] {
        let packet = encode_handshake(1_234, address, 25_565, number);
        let connection = envelope(&packet).ok().expect("the handshake is valid");
        assert_eq!(connection.protocol_version(), 1_234);
        assert_eq!(connection.requested_address(), address);
        assert_eq!(connection.requested_port(), 25_565);
        assert_eq!(connection.intent(), intent);
        assert_eq!(connection.framed_handshake(), frame_raw_packet(&packet));
    }
    let embedded = envelope(&encode_handshake(774, "host\0FML3\0", 1, 2)).ok().unwrap();
    assert_eq!(embedded.requested_address(), "host\0FML3\0");
}

#[test]
fn address_limits_count_utf16_units() {
    assert!(parse_handshake(&encode_handshake(774, &"a".repeat(255), 1, 2)).is_ok());
    assert!(parse_handshake(&encode_handshake(774, &"a".repeat(256), 1, 2)).is_err());
    let pairs = "\u{1f600}".repeat(127);
    assert!(parse_handshake(&encode_handshake(774, &pairs, 1, 2)).is_ok());
    let too_many = "\u{1f600}".repeat(128);
    assert!(parse_handshake(&encode_handshake(774, &too_many, 1, 2)).is_err());
}

#[test]
fn malformed_handshakes_are_refused() {
    let valid = encode_handshake(774, "localhost", 25_565, 1);
    let mut trailing = valid.clone();
    trailing.push(0);
    assert!(parse_handshake(&trailing).is_err());
    assert!(parse_handshake(&valid[..valid.len() - 1]).is_err());
    let mut other_packet = valid;
    other_packet[0] = 1;
    assert!(parse_handshake(&other_packet).is_err());
}

#[test]
fn frame_prefixes_are_bounded() {
    assert!(matches!(
        frame_length(&[0x80], MAX_HANDSHAKE_PACKET_LENGTH),
        FramePrefix::Incomplete
    ));
    assert!(matches!(
        frame_length(&[0x80, 0x08], MAX_HANDSHAKE_PACKET_LENGTH),
        FramePrefix::Body {
            header: 2,
            length: 1_024
        }
    ));
    assert!(matches!(
        frame_length(&[0x81, 0x08], MAX_HANDSHAKE_PACKET_LENGTH),
        FramePrefix::TooLong { length: 1_025 }
    ));
}

#[test]
fn sleeping_requests_follow_the_intent() {
    let version = MinecraftVersion::latest();
    let request = |protocol, intent| {
        read_sleeping_request(
            &envelope(&encode_handshake(protocol, "localhost", 25_565, intent))
                .ok()
                .unwrap(),
            version,
        )
    };
    assert!(matches!(request(1_234, 1), Ok(SleepingStep::ReadStatusRequest)));
    assert!(matches!(
        request(version.protocol(), 2),
        Ok(SleepingStep::ReadLoginStart {
            intent: LoginIntent::Login
        })
    ));
    assert!(matches!(
        request(version.protocol(), 3),
        Ok(SleepingStep::ReadLoginStart {
            intent: LoginIntent::Transfer
        })
    ));
    assert!(matches!(
        request(version.protocol() + 1, 2),
        Ok(SleepingStep::Unsupported { .. })
    ));
    assert!(matches!(request(1_234, 9), Ok(SleepingStep::Ignore)));
    let older = version_named("1.20.1");
    let refused = read_sleeping_request(
        &envelope(&encode_handshake(763, "localhost", 25_565, 3))
            .ok()
            .unwrap(),
        older,
    );
    assert!(refused.is_err());
}

#[test]
fn pings_are_echoed() {
    let mut ping = Vec::new();
    write_varint(1, &mut ping);
    ping.extend_from_slice(&0x0102_0304_0506_0708_i64.to_be_bytes());
    assert_eq!(
        pong(&ping).ok().unwrap(),
        [9, 1, 1, 2, 3, 4, 5, 6, 7, 8]
    );
    ping.push(0);
    assert!(pong(&ping).is_err());
    assert!(parse_status_request(&[0]).is_ok());
    assert!(parse_status_request(&[0, 0]).is_err());
    assert!(parse_status_request(&[1]).is_err());
}

#[test]
fn packets_and_strings_read_back() {
    assert_eq!(encode_packet(7, &[1, 2]).ok().unwrap(), [3, 7, 1, 2]);
    assert_eq!(
        encode_string_packet(0, "hé").ok().unwrap(),
        [5, 0, 3, b'h', 0xc3, 0xa9]
    );
    let mut cursor = PacketCursor::new(&[3, b'h', 0xc3, 0xa9, 1, 0xff]);
    assert_eq!(cursor.read_string(2).ok().unwrap(), "hé");
    assert!(cursor.read_bool().ok().unwrap());
    assert_eq!(cursor.remaining(), 1);
    assert!(cursor.read_bool().is_err());
    let mut cursor = PacketCursor::new(&[2, 0xc3, 0x28]);
    assert!(cursor.read_string(16).is_err());
}

#[test]
fn socket_faults_are_classified() {
    assert!(is_normal_client_close(SocketFault::UnexpectedEof));
    assert!(is_normal_disconnect(SocketFault::ConnectionReset));
    assert!(!is_normal_disconnect(SocketFault::UnexpectedEof));
    assert!(!is_normal_client_close(SocketFault::Other));
    assert!(!is_normal_disconnect(SocketFault::Other));
}
