//! The configuration: its rules, its paths, its secrets, and what is prepared from it.

use mcservernap::config::hosts::{
    listener_endpoint, target_endpoint, validate_hostname, validate_listener, validate_target,
    CanonicalHost, HostText, IpAddress, IpLiteral, ListenerSchema, TargetSchema,
};
use mcservernap::config::icon::{load_server_icon, MAX_ICON_FILE_SIZE};
use mcservernap::config::paths::{
    accept_configuration, configuration_path, invalid_configuration_text, program_kind,
    resolve_config_path, resolve_program, resolve_working_directory, ConfigurationRead, PathBase,
    PathLookup, PathName, ProgramKind,
};
use mcservernap::config::prepare::{
    prepare_document, prepare_rcon, prepare_timeouts, secret_names, EnvironmentValue, ServerFiles,
};
use mcservernap::config::schema::{
    inspect_schema_version, judge_schema_version, validate_document, validate_endpoints,
    validate_environment_name, validate_server_id, CommandSchema, ConfigDocument, RconSchema,
    SecondsSetting, ServerSchema, StyledTextSchema, TimeoutsSchema,
};
use mcservernap::minecraft::version::MinecraftVersion;
use tokio::sync::Semaphore;

fn v4(text: &str, octets: [u8; 4]) -> HostText {
    HostText {
        text: text.to_owned(),
        literal: Ok(IpLiteral {
            address: IpAddress::V4(u32::from_be_bytes(octets)),
            text: text.to_owned(),
        }),
    }
}

fn v6(text: &str, address: u128) -> HostText {
    HostText {
        text: text.to_owned(),
        literal: Ok(IpLiteral {
            address: IpAddress::V6(address),
            text: text.to_owned(),
        }),
    }
}

fn name(text: &str) -> HostText {
    HostText {
        text: text.to_owned(),
        literal: Err("invalid IP address syntax".to_owned()),
    }
}

fn loopback() -> HostText {
    v4("127.0.0.1", [127, 0, 0, 1])
}

fn seconds(seconds: u64) -> SecondsSetting {
    SecondsSetting {
        seconds,
        representable: true,
    }
}

fn styled(text: &str, color: &str) -> StyledTextSchema {
    StyledTextSchema {
        text: text.to_owned(),
        color: color.to_owned(),
        bold: true,
    }
}

fn test_rcon(port: u16, password_env: &str) -> RconSchema {
    RconSchema {
        target: TargetSchema {
            host: loopback(),
            port,
        },
        password_env: password_env.to_owned(),
    }
}

fn test_timeouts() -> TimeoutsSchema {
    TimeoutsSchema {
        poll_interval_seconds: seconds(60),
        idle_timeout_seconds: seconds(600),
        startup_timeout_seconds: seconds(600),
        retry_interval_seconds: seconds(2),
        command_timeout_seconds: seconds(10),
        shutdown_timeout_seconds: seconds(30),
        handshake_timeout_seconds: seconds(5),
        proxy_connect_timeout_seconds: seconds(10),
    }
}

fn server(server_id: &str, listener_port: u16, backend_port: u16) -> ServerSchema {
    ServerSchema {
        server_id: server_id.to_owned(),
        minecraft_version: MinecraftVersion::from_name("26.2").unwrap(),
        icon_path: None,
        listener: ListenerSchema {
            address: loopback(),
            port: listener_port,
        },
        backend: TargetSchema {
            host: loopback(),
            port: backend_port,
        },
        command: CommandSchema {
            program: "java".to_owned(),
            arguments: vec![
                "-jar".to_owned(),
                "server.jar".to_owned(),
                "argument with spaces".to_owned(),
            ],
            working_directory: ".".to_owned(),
        },
        timeouts: test_timeouts(),
        motd: styled("Sleeping", "aqua"),
        startup_message: styled("Starting", "light_purple"),
        rcon: None,
    }
}

fn complete_config(max_connections: usize, rcon: bool) -> ConfigDocument {
    let mut survival = server("survival", 25_565, 25_566);
    if rcon {
        survival.rcon = Some(test_rcon(25_575, "TEST_RCON_PASSWORD"));
    }
    ConfigDocument {
        max_connections,
        servers: vec![survival],
    }
}

fn two_server_config() -> ConfigDocument {
    ConfigDocument {
        max_connections: 1,
        servers: vec![
            server("creative", 25_567, 25_568),
            server("survival", 25_565, 25_566),
        ],
    }
}

fn path_name(shown: &str) -> PathName {
    PathName {
        encoded: shown.as_bytes().to_vec(),
        shown: shown.to_owned(),
    }
}

fn files(directory: &str) -> ServerFiles {
    ServerFiles {
        working_directory: Ok(path_name(directory)),
        program: Ok(path_name("java")),
        icon: None,
        password: EnvironmentValue::Text("secret".to_owned()),
    }
}

fn png(width: u32, height: u32) -> Vec<u8> {
    let mut output = std::io::Cursor::new(Vec::new());
    image::DynamicImage::new_rgba8(width, height)
        .write_to(&mut output, image::ImageFormat::Png)
        .unwrap();
    output.into_inner()
}

fn icon_dimensions(url: &str) -> (u32, u32) {
    let encoded = url.strip_prefix("data:image/png;base64,").unwrap();
    let bytes =
        base64::Engine::decode(&base64::engine::general_purpose::STANDARD, encoded).unwrap();
    image::ImageReader::with_format(std::io::Cursor::new(bytes), image::ImageFormat::Png)
        .into_dimensions()
        .unwrap()
}

#[test]
fn accepts_complete_schema_with_optional_rcon_present_or_absent() {
    for rcon in [false, true] {
        let document = complete_config(512, rcon);
        assert!(validate_document(&document).is_ok());
        let prepared = prepare_document(&document, &vec![files("/srv/survival")])
            .ok()
            .expect("schema v3 should prepare");
        assert_eq!(prepared.servers.len(), 1);
        assert_eq!(prepared.max_connections, 512);
        assert_eq!(prepared.servers[0].context.id(), "survival");
        assert_eq!(
            prepared.servers[0].runtime.supervisor.rcon.is_some(),
            rcon
        );
    }
}

#[test]
fn schema_version_is_checked_before_complete_deserialization() {
    for contents in [
        "max_connections = 1",
        "schema_version = 2\nunknown = true",
        "schema_version = 4",
    ] {
        let error = inspect_schema_version(contents).expect_err("version must be rejected");
        assert!(error.contains("schema_version"));
        assert!(error.contains("expected 3"));
    }
}

#[test]
fn schema_versions_have_exact_verdicts() {
    assert_eq!(inspect_schema_version("schema_version = 3"), Ok(()));
    assert_eq!(
        inspect_schema_version("schema_version = -7"),
        Err("unsupported schema_version -7; expected 3".to_owned())
    );
    assert_eq!(
        inspect_schema_version("schema_version = \"3\""),
        Err("unsupported schema_version: missing or non-integer; expected 3".to_owned())
    );
    assert!(inspect_schema_version("schema_version = [")
        .unwrap_err()
        .starts_with("configuration is not valid TOML: "));
    assert_eq!(judge_schema_version(Ok(Some(3))), Ok(()));
    assert_eq!(
        judge_schema_version(Err("line 1".to_owned())),
        Err("configuration is not valid TOML: line 1".to_owned())
    );
}

#[test]
fn rejects_empty_servers_and_invalid_ids() {
    let empty = ConfigDocument {
        max_connections: 1,
        servers: Vec::new(),
    };
    assert!(validate_document(&empty).is_err());
    for id in ["", "Upper", "-start", "end-", "two--parts", "under_score"] {
        let expected = id != "two--parts";
        assert_eq!(validate_server_id(id).is_err(), expected, "{id}");
    }
    assert_eq!(
        validate_server_id("Up\"per"),
        Err(
            "invalid server ID \"Up\\\"per\"; expected nonempty lowercase ASCII kebab case"
                .to_owned()
        )
    );
}

#[test]
fn validates_connection_limit_protocol_bounds() {
    for (value, accepted) in [
        (0, false),
        (Semaphore::MAX_PERMITS, true),
        (Semaphore::MAX_PERMITS + 1, false),
    ] {
        let document = complete_config(value, false);
        assert_eq!(validate_document(&document).is_ok(), accepted);
    }
    assert_eq!(
        validate_document(&complete_config(0, false)),
        Err(format!(
            "max_connections must be between 1 and {}",
            Semaphore::MAX_PERMITS
        ))
    );
}

#[test]
fn missing_configuration_is_actionable_and_creates_nothing() {
    let message = accept_configuration("/srv/cfg.toml", ConfigurationRead::Missing)
        .expect_err("missing configuration must fail");
    assert!(message.contains("schema-v3"));
    assert!(message.contains("config.example.toml"));
    assert!(message.contains("/srv/cfg.toml"));
}

#[test]
fn configurations_are_read_or_refused() {
    assert_eq!(
        accept_configuration(
            "cfg.toml",
            ConfigurationRead::Contents("schema_version = 3".to_owned())
        ),
        Ok("schema_version = 3".to_owned())
    );
    assert_eq!(
        accept_configuration(
            "cfg.toml",
            ConfigurationRead::Contents("schema_version = 2".to_owned())
        ),
        Err(
            "invalid configuration at cfg.toml: unsupported schema_version 2; expected 3"
                .to_owned()
        )
    );
    assert_eq!(
        accept_configuration(
            "cfg.toml",
            ConfigurationRead::Unreadable("permission denied".to_owned())
        ),
        Err("failed to read configuration at cfg.toml: permission denied".to_owned())
    );
    assert_eq!(
        invalid_configuration_text("cfg.toml", "bad"),
        "invalid configuration at cfg.toml: bad"
    );
    assert_eq!(
        configuration_path(false, "cfg.toml", false, false).unwrap_err(),
        "configuration path base must be absolute"
    );
    assert_eq!(
        configuration_path(true, "cfg.toml", false, false),
        Ok(PathBase::Below)
    );
    assert_eq!(
        configuration_path(true, "/cfg.toml", true, false),
        Ok(PathBase::Itself)
    );
}

#[test]
fn resolves_paths_from_configuration_directory_and_preserves_bare_program_and_arguments() {
    let document = complete_config(1, false);
    assert_eq!(
        program_kind("survival", "java", false, false),
        Ok(ProgramKind::Bare)
    );
    assert_eq!(
        resolve_config_path(".", false, false, "working_directory"),
        Ok(PathBase::Below)
    );
    let prepared = prepare_document(&document, &vec![files("/srv/survival")])
        .ok()
        .unwrap();
    let launch = &prepared.servers[0].runtime.supervisor.launch;
    assert_eq!(launch.program.encoded, b"java");
    assert_eq!(
        launch.arguments,
        ["-jar", "server.jar", "argument with spaces"].map(str::to_owned)
    );
    assert_eq!(launch.working_directory.encoded, b"/srv/survival");
    assert!(launch.removed_environment.is_empty());
}

#[test]
fn paths_are_relative_absolute_or_ambiguous() {
    let ambiguous =
        "icon_path must not use a Windows drive-relative or root-relative path".to_owned();
    for (path, absolute, windows, expected) in [
        ("icons/a.png", false, false, Ok(PathBase::Below)),
        ("/icons/a.png", true, false, Ok(PathBase::Itself)),
        ("C:a.png", false, false, Err(ambiguous.clone())),
        ("C:", false, false, Err(ambiguous.clone())),
        ("C:/a.png", false, false, Ok(PathBase::Below)),
        ("C:\\a.png", true, true, Ok(PathBase::Itself)),
        ("\\a.png", false, true, Err(ambiguous.clone())),
        ("/a.png", false, true, Err(ambiguous.clone())),
        ("\\\\host\\share", true, true, Ok(PathBase::Itself)),
        ("//host/share", true, true, Ok(PathBase::Itself)),
        ("1:a.png", false, true, Ok(PathBase::Below)),
    ] {
        assert_eq!(
            resolve_config_path(path, absolute, windows, "icon_path"),
            expected,
            "{path}"
        );
    }
    assert_eq!(
        program_kind("survival", "", false, false).unwrap_err(),
        "[server=survival] command.program must not be empty"
    );
    assert_eq!(
        program_kind("survival", "./run.sh", false, false),
        Ok(ProgramKind::File(PathBase::Below))
    );
    assert_eq!(
        program_kind("survival", "C:java", false, false).unwrap_err(),
        "[server=survival] invalid command.program: command.program must not use a Windows \
         drive-relative or root-relative path"
    );
}

#[test]
fn endpoint_validation_rejects_normalized_duplicates_and_listener_loops() {
    let mut servers = vec![
        server("creative", 25_567, 25_566),
        server("survival", 25_565, 25_566),
    ];
    let error = validate_endpoints(&servers).expect_err("duplicate backends must fail");
    assert!(error.contains("survival"));
    assert!(error.contains("creative"));

    servers[0].backend.port = 25_567;
    servers[0].backend.host = name("LOCALHOST");
    servers[0].listener.port = 25_567;
    assert!(validate_endpoints(&servers).is_err());
}

#[test]
fn endpoint_conflicts_name_both_sides() {
    let shared = vec![
        server("creative", 25_565, 25_568),
        server("survival", 25_565, 25_566),
    ];
    assert_eq!(
        validate_endpoints(&shared).unwrap_err(),
        "endpoint conflict: [server=creative] listener and [server=survival] listener both own \
         port 25565 on overlapping addresses"
    );
    let mut twice = vec![server("survival", 25_565, 25_566)];
    twice[0].rcon = Some(test_rcon(25_566, "SECRET"));
    assert_eq!(
        validate_endpoints(&twice).unwrap_err(),
        "endpoint conflict: [server=survival] backend and [server=survival] rcon resolve to the \
         same endpoint"
    );
    let looping = vec![server("survival", 25_565, 25_565)];
    assert_eq!(
        validate_endpoints(&looping).unwrap_err(),
        "endpoint conflict: [server=survival] backend may target [server=survival] listener on \
         port 25565"
    );
    let mut apart = vec![
        server("creative", 25_565, 25_568),
        server("survival", 25_565, 25_566),
    ];
    apart[0].listener.address = v4("127.0.0.2", [127, 0, 0, 2]);
    assert_eq!(validate_endpoints(&apart), Ok(()));
    let mut unnamed = vec![server("survival", 25_565, 25_566)];
    unnamed[0].rcon = Some(test_rcon(25_575, "9LIVES"));
    assert_eq!(
        validate_endpoints(&unnamed).unwrap_err(),
        "[server=survival] invalid RCON password_env: password_env must match \
         [A-Za-z_][A-Za-z0-9_]*"
    );
    assert_eq!(validate_environment_name("_A9"), Ok(()));
}

#[test]
fn path_like_program_missing_workdir_icon_and_duplicate_workdirs_fail_preparation() {
    let document = complete_config(1, false);

    let missing_directory = resolve_working_directory(
        "survival",
        "/srv/missing",
        PathLookup::Unreadable("not found".to_owned()),
    );
    assert!(missing_directory.is_err());
    let mut case = files("/srv/survival");
    case.working_directory = missing_directory;
    assert!(prepare_document(&document, &vec![case]).is_err());

    let missing_program = resolve_program(
        "survival",
        "/srv/missing-java",
        PathLookup::Unreadable("not found".to_owned()),
    );
    assert!(missing_program.is_err());
    let mut case = files("/srv/survival");
    case.program = missing_program;
    assert!(prepare_document(&document, &vec![case]).is_err());

    let mut with_icon = complete_config(1, false);
    with_icon.servers[0].icon_path = Some("missing.png".to_owned());
    let mut case = files("/srv/survival");
    case.icon = Some(load_server_icon(
        "survival",
        "/srv/missing.png",
        Err("not found".to_owned()),
    ));
    assert!(prepare_document(&with_icon, &vec![case]).is_err());

    let error = prepare_document(&two_server_config(), &vec![files("/srv"), files("/srv")])
        .err()
        .unwrap();
    assert_eq!(
        error,
        "servers \"creative\" and \"survival\" use the same canonical working directory /srv"
    );
    assert!(prepare_document(
        &two_server_config(),
        &vec![files("/srv/creative"), files("/srv/survival")]
    )
    .is_ok());
}

#[test]
fn lookups_of_files_have_exact_complaints() {
    for (lookup, expected) in [
        (
            PathLookup::Unreadable("gone".to_owned()),
            Err(
                "[server=a] working_directory /w does not exist or is unreadable: gone"
                    .to_owned(),
            ),
        ),
        (
            PathLookup::OtherKind,
            Err("[server=a] working_directory /w is not a directory".to_owned()),
        ),
        (
            PathLookup::NotCanonical("loop".to_owned()),
            Err("[server=a] failed to canonicalize working_directory /w: loop".to_owned()),
        ),
        (
            PathLookup::Found(path_name("/real")),
            Ok("/real".to_owned()),
        ),
    ] {
        assert_eq!(
            resolve_working_directory("a", "/w", lookup).map(|path| path.shown),
            expected
        );
    }
    for (lookup, expected) in [
        (
            PathLookup::Unreadable("gone".to_owned()),
            "[server=a] path-like command.program /p does not resolve to a file: gone",
        ),
        (
            PathLookup::OtherKind,
            "[server=a] path-like command.program /p is not a file",
        ),
        (
            PathLookup::NotCanonical("loop".to_owned()),
            "failed to canonicalize command.program /p: loop",
        ),
    ] {
        assert_eq!(
            resolve_program("a", "/p", lookup).map(|path| path.shown),
            Err(expected.to_owned())
        );
    }
}

#[test]
fn configured_icon_is_resized_without_modifying_the_source() {
    let source = png(128, 32);
    let url = load_server_icon("survival", "/srv/icon.png", Ok(source.clone()))
        .expect("configured icon should prepare");
    assert_eq!(icon_dimensions(&url), (64, 64));
    let mut document = complete_config(1, false);
    document.servers[0].icon_path = Some("icon.png".to_owned());
    let mut case = files("/srv/survival");
    case.icon = Some(Ok(url.clone()));
    let prepared = prepare_document(&document, &vec![case]).ok().unwrap();
    assert_eq!(prepared.servers.len(), 1);
    let text = url.as_bytes();
    assert!(prepared.servers[0]
        .responder
        .status_response()
        .windows(text.len())
        .any(|window| window == text));
}

#[test]
fn icons_are_kept_resized_or_refused() {
    let kept = load_server_icon("survival", "icon.png", Ok(png(64, 64))).unwrap();
    assert_eq!(icon_dimensions(&kept), (64, 64));
    assert_eq!(
        load_server_icon("survival", "icon.png", Err("gone".to_owned())),
        Err("[server=survival] failed to read configured icon at icon.png: gone".to_owned())
    );
    assert_eq!(
        load_server_icon("survival", "icon.png", Ok(vec![0; MAX_ICON_FILE_SIZE + 1])),
        Err("[server=survival] icon at icon.png exceeds the 8 MiB limit".to_owned())
    );
    assert!(load_server_icon("survival", "icon.png", Ok(vec![1, 2, 3]))
        .unwrap_err()
        .starts_with("[server=survival] icon at icon.png is not a valid PNG: "));
    assert_eq!(
        load_server_icon("survival", "icon.png", Ok(png(4_097, 1))),
        Err(
            "[server=survival] icon at icon.png exceeds the 4096x4096 dimension limit".to_owned()
        )
    );
    let mut broken = png(64, 64);
    broken.truncate(60);
    assert!(load_server_icon("survival", "icon.png", Ok(broken)).is_err());
}

#[test]
fn absent_rcon_performs_no_environment_lookup() {
    let document = complete_config(1, false);
    let mut case = files("/srv/survival");
    case.password = EnvironmentValue::Missing;
    assert!(prepare_document(&document, &vec![case]).is_ok());
    assert!(secret_names(&document.servers).is_empty());
}

#[test]
fn secret_validation_rejects_missing_empty_nul_and_oversized_without_exposure() {
    let raw = test_rcon(25_575, "TEST_SECRET");
    let sentinel = "sentinel-secret-that-must-not-appear";
    for value in [
        EnvironmentValue::Missing,
        EnvironmentValue::Text(String::new()),
        EnvironmentValue::Text(format!("{sentinel}\0")),
        EnvironmentValue::Text("x".repeat(1_414)),
    ] {
        let message = prepare_rcon("survival", &raw, &value)
            .err()
            .expect("invalid secret must fail preparation");
        assert!(message.contains("survival"));
        assert!(message.contains("TEST_SECRET"));
        assert!(!message.contains(sentinel));
    }
}

#[test]
fn secret_validation_rejects_non_unicode_values() {
    let error = prepare_rcon(
        "survival",
        &test_rcon(25_575, "TEST_SECRET"),
        &EnvironmentValue::NotUnicode,
    )
    .err()
    .expect("non-Unicode secret must fail");
    assert!(error.contains("TEST_SECRET"));
    assert_eq!(
        error,
        "[server=survival] RCON password environment variable TEST_SECRET is not Unicode"
    );
}

#[test]
fn accepted_secrets_reach_the_console_configuration() {
    let prepared = prepare_rcon(
        "survival",
        &test_rcon(25_575, "TEST_SECRET"),
        &EnvironmentValue::Text("secret".to_owned()),
    )
    .ok()
    .unwrap();
    assert_eq!(prepared.password.expose(), "secret");
    assert_eq!(prepared.endpoint.to_string(), "127.0.0.1:25575");
}

#[test]
fn secret_names_are_sorted_and_each_child_loses_all_of_them() {
    let mut document = two_server_config();
    document.servers[0].rcon = Some(test_rcon(25_575, "ZETA"));
    document.servers[1].rcon = Some(test_rcon(25_576, "ALPHA"));
    assert_eq!(secret_names(&document.servers), ["ALPHA", "ZETA"]);
    document.servers[1].rcon = Some(test_rcon(25_576, "ZETA"));
    assert_eq!(secret_names(&document.servers), ["ZETA"]);

    let prepared = prepare_document(
        &document,
        &vec![files("/srv/creative"), files("/srv/survival")],
    )
    .ok()
    .unwrap();
    for prepared in &prepared.servers {
        assert_eq!(
            prepared.runtime.supervisor.launch.removed_environment,
            ["ZETA"]
        );
    }
}

#[test]
fn malformed_hosts_zero_ports_cross_roles_wildcards_and_dns_listener_ports_fail() {
    for (host, port) in [
        (name(""), 1),
        (name("[::1]"), 1),
        (name("bad_host"), 1),
        (name("127.0.0.1:25566"), 1),
        (name("https://host"), 1),
        (name("host"), 0),
        (v4("0.0.0.0", [0, 0, 0, 0]), 1),
        (v4("224.0.0.1", [224, 0, 0, 1]), 1),
    ] {
        let target = TargetSchema { host, port };
        assert!(validate_target(&target).is_err(), "{}", target.host.text);
    }

    let mut document = two_server_config();
    document.servers[0].rcon = Some(test_rcon(25_566, "SECRET"));
    assert!(validate_endpoints(&document.servers).is_err());

    document.servers[0].rcon = None;
    document.servers[0].backend.host = name("backend.local");
    document.servers[0].backend.port = 25_565;
    assert!(validate_endpoints(&document.servers).is_err());

    document.servers[0].backend.host = v4("127.0.0.2", [127, 0, 0, 2]);
    document.servers[0].listener.address = v4("0.0.0.0", [0, 0, 0, 0]);
    document.servers[0].listener.port = 25_565;
    assert!(validate_endpoints(&document.servers).is_err());
}

#[test]
fn wildcard_listener_rejects_targets_from_either_ip_family() {
    let mut document = complete_config(1, false);
    document.servers[0].listener.address = v6("::", 0);
    document.servers[0].listener.port = 25_566;
    document.servers[0].backend.host = loopback();
    assert!(validate_endpoints(&document.servers).is_err());

    document.servers[0].listener.address = v4("0.0.0.0", [0, 0, 0, 0]);
    document.servers[0].backend.host = v6("::1", 1);
    assert!(validate_endpoints(&document.servers).is_err());
}

#[test]
fn hosts_are_taken_in_one_form() {
    let target = |host: HostText| TargetSchema { host, port: 25_566 };
    let upper = validate_target(&target(name("Backend.LOCAL"))).unwrap();
    assert!(matches!(upper, CanonicalHost::Dns(host) if host == "backend.local"));
    assert_eq!(
        target_endpoint(&target(name("Backend.LOCAL")))
            .unwrap()
            .to_string(),
        "backend.local:25566"
    );
    assert_eq!(
        target_endpoint(&target(v6("::1", 1))).unwrap().to_string(),
        "[::1]:25566"
    );
    let listener = |address: HostText, port: u16| ListenerSchema { address, port };
    assert_eq!(
        validate_listener(&listener(loopback(), 25_565)),
        Ok(IpAddress::V4(0x7f00_0001))
    );
    assert_eq!(
        listener_endpoint(&listener(loopback(), 25_565))
            .unwrap()
            .to_string(),
        "127.0.0.1:25565"
    );
    assert_eq!(
        validate_listener(&listener(loopback(), 0)).unwrap_err(),
        "listener port must not be zero"
    );
    assert_eq!(
        validate_listener(&listener(name("[::1]"), 1)).unwrap_err(),
        "listener address must be an unbracketed numeric IP literal"
    );
    assert_eq!(
        validate_listener(&listener(name("localhost"), 1)).unwrap_err(),
        "listener address must be an unbracketed numeric IPv4 or IPv6 literal: invalid IP address \
         syntax"
    );
    for (host, accepted) in [
        ("a", true),
        ("a-b.c9", true),
        ("a..b", false),
        ("-a", false),
        ("a-", false),
        ("a.", false),
    ] {
        assert_eq!(validate_hostname(host).is_ok(), accepted, "{host}");
    }
    assert!(validate_hostname(&"a".repeat(63)).is_ok());
    assert!(validate_hostname(&"a".repeat(64)).is_err());
    assert!(validate_hostname(&["a".repeat(63).as_str(); 4].join(".")[..253]).is_ok());
    assert!(validate_hostname(&["a".repeat(63).as_str(); 4].join(".")[..254]).is_err());
    assert!(IpAddress::V6(0xff02_u128 << 112).is_multicast());
    assert!(!IpAddress::V6(1).is_multicast());
    assert!(IpAddress::V4(0).is_unspecified());
}

#[test]
fn durations_are_positive_and_representable() {
    let prepared = prepare_timeouts("survival", &test_timeouts()).ok().unwrap();
    assert_eq!(prepared.poll, 60_000_000_000);
    assert_eq!(prepared.retry, 2_000_000_000);
    assert_eq!(prepared.proxy_connect, 10_000_000_000);
    let mut zero = test_timeouts();
    zero.retry_interval_seconds = seconds(0);
    assert_eq!(
        prepare_timeouts("survival", &zero).err().unwrap(),
        "[server=survival] retry_interval_seconds must be greater than zero"
    );
    let mut long = test_timeouts();
    long.idle_timeout_seconds = SecondsSetting {
        seconds: u64::MAX,
        representable: false,
    };
    assert_eq!(
        prepare_timeouts("survival", &long).err().unwrap(),
        "[server=survival] idle_timeout_seconds is too large for Tokio timing on this platform"
    );
}

#[test]
fn server_complaints_come_before_endpoint_complaints() {
    let mut document = two_server_config();
    document.servers[1].server_id = "Survival".to_owned();
    document.servers[0].backend.port = 0;
    assert!(validate_document(&document)
        .unwrap_err()
        .starts_with("invalid server ID \"Survival\""));
    document.servers[1].server_id = "survival".to_owned();
    assert_eq!(
        validate_document(&document).unwrap_err(),
        "[server=creative] invalid backend endpoint: target port must not be zero"
    );
}
