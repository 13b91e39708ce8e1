//! The configuration document and the rules that it has to meet.

use vstd::prelude::*;
use vstd::string::{StringExecFns, StringSliceAdditionalSpecFns};
use vstd::utf8::{encode_utf8, encode_utf8_decode_utf8, is_ascii_chars_encode_utf8};

use crate::bytes::ascii_chars;
use crate::control::frame::{plain, plain_char};
use crate::minecraft::MinecraftVersion;
use crate::text::{append_decimal, decimal, in_context, same_text, with_context};

use super::hosts::{
    alphanumeric, is_alphanumeric, listener_address, listener_fault, one_family, same_ip_family,
    target_fault, target_host, validate_listener, validate_target, CanonicalHost, HostView,
    IpAddress, ListenerSchema, TargetSchema,
};

verus! {

/// The version of the configuration format.
pub const SCHEMA_VERSION: i64 = 3;

/// The command that launches a server.
pub struct CommandSchema {
    pub program: String,
    pub arguments: Vec<String>,
    pub working_directory: String,
}

/// A number of seconds, and whether the clock of this machine can reckon that far ahead.
#[derive(Clone, Copy, Debug, PartialEq, Eq, Structural)]
pub struct SecondsSetting {
    pub seconds: u64,
    pub representable: bool,
}

/// The times of a server.
#[derive(Clone, Copy, Debug, PartialEq, Eq, Structural)]
pub struct TimeoutsSchema {
    pub poll_interval_seconds: SecondsSetting,
    pub idle_timeout_seconds: SecondsSetting,
    pub startup_timeout_seconds: SecondsSetting,
    pub retry_interval_seconds: SecondsSetting,
    pub command_timeout_seconds: SecondsSetting,
    pub shutdown_timeout_seconds: SecondsSetting,
    pub handshake_timeout_seconds: SecondsSetting,
    pub proxy_connect_timeout_seconds: SecondsSetting,
}

/// A text with a colour.
pub struct StyledTextSchema {
    pub text: String,
    pub color: String,
    pub bold: bool,
}

/// The remote console of a server.
pub struct RconSchema {
    pub target: TargetSchema,
    pub password_env: String,
}

/// One server.
pub struct ServerSchema {
    pub server_id: String,
    pub minecraft_version: MinecraftVersion,
    pub icon_path: Option<String>,
    pub listener: ListenerSchema,
    pub backend: TargetSchema,
    pub command: CommandSchema,
    pub timeouts: TimeoutsSchema,
    pub motd: StyledTextSchema,
    pub startup_message: StyledTextSchema,
    pub rcon: Option<RconSchema>,
}

/// The whole document, with its servers in ascending order of their identifiers.
pub struct ConfigDocument {
    pub max_connections: usize,
    pub servers: Vec<ServerSchema>,
}

/// The whole number under `key` at the top of a TOML document, if there is one there, or the
/// complaint about a document that is no TOML.
pub uninterp spec fn toml_integer(contents: Seq<char>, key: Seq<char>) -> Result<
    Option<i64>,
    Seq<char>,
>;

/// Calls `toml::from_str` for a `toml::Table`, `Table::get` and `Value::as_integer`. Claimed of
/// them: what comes back depends on the document and the key alone.
#[verifier::external_body]
fn read_toml_integer(contents: &str, key: &str) -> (result: Result<Option<i64>, String>)
    ensures
        match result {
            Ok(number) => toml_integer(contents@, key@) == Ok::<Option<i64>, Seq<char>>(number),
            Err(text) => toml_integer(contents@, key@) == Err::<Option<i64>, Seq<char>>(text@),
        },
{
    toml::from_str::<toml::Table>(contents)
        .map(|table| table.get(key).and_then(toml::Value::as_integer))
        .map_err(|error| error.to_string())
}

/// A number with its sign in decimal digits.
pub open spec fn signed_decimal(number: i64) -> Seq<char> {
    if number < 0 {
        "-"@ + decimal((-number) as nat)
    } else {
        decimal(number as nat)
    }
}

/// What is wrong with the version of the format, if anything is.
pub open spec fn version_fault(found: Result<Option<i64>, Seq<char>>) -> Option<Seq<char>> {
    match found {
        Err(cause) => Some(in_context("configuration is not valid TOML"@, cause)),
        Ok(Some(version)) => if version == SCHEMA_VERSION {
            None
        } else {
            Some("unsupported schema_version "@ + signed_decimal(version) + "; expected 3"@)
        },
        Ok(None) => Some(
            "unsupported schema_version: missing or non-integer; expected 3"@,
        ),
    }
}

/// What was found at the place of the version, over characters.
pub open spec fn found_version(found: Result<Option<i64>, String>) -> Result<
    Option<i64>,
    Seq<char>,
> {
    match found {
        Ok(number) => Ok(number),
        Err(text) => Err(text@),
    }
}

/// Judges what was found at the place of the version.
pub fn judge_schema_version(found: Result<Option<i64>, String>) -> (result: Result<(), String>)
    ensures
        match version_fault(found_version(found)) {
            None => result is Ok,
            Some(text) => result matches Err(error) && error@ == text,
        },
{
    match found {
        Err(cause) => Err(with_context("configuration is not valid TOML", cause.as_str())),
        Ok(Some(version)) => {
            if version == SCHEMA_VERSION {
                return Ok(());
            }
            let mut text = "unsupported schema_version ".to_owned();
            if version < 0 {
                text.append("-");
                if version == i64::MIN {
                    append_decimal(&mut text, 9_223_372_036_854_775_808);
                } else {
                    append_decimal(&mut text, (-version) as u64);
                }
            } else {
                append_decimal(&mut text, version as u64);
            }
            text.append("; expected 3");
            assert(text@ =~= "unsupported schema_version "@ + signed_decimal(version)
                + "; expected 3"@);
            Err(text)
        },
        Ok(None) => Err(
            "unsupported schema_version: missing or non-integer; expected 3".to_owned(),
        ),
    }
}

/// Checks the version of the format before anything else of the document is looked at.
pub fn inspect_schema_version(contents: &str) -> (result: Result<(), String>)
    ensures
        match version_fault(toml_integer(contents@, "schema_version"@)) {
            None => result is Ok,
            Some(text) => result matches Err(error) && error@ == text,
        },
{
    judge_schema_version(read_toml_integer(contents, "schema_version"))
}

/// A text as `{:?}` shows it: between quotation marks, with what cannot be printed escaped.
pub uninterp spec fn shown(text: Seq<char>) -> Seq<char>;

/// Formats a text with `{:?}`. Claimed of it: the result depends on the text alone.
#[verifier::external_body]
pub(crate) fn show(text: &str) -> (result: String)
    ensures
        result@ == shown(text@),
{
    format!("{text:?}")
}

/// That a byte may stand at the ends of a server identifier.
pub open spec fn identifier_edge(byte: u8) -> bool {
    0x61 <= byte <= 0x7a || 0x30 <= byte <= 0x39
}

/// That a text is a server identifier: lower-case letters, digits and hyphens, with no hyphen at
/// either end.
pub open spec fn server_identifier(bytes: Seq<u8>) -> bool {
    &&& bytes.len() > 0
    &&& identifier_edge(bytes[0])
    &&& identifier_edge(bytes.last())
    &&& forall|i: int|
        0 <= i < bytes.len() ==> identifier_edge(#[trigger] bytes[i]) || bytes[i] == 0x2d
}

/// Whether a byte may stand at the ends of a server identifier.
fn is_identifier_edge(byte: u8) -> (yes: bool)
    ensures
        yes == identifier_edge(byte),
{
    (0x61 <= byte && byte <= 0x7a) || (0x30 <= byte && byte <= 0x39)
}

/// Whether a text is a server identifier.
pub fn is_server_identifier(server_id: &str) -> (valid: bool)
    ensures
        valid == server_identifier(encode_utf8(server_id@)),
{
    let bytes = server_id.as_bytes();
    if bytes.len() == 0 || !is_identifier_edge(bytes[0]) || !is_identifier_edge(
        bytes[bytes.len() - 1],
    ) {
        return false;
    }
    let mut i: usize = 0;
    while i < bytes.len()
        invariant
            i <= bytes@.len(),
            bytes@ == encode_utf8(server_id@),
            forall|j: int|
                0 <= j < i ==> identifier_edge(#[trigger] bytes@[j]) || bytes@[j] == 0x2d,
        decreases bytes@.len() - i,
    {
        if !is_identifier_edge(bytes[i]) && bytes[i] != 0x2d {
            assert(!(identifier_edge(bytes@[i as int]) || bytes@[i as int] == 0x2d));
            return false;
        }
        i += 1;
    }
    true
}

/// The text for something that is no server identifier.
pub open spec fn identifier_refusal(shown_id: Seq<char>) -> Seq<char> {
    "invalid server ID "@ + shown_id + "; expected nonempty lowercase ASCII kebab case"@
}

/// Checks a server identifier.
pub fn validate_server_id(server_id: &str) -> (result: Result<(), String>)
    ensures
        if server_identifier(encode_utf8(server_id@)) {
            result is Ok
        } else {
            result matches Err(error) && error@ == identifier_refusal(shown(server_id@))
        },
{
    if is_server_identifier(server_id) {
        return Ok(());
    }
    let mut text = "invalid server ID ".to_owned();
    text.append(show(server_id).as_str());
    text.append("; expected nonempty lowercase ASCII kebab case");
    Err(text)
}

/// That a byte may begin the name of an environment variable.
pub open spec fn name_start(byte: u8) -> bool {
    0x41 <= byte <= 0x5a || 0x61 <= byte <= 0x7a || byte == 0x5f
}

/// That a text is the name of an environment variable: letters, digits and underscores, with no
/// digit at the front.
pub open spec fn environment_name(bytes: Seq<u8>) -> bool {
    &&& bytes.len() > 0
    &&& name_start(bytes[0])
    &&& forall|i: int|
        1 <= i < bytes.len() ==> alphanumeric(#[trigger] bytes[i]) || bytes[i] == 0x5f
}

/// Checks the name of an environment variable.
pub fn validate_environment_name(name: &str) -> (result: Result<(), String>)
    ensures
        if environment_name(encode_utf8(name@)) {
            result is Ok
        } else {
            result matches Err(error) && error@
                == "password_env must match [A-Za-z_][A-Za-z0-9_]*"@
        },
{
    let bytes = name.as_bytes();
    let refusal = "password_env must match [A-Za-z_][A-Za-z0-9_]*";
    if bytes.len() == 0 {
        return Err(refusal.to_owned());
    }
    let first = bytes[0];
    if !((0x41 <= first && first <= 0x5a) || (0x61 <= first && first <= 0x7a) || first == 0x5f) {
        return Err(refusal.to_owned());
    }
    let mut i: usize = 1;
    while i < bytes.len()
        invariant
            1 <= i <= bytes@.len(),
            bytes@ == encode_utf8(name@),
            refusal@ == "password_env must match [A-Za-z_][A-Za-z0-9_]*"@,
            forall|j: int|
                1 <= j < i ==> alphanumeric(#[trigger] bytes@[j]) || bytes@[j] == 0x5f,
        decreases bytes@.len() - i,
    {
        if !is_alphanumeric(bytes[i]) && bytes[i] != 0x5f {
            assert(!(alphanumeric(bytes@[i as int]) || bytes@[i as int] == 0x5f));
            return Err(refusal.to_owned());
        }
        i += 1;
    }
    Ok(())
}

/// The circumstance of a complaint about a server: its identifier, then what is wrong.
pub open spec fn about_server(server_id: Seq<char>, what: Seq<char>) -> Seq<char> {
    "[server="@ + server_id + "] "@ + what
}

/// The circumstance of a complaint about a server.
pub fn server_text(server_id: &str, what: &str) -> (text: String)
    ensures
        text@ == about_server(server_id@, what@),
{
    let mut text = "[server=".to_owned();
    text.append(server_id);
    text.append("] ");
    text.append(what);
    text
}

/// A complaint about a server with its cause.
pub open spec fn server_fault(server_id: Seq<char>, what: Seq<char>, cause: Seq<char>) -> Seq<
    char,
> {
    in_context(about_server(server_id, what), cause)
}

/// A complaint about a server with its cause.
pub fn server_fault_text(server_id: &str, what: &str, cause: &str) -> (text: String)
    ensures
        text@ == server_fault(server_id@, what@, cause@),
{
    with_context(server_text(server_id, what).as_str(), cause)
}

/// The first complaint among several.
pub open spec fn first_fault(faults: Seq<Option<Seq<char>>>) -> Option<Seq<char>>
    decreases faults.len(),
{
    if faults.len() == 0 {
        None
    } else if faults[0] is Some {
        faults[0]
    } else {
        first_fault(faults.skip(1))
    }
}

/// The first complaint stands where nothing before it complains.
pub proof fn first_fault_is_first(faults: Seq<Option<Seq<char>>>, at: int)
    requires
        0 <= at <= faults.len(),
        forall|i: int| 0 <= i < at ==> faults[i] is None,
    ensures
        at == faults.len() ==> first_fault(faults) is None,
        at < faults.len() && faults[at] is Some ==> first_fault(faults) == faults[at],
    decreases faults.len(),
{
    if at > 0 {
        first_fault_is_first(faults.skip(1), at - 1);
    } else if faults.len() > 0 {
        assert(faults[0] == faults[at]);
    }
}

/// The first of two complaints.
pub open spec fn either_fault(first: Option<Seq<char>>, second: Option<Seq<char>>) -> Option<
    Seq<char>,
> {
    match first {
        Some(text) => Some(text),
        None => second,
    }
}

/// What is wrong with the endpoints of one server, taken alone.
pub open spec fn own_endpoints_fault(server: ServerSchema) -> Option<Seq<char>> {
    let id = server.server_id@;
    let listener = match listener_fault(server.listener) {
        Some(cause) => Some(server_fault(id, "invalid listener endpoint"@, cause)),
        None => None,
    };
    let backend = match target_fault(server.backend) {
        Some(cause) => Some(server_fault(id, "invalid backend endpoint"@, cause)),
        None => None,
    };
    let rcon = match server.rcon {
        Some(rcon) => match target_fault(rcon.target) {
            Some(cause) => Some(server_fault(id, "invalid RCON endpoint"@, cause)),
            None => if environment_name(encode_utf8(rcon.password_env@)) {
                None
            } else {
                Some(
                    server_fault(
                        id,
                        "invalid RCON password_env"@,
                        "password_env must match [A-Za-z_][A-Za-z0-9_]*"@,
                    ),
                )
            },
        },
        None => None,
    };
    either_fault(listener, either_fault(backend, rcon))
}

/// A listener with the server that it belongs to.
pub struct ListenerRecord {
    pub server_id: String,
    pub address: IpAddress,
    pub port: u16,
}

/// A target with the server that it belongs to and what it is for.
pub struct TargetRecord {
    pub server_id: String,
    pub role: &'static str,
    pub host: CanonicalHost,
    pub port: u16,
}

/// A [`ListenerRecord`] with its identifier as a sequence of characters.
pub struct ListenerView {
    pub server_id: Seq<char>,
    pub address: IpAddress,
    pub port: u16,
}

/// A [`TargetRecord`] with its texts as sequences of characters.
pub struct TargetView {
    pub server_id: Seq<char>,
    pub role: Seq<char>,
    pub host: HostView,
    pub port: u16,
}

impl View for ListenerRecord {
    type V = ListenerView;

    open spec fn view(&self) -> ListenerView {
        ListenerView { server_id: self.server_id@, address: self.address, port: self.port }
    }
}

impl View for TargetRecord {
    type V = TargetView;

    open spec fn view(&self) -> TargetView {
        TargetView {
            server_id: self.server_id@,
            role: self.role@,
            host: self.host@,
            port: self.port,
        }
    }
}

/// The listener of a server.
pub open spec fn listener_of(server: ServerSchema) -> ListenerView {
    ListenerView {
        server_id: server.server_id@,
        address: listener_address(server.listener),
        port: server.listener.port,
    }
}

/// The targets of a server: its backend and, if it has one, its console.
pub open spec fn targets_of(server: ServerSchema) -> Seq<TargetView> {
    let backend = TargetView {
        server_id: server.server_id@,
        role: "backend"@,
        host: target_host(server.backend),
        port: server.backend.port,
    };
    match server.rcon {
        Some(rcon) => seq![
            backend,
            TargetView {
                server_id: server.server_id@,
                role: "rcon"@,
                host: target_host(rcon.target),
                port: rcon.target.port,
            },
        ],
        None => seq![backend],
    }
}

/// The listeners of servers.
pub open spec fn listeners_of(servers: Seq<ServerSchema>) -> Seq<ListenerView> {
    servers.map_values(|server: ServerSchema| listener_of(server))
}

/// The targets of servers.
pub open spec fn all_targets(servers: Seq<ServerSchema>) -> Seq<TargetView>
    decreases servers.len(),
{
    if servers.len() == 0 {
        Seq::empty()
    } else {
        all_targets(servers.drop_last()) + targets_of(servers.last())
    }
}

/// The complaint about two listeners that cannot both be opened: the same port, and the same
/// address or one that stands for every address of the family.
pub open spec fn listener_clash(left: ListenerView, right: ListenerView) -> Option<Seq<char>> {
    if left.port == right.port && (left.address == right.address || ((left.address.unspecified()
        || right.address.unspecified()) && one_family(left.address, right.address))) {
        Some(
            "endpoint conflict: [server="@ + left.server_id + "] listener and [server="@
                + right.server_id + "] listener both own port "@ + decimal(left.port as nat)
                + " on overlapping addresses"@,
        )
    } else {
        None
    }
}

/// The complaint about two targets that are one.
pub open spec fn target_clash(left: TargetView, right: TargetView) -> Option<Seq<char>> {
    if left.port == right.port && left.host == right.host {
        Some(
            "endpoint conflict: [server="@ + left.server_id + "] "@ + left.role + " and [server="@
                + right.server_id + "] "@ + right.role + " resolve to the same endpoint"@,
        )
    } else {
        None
    }
}

/// The complaint about a target that may be a listener of this very daemon: the same port, and
/// the same address, a listener on every address, or a name that may mean any address.
pub open spec fn loop_clash(target: TargetView, listener: ListenerView) -> Option<Seq<char>> {
    let conflicts = match target.host {
        HostView::Dns(_) => true,
        HostView::Ip(address) => address == listener.address || listener.address.unspecified(),
    };
    if target.port == listener.port && conflicts {
        Some(
            "endpoint conflict: [server="@ + target.server_id + "] "@ + target.role
                + " may target [server="@ + listener.server_id + "] listener on port "@ + decimal(
                listener.port as nat,
            ),
        )
    } else {
        None
    }
}

/// The complaints of a listener about each of the listeners after it.
pub open spec fn listener_clashes(listeners: Seq<ListenerView>, left: int) -> Seq<
    Option<Seq<char>>,
> {
    Seq::new(
        listeners.len(),
        |right: int|
            if left < right {
                listener_clash(listeners[left], listeners[right])
            } else {
                None
            },
    )
}

/// The complaints of a target about each of the targets after it.
pub open spec fn target_clashes(targets: Seq<TargetView>, left: int) -> Seq<Option<Seq<char>>> {
    Seq::new(
        targets.len(),
        |right: int|
            if left < right {
                target_clash(targets[left], targets[right])
            } else {
                None
            },
    )
}

/// The complaints of a target about each of the listeners.
pub open spec fn loop_clashes(target: TargetView, listeners: Seq<ListenerView>) -> Seq<
    Option<Seq<char>>,
> {
    Seq::new(listeners.len(), |at: int| loop_clash(target, listeners[at]))
}

/// What is wrong among listeners.
pub open spec fn listeners_fault(listeners: Seq<ListenerView>) -> Option<Seq<char>> {
    first_fault(
        Seq::new(listeners.len(), |left: int| first_fault(listener_clashes(listeners, left))),
    )
}

/// What is wrong among targets.
pub open spec fn targets_fault(targets: Seq<TargetView>) -> Option<Seq<char>> {
    first_fault(Seq::new(targets.len(), |left: int| first_fault(target_clashes(targets, left))))
}

/// What is wrong between targets and listeners.
pub open spec fn loops_fault(targets: Seq<TargetView>, listeners: Seq<ListenerView>) -> Option<
    Seq<char>,
> {
    first_fault(
        Seq::new(targets.len(), |at: int| first_fault(loop_clashes(targets[at], listeners))),
    )
}

/// What is wrong with the endpoints of servers: first of each server alone, then among their
/// listeners, then among their targets, then between targets and listeners.
pub open spec fn endpoints_fault(servers: Seq<ServerSchema>) -> Option<Seq<char>> {
    let own = first_fault(servers.map_values(|server: ServerSchema| own_endpoints_fault(server)));
    let listeners = listeners_of(servers);
    let targets = all_targets(servers);
    either_fault(
        own,
        either_fault(
            listeners_fault(listeners),
            either_fault(targets_fault(targets), loops_fault(targets, listeners)),
        ),
    )
}

/// The views of listeners.
pub open spec fn listener_views(listeners: Seq<ListenerRecord>) -> Seq<ListenerView> {
    listeners.map_values(|listener: ListenerRecord| listener@)
}

/// The views of targets.
pub open spec fn target_views(targets: Seq<TargetRecord>) -> Seq<TargetView> {
    targets.map_values(|target: TargetRecord| target@)
}

/// The records of the endpoints of one server.
fn own_endpoints(server: &ServerSchema) -> (result: Result<
    (ListenerRecord, Vec<TargetRecord>),
    String,
>)
    ensures
        match own_endpoints_fault(*server) {
            None => result matches Ok(records) && records.0@ == listener_of(*server)
                && target_views(records.1@) == targets_of(*server),
            Some(text) => result matches Err(error) && error@ == text,
        },
{
    let id = server.server_id.as_str();
    let listener = match validate_listener(&server.listener) {
        Ok(address) => ListenerRecord {
            server_id: server.server_id.clone(),
            address,
            port: server.listener.port,
        },
        Err(cause) => {
            return Err(server_fault_text(id, "invalid listener endpoint", cause.as_str()));
        },
    };
    let mut targets: Vec<TargetRecord> = Vec::new();
    match validate_target(&server.backend) {
        Ok(host) => {
            targets.push(
                TargetRecord {
                    server_id: server.server_id.clone(),
                    role: "backend",
                    host,
                    port: server.backend.port,
                },
            );
        },
        Err(cause) => {
            return Err(server_fault_text(id, "invalid backend endpoint", cause.as_str()));
        },
    }
    if let Some(rcon) = &server.rcon {
        match validate_target(&rcon.target) {
            Ok(host) => {
                targets.push(
                    TargetRecord {
                        server_id: server.server_id.clone(),
                        role: "rcon",
                        host,
                        port: rcon.target.port,
                    },
                );
            },
            Err(cause) => {
                return Err(server_fault_text(id, "invalid RCON endpoint", cause.as_str()));
            },
        }
        if let Err(cause) = validate_environment_name(rcon.password_env.as_str()) {
            return Err(server_fault_text(id, "invalid RCON password_env", cause.as_str()));
        }
    }
    assert(target_views(targets@) =~= targets_of(*server));
    Ok((listener, targets))
}

/// The complaint about two listeners, if there is one.
fn check_listeners(left: &ListenerRecord, right: &ListenerRecord) -> (fault: Option<String>)
    ensures
        match listener_clash(left@, right@) {
            None => fault is None,
            Some(text) => fault matches Some(found) && found@ == text,
        },
{
    if left.port == right.port && (left.address == right.address || ((left.address.is_unspecified()
        || right.address.is_unspecified()) && same_ip_family(left.address, right.address))) {
        let mut text = "endpoint conflict: [server=".to_owned();
        text.append(left.server_id.as_str());
        text.append("] listener and [server=");
        text.append(right.server_id.as_str());
        text.append("] listener both own port ");
        append_decimal(&mut text, left.port as u64);
        text.append(" on overlapping addresses");
        return Some(text);
    }
    None
}

/// Whether two hosts are the same.
fn same_host(left: &CanonicalHost, right: &CanonicalHost) -> (same: bool)
    ensures
        same == (left@ == right@),
{
    match (left, right) {
        (CanonicalHost::Ip(left), CanonicalHost::Ip(right)) => *left == *right,
        (CanonicalHost::Dns(left), CanonicalHost::Dns(right)) => same_text(
            left.as_str(),
            right.as_str(),
        ),
        _ => false,
    }
}

/// The complaint about two targets, if there is one.
fn check_targets(left: &TargetRecord, right: &TargetRecord) -> (fault: Option<String>)
    ensures
        match target_clash(left@, right@) {
            None => fault is None,
            Some(text) => fault matches Some(found) && found@ == text,
        },
{
    if left.port == right.port && same_host(&left.host, &right.host) {
        let mut text = "endpoint conflict: [server=".to_owned();
        text.append(left.server_id.as_str());
        text.append("] ");
        text.append(left.role);
        text.append(" and [server=");
        text.append(right.server_id.as_str());
        text.append("] ");
        text.append(right.role);
        text.append(" resolve to the same endpoint");
        return Some(text);
    }
    None
}

/// The complaint about a target and a listener, if there is one.
fn check_loop(target: &TargetRecord, listener: &ListenerRecord) -> (fault: Option<String>)
    ensures
        match loop_clash(target@, listener@) {
            None => fault is None,
            Some(text) => fault matches Some(found) && found@ == text,
        },
{
    let conflicts = match &target.host {
        CanonicalHost::Dns(_) => true,
        CanonicalHost::Ip(address) => *address == listener.address
            || listener.address.is_unspecified(),
    };
    if target.port == listener.port && conflicts {
        let mut text = "endpoint conflict: [server=".to_owned();
        text.append(target.server_id.as_str());
        text.append("] ");
        text.append(target.role);
        text.append(" may target [server=");
        text.append(listener.server_id.as_str());
        text.append("] listener on port ");
        append_decimal(&mut text, listener.port as u64);
        return Some(text);
    }
    None
}

/// The first complaint of a listener about the listeners after it, if there is one.
fn check_later_listeners(listeners: &Vec<ListenerRecord>, left: usize) -> (fault: Option<String>)
    requires
        left < listeners@.len(),
    ensures
        match first_fault(listener_clashes(listener_views(listeners@), left as int)) {
            None => fault is None,
            Some(text) => fault matches Some(found) && found@ == text,
        },
{
    let ghost clashes = listener_clashes(listener_views(listeners@), left as int);
    let count: usize = listeners.len();
    let mut right: usize = left + 1;
    while right < count
        invariant
            count == listeners@.len(),
            left < right <= count,
            clashes == listener_clashes(listener_views(listeners@), left as int),
            forall|i: int| 0 <= i < right ==> clashes[i] is None,
        decreases count - right,
    {
        assert(clashes[right as int] == listener_clash(
            listeners@[left as int]@,
            listeners@[right as int]@,
        ));
        if let Some(text) = check_listeners(&listeners[left], &listeners[right]) {
            proof {
                first_fault_is_first(clashes, right as int);
            }
            return Some(text);
        }
        right += 1;
    }
    proof {
        first_fault_is_first(clashes, right as int);
    }
    None
}

/// The first complaint of a target about the targets after it, if there is one.
fn check_later_targets(targets: &Vec<TargetRecord>, left: usize) -> (fault: Option<String>)
    requires
        left < targets@.len(),
    ensures
        match first_fault(target_clashes(target_views(targets@), left as int)) {
            None => fault is None,
            Some(text) => fault matches Some(found) && found@ == text,
        },
{
    let ghost clashes = target_clashes(target_views(targets@), left as int);
    let count: usize = targets.len();
    let mut right: usize = left + 1;
    while right < count
        invariant
            count == targets@.len(),
            left < right <= count,
            clashes == target_clashes(target_views(targets@), left as int),
            forall|i: int| 0 <= i < right ==> clashes[i] is None,
        decreases count - right,
    {
        assert(clashes[right as int] == target_clash(
            targets@[left as int]@,
            targets@[right as int]@,
        ));
        if let Some(text) = check_targets(&targets[left], &targets[right]) {
            proof {
                first_fault_is_first(clashes, right as int);
            }
            return Some(text);
        }
        right += 1;
    }
    proof {
        first_fault_is_first(clashes, right as int);
    }
    None
}

/// The first complaint of a target about the listeners, if there is one.
fn check_loops(target: &TargetRecord, listeners: &Vec<ListenerRecord>) -> (fault: Option<String>)
    ensures
        match first_fault(loop_clashes(target@, listener_views(listeners@))) {
            None => fault is None,
            Some(text) => fault matches Some(found) && found@ == text,
        },
{
    let ghost clashes = loop_clashes(target@, listener_views(listeners@));
    let mut at: usize = 0;
    while at < listeners.len()
        invariant
            at <= listeners@.len(),
            clashes == loop_clashes(target@, listener_views(listeners@)),
            forall|i: int| 0 <= i < at ==> clashes[i] is None,
        decreases listeners@.len() - at,
    {
        assert(clashes[at as int] == loop_clash(target@, listeners@[at as int]@));
        if let Some(text) = check_loop(target, &listeners[at]) {
            proof {
                first_fault_is_first(clashes, at as int);
            }
            return Some(text);
        }
        at += 1;
    }
    proof {
        first_fault_is_first(clashes, at as int);
    }
    None
}

/// The first complaint among listeners, if there is one.
fn check_all_listeners(listeners: &Vec<ListenerRecord>) -> (fault: Option<String>)
    ensures
        match listeners_fault(listener_views(listeners@)) {
            None => fault is None,
            Some(text) => fault matches Some(found) && found@ == text,
        },
{
    let ghost views = listener_views(listeners@);
    let ghost faults = Seq::new(
        views.len(),
        |left: int| first_fault(listener_clashes(views, left)),
    );
    let mut left: usize = 0;
    while left < listeners.len()
        invariant
            left <= listeners@.len(),
            views == listener_views(listeners@),
            faults == Seq::new(
                views.len(),
                |left: int| first_fault(listener_clashes(views, left)),
            ),
            forall|i: int| 0 <= i < left ==> faults[i] is None,
        decreases listeners@.len() - left,
    {
        if let Some(text) = check_later_listeners(listeners, left) {
            proof {
                first_fault_is_first(faults, left as int);
            }
            return Some(text);
        }
        left += 1;
    }
    proof {
        first_fault_is_first(faults, left as int);
    }
    None
}

/// The first complaint among targets, if there is one.
fn check_all_targets(targets: &Vec<TargetRecord>) -> (fault: Option<String>)
    ensures
        match targets_fault(target_views(targets@)) {
            None => fault is None,
            Some(text) => fault matches Some(found) && found@ == text,
        },
{
    let ghost views = target_views(targets@);
    let ghost faults = Seq::new(
        views.len(),
        |left: int| first_fault(target_clashes(views, left)),
    );
    let mut left: usize = 0;
    while left < targets.len()
        invariant
            left <= targets@.len(),
            views == target_views(targets@),
            faults == Seq::new(views.len(), |left: int| first_fault(target_clashes(views, left))),
            forall|i: int| 0 <= i < left ==> faults[i] is None,
        decreases targets@.len() - left,
    {
        if let Some(text) = check_later_targets(targets, left) {
            proof {
                first_fault_is_first(faults, left as int);
            }
            return Some(text);
        }
        left += 1;
    }
    proof {
        first_fault_is_first(faults, left as int);
    }
    None
}

/// The first complaint between targets and listeners, if there is one.
fn check_all_loops(targets: &Vec<TargetRecord>, listeners: &Vec<ListenerRecord>) -> (fault: Option<
    String,
>)
    ensures
        match loops_fault(target_views(targets@), listener_views(listeners@)) {
            None => fault is None,
            Some(text) => fault matches Some(found) && found@ == text,
        },
{
    let ghost views = target_views(targets@);
    let ghost open = listener_views(listeners@);
    let ghost faults = Seq::new(
        views.len(),
        |at: int| first_fault(loop_clashes(views[at], open)),
    );
    let mut at: usize = 0;
    while at < targets.len()
        invariant
            at <= targets@.len(),
            views == target_views(targets@),
            open == listener_views(listeners@),
            faults == Seq::new(views.len(), |at: int| first_fault(loop_clashes(views[at], open))),
            forall|i: int| 0 <= i < at ==> faults[i] is None,
        decreases targets@.len() - at,
    {
        if let Some(text) = check_loops(&targets[at], listeners) {
            proof {
                first_fault_is_first(faults, at as int);
            }
            return Some(text);
        }
        at += 1;
    }
    proof {
        first_fault_is_first(faults, at as int);
    }
    None
}

/// Checks the endpoints of servers, each alone and all together.
pub fn validate_endpoints(servers: &Vec<ServerSchema>) -> (result: Result<(), String>)
    ensures
        match endpoints_fault(servers@) {
            None => result is Ok,
            Some(text) => result matches Err(error) && error@ == text,
        },
{
    let ghost own = servers@.map_values(|server: ServerSchema| own_endpoints_fault(server));
    let mut listeners: Vec<ListenerRecord> = Vec::new();
    let mut targets: Vec<TargetRecord> = Vec::new();
    let mut at: usize = 0;
    assert(listener_views(listeners@) =~= listeners_of(servers@.take(0)));
    assert(target_views(targets@) =~= all_targets(servers@.take(0)));
    while at < servers.len()
        invariant
            at <= servers@.len(),
            own == servers@.map_values(|server: ServerSchema| own_endpoints_fault(server)),
            forall|i: int| 0 <= i < at ==> own[i] is None,
            listener_views(listeners@) == listeners_of(servers@.take(at as int)),
            target_views(targets@) == all_targets(servers@.take(at as int)),
        decreases servers@.len() - at,
    {
        match own_endpoints(&servers[at]) {
            Ok((listener, more)) => {
                let mut more = more;
                proof {
                    let next = servers@.take(at + 1);
                    assert(next.drop_last() =~= servers@.take(at as int));
                    assert(next.last() == servers@[at as int]);
                    assert(listeners_of(next) =~= listeners_of(servers@.take(at as int)).push(
                        listener@,
                    ));
                    assert(listener_views(listeners@.push(listener)) =~= listener_views(
                        listeners@,
                    ).push(listener@));
                    assert(target_views(targets@ + more@) =~= all_targets(next));
                }
                listeners.push(listener);
                targets.append(&mut more);
            },
            Err(text) => {
                proof {
                    first_fault_is_first(own, at as int);
                }
                return Err(text);
            },
        }
        at += 1;
    }
    proof {
        first_fault_is_first(own, at as int);
        assert(servers@.take(at as int) =~= servers@);
    }
    if let Some(text) = check_all_listeners(&listeners) {
        return Err(text);
    }
    if let Some(text) = check_all_targets(&targets) {
        return Err(text);
    }
    if let Some(text) = check_all_loops(&targets, &listeners) {
        return Err(text);
    }
    Ok(())
}

/// The biggest number of permits that a semaphore of the runtime can hold.
pub open spec fn most_permits() -> int {
    usize::MAX as int / 8
}

/// Reads `tokio::sync::Semaphore::MAX_PERMITS`. Claimed of it: it is the biggest `usize`
/// shifted right by three bits.
#[verifier::external_body]
fn max_permits() -> (permits: usize)
    ensures
        permits == most_permits(),
{
    tokio::sync::Semaphore::MAX_PERMITS
}

/// What is wrong with a document, if anything is.
pub open spec fn document_fault(document: ConfigDocument) -> Option<Seq<char>> {
    if document.servers@.len() == 0 {
        Some("servers must contain at least one configured server"@)
    } else if !(1 <= document.max_connections <= most_permits()) {
        Some("max_connections must be between 1 and "@ + decimal(most_permits() as nat))
    } else {
        either_fault(
            first_fault(
                document.servers@.map_values(
                    |server: ServerSchema|
                        if server_identifier(encode_utf8(server.server_id@)) {
                            None
                        } else {
                            Some(identifier_refusal(shown(server.server_id@)))
                        },
                ),
            ),
            endpoints_fault(document.servers@),
        )
    }
}

/// Checks a document.
pub fn validate_document(document: &ConfigDocument) -> (result: Result<(), String>)
    ensures
        match document_fault(*document) {
            None => result is Ok,
            Some(text) => result matches Err(error) && error@ == text,
        },
{
    if document.servers.len() == 0 {
        return Err("servers must contain at least one configured server".to_owned());
    }
    let most = max_permits();
    if document.max_connections < 1 || document.max_connections > most {
        let mut text = "max_connections must be between 1 and ".to_owned();
        append_decimal(&mut text, most as u64);
        return Err(text);
    }
    let ghost faults = document.servers@.map_values(
        |server: ServerSchema|
            if server_identifier(encode_utf8(server.server_id@)) {
                None
            } else {
                Some(identifier_refusal(shown(server.server_id@)))
            },
    );
    let mut at: usize = 0;
    while at < document.servers.len()
        invariant
            at <= document.servers@.len(),
            document.servers@.len() > 0,
            1 <= document.max_connections <= most_permits(),
            faults == document.servers@.map_values(
                |server: ServerSchema|
                    if server_identifier(encode_utf8(server.server_id@)) {
                        None
                    } else {
                        Some(identifier_refusal(shown(server.server_id@)))
                    },
            ),
            forall|i: int| 0 <= i < at ==> faults[i] is None,
        decreases document.servers@.len() - at,
    {
        if let Err(text) = validate_server_id(document.servers[at].server_id.as_str()) {
            proof {
                first_fault_is_first(faults, at as int);
            }
            return Err(text);
        }
        at += 1;
    }
    proof {
        first_fault_is_first(faults, at as int);
    }
    validate_endpoints(&document.servers)
}

/// In a document without faults no two listeners overlap, no two targets are one, and no target
/// may be a listener.
pub proof fn accepted_endpoints_do_not_clash(servers: Seq<ServerSchema>)
    requires
        endpoints_fault(servers) is None,
    ensures
        forall|i: int, j: int|
            0 <= i < j < servers.len() ==> listener_clash(
                #[trigger] listeners_of(servers)[i],
                #[trigger] listeners_of(servers)[j],
            ) is None,
        forall|i: int, j: int|
            0 <= i < j < all_targets(servers).len() ==> target_clash(
                #[trigger] all_targets(servers)[i],
                #[trigger] all_targets(servers)[j],
            ) is None,
        forall|i: int, j: int|
            0 <= i < all_targets(servers).len() && 0 <= j < servers.len() ==> loop_clash(
                #[trigger] all_targets(servers)[i],
                #[trigger] listeners_of(servers)[j],
            ) is None,
{
    let listeners = listeners_of(servers);
    let targets = all_targets(servers);
    assert forall|i: int, j: int| 0 <= i < j < servers.len() implies listener_clash(
        #[trigger] listeners[i],
        #[trigger] listeners[j],
    ) is None by {
        let faults = Seq::new(
            listeners.len(),
            |left: int| first_fault(listener_clashes(listeners, left)),
        );
        no_fault_anywhere(faults, i);
        no_fault_anywhere(listener_clashes(listeners, i), j);
    }
    assert forall|i: int, j: int| 0 <= i < j < targets.len() implies target_clash(
        #[trigger] targets[i],
        #[trigger] targets[j],
    ) is None by {
        let faults = Seq::new(
            targets.len(),
            |left: int| first_fault(target_clashes(targets, left)),
        );
        no_fault_anywhere(faults, i);
        no_fault_anywhere(target_clashes(targets, i), j);
    }
    assert forall|i: int, j: int|
        0 <= i < targets.len() && 0 <= j < servers.len() implies loop_clash(
        #[trigger] targets[i],
        #[trigger] listeners[j],
    ) is None by {
        let faults = Seq::new(
            targets.len(),
            |at: int| first_fault(loop_clashes(targets[at], listeners)),
        );
        no_fault_anywhere(faults, i);
        no_fault_anywhere(loop_clashes(targets[i], listeners), j);
    }
}

/// Where nothing is wrong, nothing is wrong anywhere.
pub proof fn no_fault_anywhere(faults: Seq<Option<Seq<char>>>, at: int)
    requires
        first_fault(faults) is None,
        0 <= at < faults.len(),
    ensures
        faults[at] is None,
    decreases faults.len(),
{
    if at > 0 {
        no_fault_anywhere(faults.skip(1), at - 1);
    }
}

/// A server identifier is plain: each of its characters stands for itself in a document.
pub proof fn identifiers_are_plain(server_id: Seq<char>)
    requires
        server_identifier(encode_utf8(server_id)),
    ensures
        plain(server_id),
{
    let bytes = encode_utf8(server_id);
    let chars = ascii_chars(bytes);
    assert forall|i: int| 0 <= i < chars.len() implies '\0' <= #[trigger] chars[i] && chars[i]
        <= '\u{7f}' by {
        assert(identifier_edge(bytes[i]) || bytes[i] == 0x2d);
    }
    is_ascii_chars_encode_utf8(chars);
    assert(encode_utf8(chars) =~= bytes);
    encode_utf8_decode_utf8(chars);
    encode_utf8_decode_utf8(server_id);
    assert forall|i: int| 0 <= i < server_id.len() implies plain_char(#[trigger] server_id[i]) by {
        assert(server_id[i] == chars[i]);
        assert(identifier_edge(bytes[i]) || bytes[i] == 0x2d);
    }
}

/// Configurations of version 3 are taken, and no others.
pub proof fn only_one_version_is_taken(found: Result<Option<i64>, Seq<char>>)
    ensures
        version_fault(found) is None <==> found == Ok::<Option<i64>, Seq<char>>(Some(3i64)),
{
}

/// An identifier of a server is made of small letters, digits and hyphens, with no hyphen at its
/// edges.
pub proof fn identifiers_are_kebab_case(bytes: Seq<u8>)
    ensures
        server_identifier(bytes) <==> bytes.len() > 0 && bytes[0] != 45 && bytes.last() != 45 && (
        forall|i: int|
            0 <= i < bytes.len() ==> 97 <= #[trigger] bytes[i] <= 122 || 48 <= bytes[i] <= 57
                || bytes[i] == 45),
{
    if server_identifier(bytes) {
        assert forall|i: int| 0 <= i < bytes.len() implies 97 <= #[trigger] bytes[i] <= 122 || 48
            <= bytes[i] <= 57 || bytes[i] == 45 by {
            assert(identifier_edge(bytes[i]) || bytes[i] == 0x2d);
        }
    }
}

/// A name of the environment is made of letters, digits and underscores and begins with no digit.
pub proof fn environment_names_are_plain(bytes: Seq<u8>)
    ensures
        environment_name(bytes) <==> bytes.len() > 0 && !(48 <= bytes[0] <= 57) && (forall|i: int|
            0 <= i < bytes.len() ==> 65 <= #[trigger] bytes[i] <= 90 || 97 <= bytes[i] <= 122 || 48
                <= bytes[i] <= 57 || bytes[i] == 95),
{
    if environment_name(bytes) {
        assert forall|i: int| 0 <= i < bytes.len() implies 65 <= #[trigger] bytes[i] <= 90 || 97
            <= bytes[i] <= 122 || 48 <= bytes[i] <= 57 || bytes[i] == 95 by {
            if i > 0 {
                assert(alphanumeric(bytes[i]) || bytes[i] == 0x5f);
            }
        }
    }
}

/// Two listeners clash exactly if they have one port and one address, or one port and one family
/// with an address that stands for all.
pub proof fn listeners_clash_over_ports(left: ListenerView, right: ListenerView)
    ensures
        listener_clash(left, right) is Some <==> left.port == right.port && (match (
            left.address,
            right.address,
        ) {
            (IpAddress::V4(one), IpAddress::V4(other)) => one == other || one == 0 || other == 0,
            (IpAddress::V6(one), IpAddress::V6(other)) => one == other || one == 0 || other == 0,
            _ => false,
        }),
{
}

/// Two targets clash exactly if they have one host and one port; a target clashes with a listener
/// if it has its port and is a name, or its address, or any address where the listener takes all.
pub proof fn targets_clash_over_hosts(left: TargetView, right: TargetView, listener: ListenerView)
    ensures
        target_clash(left, right) is Some <==> left.port == right.port && left.host == right.host,
        loop_clash(left, listener) is Some <==> left.port == listener.port && match left.host {
            HostView::Dns(_) => true,
            HostView::Ip(address) => address == listener.address || match listener.address {
                IpAddress::V4(bits) => bits == 0,
                IpAddress::V6(bits) => bits == 0,
            },
        },
{
}

proof fn lemma_targets_stand(servers: Seq<ServerSchema>, server: int, at: int) -> (place: int)
    requires
        0 <= server < servers.len(),
        0 <= at < targets_of(servers[server]).len(),
    ensures
        0 <= place < all_targets(servers).len(),
        all_targets(servers)[place] == targets_of(servers[server])[at],
        place == all_targets(servers.take(server)).len() + at,
    decreases servers.len(),
{
    let front = servers.drop_last();
    if server == servers.len() - 1 {
        assert(servers.take(server) =~= front);
        (all_targets(front).len() + at) as int
    } else {
        let place = lemma_targets_stand(front, server, at);
        assert(front.take(server) =~= servers.take(server));
        place
    }
}

proof fn lemma_targets_in_order(servers: Seq<ServerSchema>, left: int, right: int)
    requires
        0 <= left < right <= servers.len(),
    ensures
        all_targets(servers.take(left)).len() + targets_of(servers[left]).len() <= all_targets(
            servers.take(right),
        ).len(),
    decreases right,
{
    assert(servers.take(right).drop_last() =~= servers.take(right - 1));
    assert(servers.take(right).last() == servers[right - 1]);
    if left < right - 1 {
        lemma_targets_in_order(servers, left, right - 1);
    }
}

/// In an accepted configuration no two servers listen on one port and overlapping addresses, no
/// two backends or consoles are one endpoint, and nothing that is connected to may be a listener.
pub proof fn accepted_servers_do_not_meet(servers: Seq<ServerSchema>, left: int, right: int)
    requires
        endpoints_fault(servers) is None,
        0 <= left < right < servers.len(),
    ensures
        servers[left].listener.port == servers[right].listener.port ==> match (
            listener_address(servers[left].listener),
            listener_address(servers[right].listener),
        ) {
            (IpAddress::V4(one), IpAddress::V4(other)) => one != other && one != 0 && other != 0,
            (IpAddress::V6(one), IpAddress::V6(other)) => one != other && one != 0 && other != 0,
            _ => true,
        },
        servers[left].backend.port == servers[right].backend.port ==> target_host(
            servers[left].backend,
        ) != target_host(servers[right].backend),
        servers[left].rcon matches Some(one) ==> (one.target.port == servers[right].backend.port
            ==> target_host(one.target) != target_host(servers[right].backend)),
        servers[right].rcon matches Some(other) ==> (servers[left].backend.port
            == other.target.port ==> target_host(servers[left].backend) != target_host(
            other.target,
        )),
        servers[left].rcon matches Some(one) ==> (servers[right].rcon matches Some(other) ==> (
        one.target.port == other.target.port ==> target_host(one.target) != target_host(
            other.target,
        ))),
{
    accepted_endpoints_do_not_clash(servers);
    assert(listeners_of(servers)[left] == listener_of(servers[left]));
    assert(listeners_of(servers)[right] == listener_of(servers[right]));
    listeners_clash_over_ports(listener_of(servers[left]), listener_of(servers[right]));
    lemma_targets_in_order(servers, left, right);
    let one = lemma_targets_stand(servers, left, 0);
    let other = lemma_targets_stand(servers, right, 0);
    if servers[left].rcon is Some {
        let console = lemma_targets_stand(servers, left, 1);
        assert(console < other);
        if servers[right].rcon is Some {
            let far = lemma_targets_stand(servers, right, 1);
            assert(console < far);
        }
    }
    if servers[right].rcon is Some {
        let far = lemma_targets_stand(servers, right, 1);
        assert(one < far);
    }
}

/// In an accepted configuration every server's own endpoints are sound and apart, and no server
/// connects to what itself or another one listens on.
pub proof fn accepted_servers_do_not_loop(servers: Seq<ServerSchema>, at: int, listener: int)
    requires
        endpoints_fault(servers) is None,
        0 <= at < servers.len(),
        0 <= listener < servers.len(),
    ensures
        listener_fault(servers[at].listener) is None,
        target_fault(servers[at].backend) is None,
        servers[at].rcon matches Some(rcon) ==> target_fault(rcon.target) is None
            && environment_name(encode_utf8(rcon.password_env@)) && (rcon.target.port
            == servers[at].backend.port ==> target_host(rcon.target) != target_host(
            servers[at].backend,
        )),
        servers[at].backend.port == servers[listener].listener.port ==> (target_host(
            servers[at].backend,
        ) matches HostView::Ip(address) && address != listener_address(servers[listener].listener)
            && !listener_address(servers[listener].listener).unspecified()),
        servers[at].rcon matches Some(rcon) ==> (rcon.target.port
            == servers[listener].listener.port ==> (target_host(rcon.target) matches HostView::Ip(
            address,
        ) && address != listener_address(servers[listener].listener) && !listener_address(
            servers[listener].listener,
        ).unspecified())),
{
    let faults = servers.map_values(|server: ServerSchema| own_endpoints_fault(server));
    no_fault_anywhere(faults, at);
    assert(faults[at] == own_endpoints_fault(servers[at]));
    accepted_endpoints_do_not_clash(servers);
    assert(listeners_of(servers)[listener] == listener_of(servers[listener]));
    let backend = lemma_targets_stand(servers, at, 0);
    assert(loop_clash(all_targets(servers)[backend], listeners_of(servers)[listener]) is None);
    if servers[at].rcon is Some {
        let console = lemma_targets_stand(servers, at, 1);
        assert(backend < console);
        assert(loop_clash(all_targets(servers)[console], listeners_of(servers)[listener]) is None);
    }
}

/// The endpoints of servers that are sound by themselves and do not clash are accepted.
pub proof fn endpoints_without_clashes_are_accepted(servers: Seq<ServerSchema>)
    requires
        forall|at: int|
            0 <= at < servers.len() ==> listener_fault((#[trigger] servers[at]).listener) is None
                && target_fault(servers[at].backend) is None && (servers[at].rcon matches Some(rcon)
                ==> target_fault(rcon.target) is None && environment_name(
                encode_utf8(rcon.password_env@),
            )),
        forall|i: int, j: int|
            0 <= i < j < servers.len() ==> listener_clash(
                listener_of(#[trigger] servers[i]),
                listener_of(#[trigger] servers[j]),
            ) is None,
        forall|i: int, j: int|
            0 <= i < j < all_targets(servers).len() ==> target_clash(
                #[trigger] all_targets(servers)[i],
                #[trigger] all_targets(servers)[j],
            ) is None,
        forall|i: int, j: int|
            0 <= i < all_targets(servers).len() && 0 <= j < servers.len() ==> loop_clash(
                #[trigger] all_targets(servers)[i],
                listener_of(#[trigger] servers[j]),
            ) is None,
    ensures
        endpoints_fault(servers) is None,
{
    let own = servers.map_values(|server: ServerSchema| own_endpoints_fault(server));
    assert forall|i: int| 0 <= i < own.len() implies own[i] is None by {
        assert(own[i] == own_endpoints_fault(servers[i]));
    }
    first_fault_is_first(own, own.len() as int);
    let listeners = listeners_of(servers);
    let targets = all_targets(servers);
    let meeting = Seq::new(
        listeners.len(),
        |left: int| first_fault(listener_clashes(listeners, left)),
    );
    assert forall|i: int| 0 <= i < meeting.len() implies meeting[i] is None by {
        let clashes = listener_clashes(listeners, i);
        assert forall|j: int| 0 <= j < clashes.len() implies clashes[j] is None by {
            assert(listeners[i] == listener_of(servers[i]));
            assert(listeners[j] == listener_of(servers[j]));
        }
        first_fault_is_first(clashes, clashes.len() as int);
    }
    first_fault_is_first(meeting, meeting.len() as int);
    let same = Seq::new(targets.len(), |left: int| first_fault(target_clashes(targets, left)));
    assert forall|i: int| 0 <= i < same.len() implies same[i] is None by {
        let clashes = target_clashes(targets, i);
        assert forall|j: int| 0 <= j < clashes.len() implies clashes[j] is None by {
            if i < j {
                assert(target_clash(targets[i], targets[j]) is None);
            }
        }
        first_fault_is_first(clashes, clashes.len() as int);
    }
    first_fault_is_first(same, same.len() as int);
    let loops = Seq::new(targets.len(), |at: int| first_fault(loop_clashes(targets[at], listeners)));
    assert forall|i: int| 0 <= i < loops.len() implies loops[i] is None by {
        let clashes = loop_clashes(targets[i], listeners);
        assert forall|j: int| 0 <= j < clashes.len() implies clashes[j] is None by {
            assert(listeners[j] == listener_of(servers[j]));
            assert(loop_clash(targets[i], listener_of(servers[j])) is None);
        }
        first_fault_is_first(clashes, clashes.len() as int);
    }
    first_fault_is_first(loops, loops.len() as int);
}

/// The targets of servers are their backends and consoles, and nothing else.
pub proof fn targets_are_backends_and_consoles(servers: Seq<ServerSchema>, place: int) -> (at: int)
    requires
        0 <= place < all_targets(servers).len(),
    ensures
        0 <= at < servers.len(),
        ({
            let target = all_targets(servers)[place];
            ||| target.host == target_host(servers[at].backend) && target.port
                == servers[at].backend.port
            ||| servers[at].rcon matches Some(rcon) && target.host == target_host(rcon.target)
                && target.port == rcon.target.port
        }),
    decreases servers.len(),
{
    let front = servers.drop_last();
    if place < all_targets(front).len() {
        targets_are_backends_and_consoles(front, place)
    } else {
        assert(all_targets(servers)[place] == targets_of(servers.last())[place - all_targets(
            front,
        ).len()]);
        servers.len() - 1
    }
}

/// A configuration is accepted exactly if it names a server, allows at least one connection and
/// no more than can be counted, and its identifiers and endpoints are sound.
pub proof fn sound_documents_are_accepted(document: ConfigDocument)
    ensures
        document_fault(document) is None <==> document.servers@.len() > 0
            && document.max_connections > 0 && document.max_connections <= usize::MAX as int / 8
            && (forall|i: int|
            0 <= i < document.servers@.len() ==> server_identifier(
                encode_utf8((#[trigger] document.servers@[i]).server_id@),
            )) && endpoints_fault(document.servers@) is None,
{
    let servers = document.servers@;
    let faults = servers.map_values(
        |server: ServerSchema|
            if server_identifier(encode_utf8(server.server_id@)) {
                None
            } else {
                Some(identifier_refusal(shown(server.server_id@)))
            },
    );
    if first_fault(faults) is None {
        assert forall|i: int| 0 <= i < servers.len() implies server_identifier(
            encode_utf8((#[trigger] servers[i]).server_id@),
        ) by {
            no_fault_anywhere(faults, i);
        }
    } else if forall|i: int|
        0 <= i < servers.len() ==> server_identifier(
            encode_utf8((#[trigger] servers[i]).server_id@),
        ) {
        first_fault_is_first(faults, faults.len() as int);
    }
}

/// A complaint about a server names it, tells what is wrong, and then the cause.
pub proof fn complaints_name_the_server(server_id: Seq<char>, what: Seq<char>, cause: Seq<char>)
    ensures
        about_server(server_id, what) == "[server="@ + server_id + "] "@ + what,
        server_fault(server_id, what, cause) == "[server="@ + server_id + "] "@ + what + ": "@
            + cause,
{
}

/// A complaint about an endpoint tells which of the server's endpoints it is about: the listener,
/// then the backend, then the console.
pub proof fn complaints_name_the_endpoint(server: ServerSchema)
    ensures
        listener_fault(server.listener) matches Some(cause) ==> own_endpoints_fault(server) == Some(
            "[server="@ + server.server_id@ + "] "@ + "invalid listener endpoint"@ + ": "@ + cause,
        ),
        listener_fault(server.listener) is None ==> (target_fault(server.backend) matches Some(
            cause,
        ) ==> own_endpoints_fault(server) == Some(
            "[server="@ + server.server_id@ + "] "@ + "invalid backend endpoint"@ + ": "@ + cause,
        )),
        listener_fault(server.listener) is None && target_fault(server.backend) is None ==> (
        server.rcon matches Some(rcon) ==> (target_fault(rcon.target) matches Some(cause)
            ==> own_endpoints_fault(server) == Some(
            "[server="@ + server.server_id@ + "] "@ + "invalid RCON endpoint"@ + ": "@ + cause,
        ))),
{
}

/// An unsupported version is told by its number, with a sign where it is negative.
pub proof fn unsupported_versions_are_told(version: i64)
    requires
        version != 3,
    ensures
        version_fault(Ok(None)) == Some(
            "unsupported schema_version: missing or non-integer; expected 3"@,
        ),
        version_fault(Ok(Some(version))) == Some(
            "unsupported schema_version "@ + (if version < 0 {
                "-"@ + decimal((0 - version) as nat)
            } else {
                decimal(version as nat)
            }) + "; expected 3"@,
        ),
{
}

/// A conflict is told with both servers, in the order in which they are configured, and with the
/// port.
pub proof fn conflicts_name_both_servers(
    left: ListenerView,
    right: ListenerView,
    target: TargetView,
    other: TargetView,
)
    ensures
        listener_clash(left, right) matches Some(text) ==> text == "endpoint conflict: [server="@
            + left.server_id + "] listener and [server="@ + right.server_id
            + "] listener both own port "@ + decimal(right.port as nat)
            + " on overlapping addresses"@,
        target_clash(target, other) matches Some(text) ==> text == "endpoint conflict: [server="@
            + target.server_id + "] "@ + target.role + " and [server="@ + other.server_id + "] "@
            + other.role + " resolve to the same endpoint"@,
        loop_clash(target, left) matches Some(text) ==> text == "endpoint conflict: [server="@
            + target.server_id + "] "@ + target.role + " may target [server="@ + left.server_id
            + "] listener on port "@ + decimal(target.port as nat),
{
}

/// Listeners and targets are recorded with their own server, host and port; the role of a target
/// tells a backend from a console.
pub proof fn endpoints_are_recorded_as_configured(server: ServerSchema)
    ensures
        listener_of(server).server_id == server.server_id@,
        listener_of(server).port == server.listener.port,
        listener_of(server).address == listener_address(server.listener),
        targets_of(server).len() == (if server.rcon is Some {
            2int
        } else {
            1
        }),
        targets_of(server)[0].server_id == server.server_id@,
        targets_of(server)[0].role == "backend"@,
        targets_of(server)[0].host == target_host(server.backend),
        targets_of(server)[0].port == server.backend.port,
        server.rcon matches Some(rcon) ==> targets_of(server)[1].server_id == server.server_id@
            && targets_of(server)[1].role == "rcon"@ && targets_of(server)[1].host == target_host(
            rcon.target,
        ) && targets_of(server)[1].port == rcon.target.port,
{
}

} // verus!
