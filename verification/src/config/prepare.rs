//! What is prepared from an accepted configuration.

use vstd::prelude::*;
use vstd::string::{StringExecFns, StringSliceAdditionalSpecFns};
use vstd::utf8::encode_utf8;

use crate::context::ServerContext;
use crate::control::registry::{ascending, sort_texts, strictly_ascending};
use crate::control::wire::texts;
use crate::endpoint::{unbracketed, Endpoint};
use crate::minecraft::packet::PacketError;
use crate::minecraft::responder::{
    conflict_document, document_packet, fits, incompatible_document, startup_document,
    status_document,
};
use crate::minecraft::{MinecraftResponder, MinecraftResponderSettings};
use crate::process::LaunchCommand;
use crate::rcon::{secret_fault, RconSecret};
use crate::supervisor::lifecycle::{Nanos, SECOND};
use crate::text::{byte_order_is_strict, same_bytes, same_text, text_before};

use super::hosts::{
    listener_endpoint, listener_fault, listener_point, lowered, target_endpoint, target_fault,
    target_point,
};
use super::paths::PathName;
use super::schema::{
    about_server, either_fault, environment_name, first_fault, first_fault_is_first, server_fault,
    server_fault_text, server_text, show, shown, validate_environment_name, ConfigDocument,
    RconSchema, SecondsSetting, ServerSchema, TimeoutsSchema,
};

verus! {

/// The times of a server in nanoseconds.
#[derive(Clone, Copy, Debug, PartialEq, Eq, Structural)]
pub struct PreparedTimeouts {
    pub poll: Nanos,
    pub idle: Nanos,
    pub startup: Nanos,
    pub retry: Nanos,
    pub command: Nanos,
    pub shutdown: Nanos,
    pub handshake: Nanos,
    pub proxy_connect: Nanos,
}

/// What is wrong with a time, if anything is.
pub open spec fn duration_fault(
    server_id: Seq<char>,
    name: Seq<char>,
    setting: SecondsSetting,
) -> Option<Seq<char>> {
    if setting.seconds == 0 {
        Some(about_server(server_id, name + " must be greater than zero"@))
    } else if !setting.representable {
        Some(
            about_server(
                server_id,
                name + " is too large for Tokio timing on this platform"@,
            ),
        )
    } else {
        None
    }
}

/// Checks a time and gives it in nanoseconds.
pub fn validate_duration(server_id: &str, name: &str, setting: SecondsSetting) -> (result: Result<
    Nanos,
    String,
>)
    ensures
        match duration_fault(server_id@, name@, setting) {
            None => result matches Ok(duration) && duration == setting.seconds * SECOND,
            Some(text) => result matches Err(error) && error@ == text,
        },
{
    if setting.seconds == 0 {
        let mut what = name.to_owned();
        what.append(" must be greater than zero");
        return Err(server_text(server_id, what.as_str()));
    }
    if !setting.representable {
        let mut what = name.to_owned();
        what.append(" is too large for Tokio timing on this platform");
        return Err(server_text(server_id, what.as_str()));
    }
    Ok(setting.seconds as u128 * SECOND)
}

/// What is wrong with the times of a server, if anything is.
pub open spec fn timeouts_fault(server_id: Seq<char>, raw: TimeoutsSchema) -> Option<Seq<char>> {
    first_fault(
        seq![
            duration_fault(server_id, "poll_interval_seconds"@, raw.poll_interval_seconds),
            duration_fault(server_id, "idle_timeout_seconds"@, raw.idle_timeout_seconds),
            duration_fault(server_id, "startup_timeout_seconds"@, raw.startup_timeout_seconds),
            duration_fault(server_id, "retry_interval_seconds"@, raw.retry_interval_seconds),
            duration_fault(server_id, "command_timeout_seconds"@, raw.command_timeout_seconds),
            duration_fault(server_id, "shutdown_timeout_seconds"@, raw.shutdown_timeout_seconds),
            duration_fault(
                server_id,
                "handshake_timeout_seconds"@,
                raw.handshake_timeout_seconds,
            ),
            duration_fault(
                server_id,
                "proxy_connect_timeout_seconds"@,
                raw.proxy_connect_timeout_seconds,
            ),
        ],
    )
}

/// That times are those of the configuration.
pub open spec fn timeouts_match(timeouts: PreparedTimeouts, raw: TimeoutsSchema) -> bool {
    &&& timeouts.poll == raw.poll_interval_seconds.seconds * SECOND
    &&& timeouts.idle == raw.idle_timeout_seconds.seconds * SECOND
    &&& timeouts.startup == raw.startup_timeout_seconds.seconds * SECOND
    &&& timeouts.retry == raw.retry_interval_seconds.seconds * SECOND
    &&& timeouts.command == raw.command_timeout_seconds.seconds * SECOND
    &&& timeouts.shutdown == raw.shutdown_timeout_seconds.seconds * SECOND
    &&& timeouts.handshake == raw.handshake_timeout_seconds.seconds * SECOND
    &&& timeouts.proxy_connect == raw.proxy_connect_timeout_seconds.seconds * SECOND
}

/// Checks the times of a server and gives them in nanoseconds.
pub fn prepare_timeouts(server_id: &str, raw: &TimeoutsSchema) -> (result: Result<
    PreparedTimeouts,
    String,
>)
    ensures
        match timeouts_fault(server_id@, *raw) {
            None => result matches Ok(timeouts) && timeouts_match(timeouts, *raw),
            Some(text) => result matches Err(error) && error@ == text,
        },
        result matches Ok(timeouts) ==> timeouts.poll == raw.poll_interval_seconds.seconds
            * 1_000_000_000,
        result matches Ok(timeouts) ==> timeouts.idle == raw.idle_timeout_seconds.seconds
            * 1_000_000_000,
        result matches Ok(timeouts) ==> timeouts.startup == raw.startup_timeout_seconds.seconds
            * 1_000_000_000,
        result matches Ok(timeouts) ==> timeouts.retry == raw.retry_interval_seconds.seconds
            * 1_000_000_000,
        result matches Ok(timeouts) ==> timeouts.command == raw.command_timeout_seconds.seconds
            * 1_000_000_000,
        result matches Ok(timeouts) ==> timeouts.shutdown == raw.shutdown_timeout_seconds.seconds
            * 1_000_000_000,
        result matches Ok(timeouts) ==> timeouts.handshake == raw.handshake_timeout_seconds.seconds
            * 1_000_000_000,
        result matches Ok(timeouts) ==> timeouts.proxy_connect
            == raw.proxy_connect_timeout_seconds.seconds
            * 1_000_000_000,
        raw.poll_interval_seconds.seconds == 0 || !raw.poll_interval_seconds.representable
            ==> result is Err,
        raw.idle_timeout_seconds.seconds == 0 || !raw.idle_timeout_seconds.representable
            ==> result is Err,
        raw.startup_timeout_seconds.seconds == 0 || !raw.startup_timeout_seconds.representable
            ==> result is Err,
        raw.retry_interval_seconds.seconds == 0 || !raw.retry_interval_seconds.representable
            ==> result is Err,
        raw.command_timeout_seconds.seconds == 0 || !raw.command_timeout_seconds.representable
            ==> result is Err,
        raw.shutdown_timeout_seconds.seconds == 0 || !raw.shutdown_timeout_seconds.representable
            ==> result is Err,
        raw.handshake_timeout_seconds.seconds == 0 || !raw.handshake_timeout_seconds.representable
            ==> result is Err,
        raw.proxy_connect_timeout_seconds.seconds == 0
            || !raw.proxy_connect_timeout_seconds.representable ==> result is Err,
{
    let ghost id = server_id@;
    let ghost faults = seq![
        duration_fault(id, "poll_interval_seconds"@, raw.poll_interval_seconds),
        duration_fault(id, "idle_timeout_seconds"@, raw.idle_timeout_seconds),
        duration_fault(id, "startup_timeout_seconds"@, raw.startup_timeout_seconds),
        duration_fault(id, "retry_interval_seconds"@, raw.retry_interval_seconds),
        duration_fault(id, "command_timeout_seconds"@, raw.command_timeout_seconds),
        duration_fault(id, "shutdown_timeout_seconds"@, raw.shutdown_timeout_seconds),
        duration_fault(id, "handshake_timeout_seconds"@, raw.handshake_timeout_seconds),
        duration_fault(id, "proxy_connect_timeout_seconds"@, raw.proxy_connect_timeout_seconds),
    ];
    let poll = match validate_duration(
        server_id,
        "poll_interval_seconds",
        raw.poll_interval_seconds,
    ) {
        Ok(duration) => duration,
        Err(text) => {
            proof {
                first_fault_is_first(faults, 0);
            }
            return Err(text);
        },
    };
    let idle = match validate_duration(server_id, "idle_timeout_seconds", raw.idle_timeout_seconds) {
        Ok(duration) => duration,
        Err(text) => {
            proof {
                first_fault_is_first(faults, 1);
            }
            return Err(text);
        },
    };
    let startup = match validate_duration(
        server_id,
        "startup_timeout_seconds",
        raw.startup_timeout_seconds,
    ) {
        Ok(duration) => duration,
        Err(text) => {
            proof {
                first_fault_is_first(faults, 2);
            }
            return Err(text);
        },
    };
    let retry = match validate_duration(
        server_id,
        "retry_interval_seconds",
        raw.retry_interval_seconds,
    ) {
        Ok(duration) => duration,
        Err(text) => {
            proof {
                first_fault_is_first(faults, 3);
            }
            return Err(text);
        },
    };
    let command = match validate_duration(
        server_id,
        "command_timeout_seconds",
        raw.command_timeout_seconds,
    ) {
        Ok(duration) => duration,
        Err(text) => {
            proof {
                first_fault_is_first(faults, 4);
            }
            return Err(text);
        },
    };
    let shutdown = match validate_duration(
        server_id,
        "shutdown_timeout_seconds",
        raw.shutdown_timeout_seconds,
    ) {
        Ok(duration) => duration,
        Err(text) => {
            proof {
                first_fault_is_first(faults, 5);
            }
            return Err(text);
        },
    };
    let handshake = match validate_duration(
        server_id,
        "handshake_timeout_seconds",
        raw.handshake_timeout_seconds,
    ) {
        Ok(duration) => duration,
        Err(text) => {
            proof {
                first_fault_is_first(faults, 6);
            }
            return Err(text);
        },
    };
    let proxy_connect = match validate_duration(
        server_id,
        "proxy_connect_timeout_seconds",
        raw.proxy_connect_timeout_seconds,
    ) {
        Ok(duration) => duration,
        Err(text) => {
            proof {
                first_fault_is_first(faults, 7);
            }
            return Err(text);
        },
    };
    proof {
        first_fault_is_first(faults, 8);
    }
    Ok(
        PreparedTimeouts {
            poll,
            idle,
            startup,
            retry,
            command,
            shutdown,
            handshake,
            proxy_connect,
        },
    )
}

/// What stands in an environment variable.
pub enum EnvironmentValue {
    Missing,
    NotUnicode,
    Text(String),
}

/// The remote console of a server.
pub struct RconConfig {
    pub endpoint: Endpoint,
    pub password: RconSecret,
}

/// What is wrong with the console of a server, if anything is.
pub open spec fn rcon_fault(
    server_id: Seq<char>,
    raw: RconSchema,
    value: EnvironmentValue,
) -> Option<Seq<char>> {
    if !environment_name(encode_utf8(raw.password_env@)) {
        Some(
            server_fault(
                server_id,
                "invalid RCON password_env"@,
                "password_env must match [A-Za-z_][A-Za-z0-9_]*"@,
            ),
        )
    } else {
        match value {
            EnvironmentValue::Missing => Some(
                about_server(
                    server_id,
                    "RCON password environment variable "@ + raw.password_env@ + " is missing"@,
                ),
            ),
            EnvironmentValue::NotUnicode => Some(
                about_server(
                    server_id,
                    "RCON password environment variable "@ + raw.password_env@
                        + " is not Unicode"@,
                ),
            ),
            EnvironmentValue::Text(password) => match secret_fault(password@) {
                Some(cause) => Some(
                    server_fault(
                        server_id,
                        "invalid RCON password in environment variable "@ + raw.password_env@,
                        cause,
                    ),
                ),
                None => target_fault(raw.target),
            },
        }
    }
}

/// That a console is the one of the configuration.
pub open spec fn rcon_matches(
    config: RconConfig,
    raw: RconSchema,
    value: EnvironmentValue,
) -> bool {
    &&& config.endpoint@ == target_point(raw.target)
    &&& value matches EnvironmentValue::Text(password) && config.password@ == password@
}

/// Prepares the console of a server with the value of its variable. No text that comes out of
/// it shows the password.
pub fn prepare_rcon(server_id: &str, raw: &RconSchema, value: &EnvironmentValue) -> (result: Result<
    RconConfig,
    String,
>)
    ensures
        match rcon_fault(server_id@, *raw, *value) {
            None => result matches Ok(config) && rcon_matches(config, *raw, *value),
            Some(text) => result matches Err(error) && error@ == text,
        },
{
    if let Err(cause) = validate_environment_name(raw.password_env.as_str()) {
        return Err(server_fault_text(server_id, "invalid RCON password_env", cause.as_str()));
    }
    let password = match value {
        EnvironmentValue::Missing => {
            let mut what = "RCON password environment variable ".to_owned();
            what.append(raw.password_env.as_str());
            what.append(" is missing");
            return Err(server_text(server_id, what.as_str()));
        },
        EnvironmentValue::NotUnicode => {
            let mut what = "RCON password environment variable ".to_owned();
            what.append(raw.password_env.as_str());
            what.append(" is not Unicode");
            return Err(server_text(server_id, what.as_str()));
        },
        EnvironmentValue::Text(text) => text.clone(),
    };
    let password = match RconSecret::new(password) {
        Ok(secret) => secret,
        Err(cause) => {
            let mut what = "invalid RCON password in environment variable ".to_owned();
            what.append(raw.password_env.as_str());
            return Err(server_fault_text(server_id, what.as_str(), cause.as_str()));
        },
    };
    match target_endpoint(&raw.target) {
        Ok(endpoint) => Ok(RconConfig { endpoint, password }),
        Err(text) => Err(text),
    }
}

/// That a variable holds the password of one of the servers.
pub open spec fn is_secret(servers: Seq<ServerSchema>, name: Seq<char>) -> bool {
    exists|i: int|
        0 <= i < servers.len() && (#[trigger] servers[i]).rcon is Some
            && (servers[i].rcon->0).password_env@ == name
}

/// In an ascending sequence a text that differs from the one before it comes strictly after it.
proof fn lemma_next_differs(items: Seq<Seq<char>>, kept: Seq<Seq<char>>, next: Seq<char>)
    requires
        strictly_ascending(kept),
        kept.len() > 0 ==> kept.last() != next && !text_before(next, kept.last()),
    ensures
        strictly_ascending(kept.push(next)),
{
    if kept.len() > 0 {
        let last = kept.last();
        vstd::utf8::encode_utf8_decode_utf8(last);
        vstd::utf8::encode_utf8_decode_utf8(next);
        byte_order_is_strict(encode_utf8(last), encode_utf8(next));
        assert(text_before(last, next));
        let longer = kept.push(next);
        assert forall|i: int, j: int| 0 <= i < j < longer.len() implies text_before(
            #[trigger] longer[i],
            #[trigger] longer[j],
        ) by {
            if j < kept.len() {
                assert(longer[i] == kept[i] && longer[j] == kept[j]);
            } else if i < kept.len() - 1 {
                assert(text_before(kept[i], kept[kept.len() - 1]));
                crate::text::byte_order_is_transitive(
                    encode_utf8(kept[i]),
                    encode_utf8(last),
                    encode_utf8(next),
                );
            }
        }
    }
}

/// The variables that hold the passwords of servers, each once and in ascending order.
pub fn secret_names(servers: &Vec<ServerSchema>) -> (names: Vec<String>)
    ensures
        are_secret_names(texts(names@), servers@),
{
    let mut all: Vec<String> = Vec::new();
    let mut at: usize = 0;
    while at < servers.len()
        invariant
            at <= servers@.len(),
            forall|name: Seq<char>|
                texts(all@).contains(name) <==> #[trigger] is_secret(
                    servers@.take(at as int),
                    name,
                ),
        decreases servers@.len() - at,
    {
        let ghost before = servers@.take(at as int);
        let ghost after = servers@.take(at + 1);
        let ghost held = texts(all@);
        match &servers[at].rcon {
            Some(rcon) => {
                let name = rcon.password_env.clone();
                all.push(name);
                proof {
                    assert(texts(all@) =~= held.push(rcon.password_env@));
                    assert forall|name: Seq<char>|
                        texts(all@).contains(name) <==> #[trigger] is_secret(after, name) by {
                        if texts(all@).contains(name) {
                            let i = choose|i: int| 0 <= i < texts(all@).len() && texts(all@)[i] == name;
                            if i < held.len() {
                                assert(held[i] == name);
                                assert(is_secret(before, name));
                                let j = choose|j: int|
                                    0 <= j < before.len() && (#[trigger] before[j]).rcon is Some && (
                                    before[j].rcon->0).password_env@ == name;
                                assert(after[j] == before[j]);
                            } else {
                                assert(after[at as int] == servers@[at as int]);
                            }
                        }
                        if is_secret(after, name) {
                            let j = choose|j: int|
                                0 <= j < after.len() && (#[trigger] after[j]).rcon is Some && (
                                after[j].rcon->0).password_env@ == name;
                            if j < at {
                                assert(before[j] == after[j]);
                                assert(is_secret(before, name));
                                let i = choose|i: int| 0 <= i < held.len() && held[i] == name;
                                assert(texts(all@)[i] == name);
                            } else {
                                assert(texts(all@)[held.len() as int] == name);
                            }
                        }
                    }
                }
            },
            None => {
                proof {
                    assert forall|name: Seq<char>|
                        texts(all@).contains(name) <==> #[trigger] is_secret(after, name) by {
                        if is_secret(before, name) {
                            let j = choose|j: int|
                                0 <= j < before.len() && (#[trigger] before[j]).rcon is Some && (
                                before[j].rcon->0).password_env@ == name;
                            assert(after[j] == before[j]);
                        }
                        if is_secret(after, name) {
                            let j = choose|j: int|
                                0 <= j < after.len() && (#[trigger] after[j]).rcon is Some && (
                                after[j].rcon->0).password_env@ == name;
                            assert(before[j] == after[j]);
                        }
                    }
                }
            },
        }
        at += 1;
    }
    assert(servers@.take(at as int) =~= servers@);
    let sorted = sort_texts(&all);
    proof {
        texts(sorted@).to_multiset_ensures();
        texts(all@).to_multiset_ensures();
        assert forall|name: Seq<char>| texts(sorted@).contains(name) <==> #[trigger] is_secret(
            servers@,
            name,
        ) by {
            assert(texts(sorted@).to_multiset().contains(name) <==> texts(
                all@,
            ).to_multiset().contains(name));
        }
    }
    let mut names: Vec<String> = Vec::new();
    let mut next: usize = 0;
    while next < sorted.len()
        invariant
            next <= sorted@.len(),
            ascending(texts(sorted@)),
            strictly_ascending(texts(names@)),
            names@.len() > 0 <==> next > 0,
            names@.len() > 0 ==> texts(names@).last() == texts(sorted@)[next - 1],
            forall|name: Seq<char>|
                #[trigger] texts(names@).contains(name) <==> texts(sorted@.take(next as int)).contains(
                    name,
                ),
        decreases sorted@.len() - next,
    {
        let fresh = names.len() == 0 || !same_text(
            names[names.len() - 1].as_str(),
            sorted[next].as_str(),
        );
        let ghost kept = texts(names@);
        let ghost seen = texts(sorted@.take(next as int));
        let ghost name = sorted@[next as int]@;
        assert(texts(sorted@.take(next + 1)) =~= seen.push(name));
        assert(texts(sorted@)[next as int] == name);
        if fresh {
            proof {
                lemma_next_differs(texts(sorted@), kept, name);
            }
            let copy = sorted[next].clone();
            names.push(copy);
            assert(texts(names@) =~= kept.push(name));
            assert forall|other: Seq<char>|
                #[trigger] texts(names@).contains(other) <==> texts(
                    sorted@.take(next + 1),
                ).contains(other) by {
                vstd::seq_lib::lemma_seq_contains_after_push(kept, name, other);
                vstd::seq_lib::lemma_seq_contains_after_push(seen, name, other);
            }
        } else {
            assert forall|other: Seq<char>|
                #[trigger] texts(names@).contains(other) <==> texts(
                    sorted@.take(next + 1),
                ).contains(other) by {
                assert(kept[kept.len() - 1] == name);
                assert(kept.contains(name));
                vstd::seq_lib::lemma_seq_contains_after_push(seen, name, other);
            }
        }
        next += 1;
    }
    assert(sorted@.take(next as int) =~= sorted@);
    names
}

/// What the program found out about a server outside of the configuration: its directory and
/// program, its icon if it has one, and the value of its password variable if it has a console.
pub struct ServerFiles {
    pub working_directory: Result<PathName, String>,
    pub program: Result<PathName, String>,
    pub icon: Option<Result<String, String>>,
    pub password: EnvironmentValue,
}

/// What the supervisor of a server works with.
pub struct SupervisorConfig {
    pub context: ServerContext,
    pub launch: LaunchCommand,
    pub rcon: Option<RconConfig>,
    pub poll_interval: Nanos,
    pub idle_timeout: Nanos,
    pub startup_timeout: Nanos,
    pub retry_interval: Nanos,
    pub command_timeout: Nanos,
    pub shutdown_timeout: Nanos,
}

/// What the runtime of a server works with.
pub struct ServerRuntimeConfig {
    pub bind_endpoint: Endpoint,
    pub backend_endpoint: Endpoint,
    pub handshake_timeout: Nanos,
    pub proxy_connect_timeout: Nanos,
    pub supervisor: SupervisorConfig,
}

/// A server that is ready to be run.
pub struct PreparedServerConfig {
    pub context: ServerContext,
    pub runtime: ServerRuntimeConfig,
    pub responder: MinecraftResponder,
}

/// A configuration that is ready to be run.
pub struct PreparedConfig {
    pub max_connections: usize,
    pub servers: Vec<PreparedServerConfig>,
}

/// How a server presents itself while it sleeps.
pub open spec fn responder_settings(server: ServerSchema, icon: Option<String>) -> MinecraftResponderSettings {
    MinecraftResponderSettings {
        minecraft_version: server.minecraft_version,
        sleeping_motd_text: server.motd.text,
        sleeping_motd_color: server.motd.color,
        sleeping_motd_bold: server.motd.bold,
        startup_message_text: server.startup_message.text,
        startup_message_color: server.startup_message.color,
        startup_message_bold: server.startup_message.bold,
        server_icon: icon,
    }
}

/// The icon of a server, if it has one.
pub open spec fn icon_of(files: ServerFiles) -> Option<String> {
    match files.icon {
        Some(Ok(icon)) => Some(icon),
        _ => None,
    }
}

/// What is wrong with the answers of a server while it sleeps, if anything is.
pub open spec fn responder_fault(
    server_id: Seq<char>,
    settings: MinecraftResponderSettings,
) -> Option<Seq<char>> {
    if fits(status_document(settings)) && fits(startup_document(settings)) && fits(
        conflict_document(),
    ) && fits(incompatible_document(settings.minecraft_version@)) {
        None
    } else {
        Some(
            server_fault(
                server_id,
                "failed to construct Minecraft responder"@,
                PacketError::StringTooLong.text(),
            ),
        )
    }
}

/// What is wrong with a server whose directory is good, if anything is.
pub open spec fn own_fault(server: ServerSchema, files: ServerFiles) -> Option<Seq<char>> {
    let id = server.server_id@;
    let program = match files.program {
        Ok(_) => None,
        Err(text) => Some(text@),
    };
    let icon = match files.icon {
        Some(Err(text)) => Some(text@),
        _ => None,
    };
    let responder = responder_fault(id, responder_settings(server, icon_of(files)));
    let rcon = match server.rcon {
        Some(raw) => rcon_fault(id, raw, files.password),
        None => None,
    };
    either_fault(
        program,
        either_fault(
            icon,
            either_fault(
                responder,
                either_fault(
                    timeouts_fault(id, server.timeouts),
                    either_fault(
                        rcon,
                        either_fault(
                            listener_fault(server.listener),
                            target_fault(server.backend),
                        ),
                    ),
                ),
            ),
        ),
    )
}

/// That two paths are the same.
pub open spec fn same_path(left: PathName, right: PathName) -> bool {
    left.encoded@ == right.encoded@ && left.shown@ == right.shown@
}

/// That a prepared server is what its configuration and its files say.
pub open spec fn prepared_as(
    prepared: PreparedServerConfig,
    server: ServerSchema,
    files: ServerFiles,
) -> bool {
    let runtime = prepared.runtime;
    let supervisor = runtime.supervisor;
    let settings = responder_settings(server, icon_of(files));
    &&& prepared.context@ == server.server_id@
    &&& supervisor.context@ == server.server_id@
    &&& runtime.bind_endpoint@ == listener_point(server.listener)
    &&& runtime.backend_endpoint@ == target_point(server.backend)
    &&& timeouts_match(
        PreparedTimeouts {
            poll: supervisor.poll_interval,
            idle: supervisor.idle_timeout,
            startup: supervisor.startup_timeout,
            retry: supervisor.retry_interval,
            command: supervisor.command_timeout,
            shutdown: supervisor.shutdown_timeout,
            handshake: runtime.handshake_timeout,
            proxy_connect: runtime.proxy_connect_timeout,
        },
        server.timeouts,
    )
    &&& match server.rcon {
        Some(raw) => supervisor.rcon matches Some(config) && rcon_matches(
            config,
            raw,
            files.password,
        ),
        None => supervisor.rcon is None,
    }
    &&& same_path(supervisor.launch.program, files.program->Ok_0)
    &&& same_path(supervisor.launch.working_directory, files.working_directory->Ok_0)
    &&& texts(supervisor.launch.arguments@) == texts(server.command.arguments@)
    &&& prepared.responder.release() == server.minecraft_version@
    &&& prepared.responder.status() == document_packet(status_document(settings))
    &&& prepared.responder.startup() == document_packet(startup_document(settings))
    &&& prepared.responder.conflict() == document_packet(conflict_document())
    &&& prepared.responder.incompatible() == document_packet(
        incompatible_document(server.minecraft_version@),
    )
}

/// That texts are the variables with the passwords of servers, each once and in ascending order.
pub open spec fn are_secret_names(names: Seq<Seq<char>>, servers: Seq<ServerSchema>) -> bool {
    &&& strictly_ascending(names)
    &&& forall|name: Seq<char>| names.contains(name) <==> #[trigger] is_secret(servers, name)
}

/// A copy of texts.
fn copy_texts(items: &Vec<String>) -> (copy: Vec<String>)
    ensures
        texts(copy@) == texts(items@),
{
    let mut copy: Vec<String> = Vec::new();
    let mut at: usize = 0;
    while at < items.len()
        invariant
            at <= items@.len(),
            copy@.len() == at,
            forall|i: int| 0 <= i < at ==> (#[trigger] copy@[i])@ == items@[i]@,
        decreases items@.len() - at,
    {
        let item = items[at].clone();
        copy.push(item);
        at += 1;
    }
    assert(texts(copy@) =~= texts(items@));
    copy
}

/// A copy of a path.
fn copy_path(path: &PathName) -> (copy: PathName)
    ensures
        same_path(copy, *path),
{
    let mut encoded: Vec<u8> = Vec::new();
    encoded.extend_from_slice(path.encoded.as_slice());
    assert(encoded@ =~= path.encoded@);
    PathName { encoded, shown: path.shown.clone() }
}

/// Prepares one server whose directory is good.
pub fn prepare_server(server: &ServerSchema, files: &ServerFiles, removed_environment: &Vec<String>) -> (result:
    Result<PreparedServerConfig, String>)
    requires
        files.working_directory is Ok,
    ensures
        match own_fault(*server, *files) {
            None => result matches Ok(prepared) && prepared_as(prepared, *server, *files) && texts(
                prepared.runtime.supervisor.launch.removed_environment@,
            ) == texts(removed_environment@),
            Some(text) => result matches Err(error) && error@ == text,
        },
        result matches Ok(prepared) ==> prepared.runtime.supervisor.poll_interval
            == server.timeouts.poll_interval_seconds.seconds * 1_000_000_000,
        result matches Ok(prepared) ==> prepared.runtime.supervisor.idle_timeout
            == server.timeouts.idle_timeout_seconds.seconds * 1_000_000_000,
        result matches Ok(prepared) ==> prepared.runtime.supervisor.startup_timeout
            == server.timeouts.startup_timeout_seconds.seconds * 1_000_000_000,
        result matches Ok(prepared) ==> prepared.runtime.supervisor.retry_interval
            == server.timeouts.retry_interval_seconds.seconds * 1_000_000_000,
        result matches Ok(prepared) ==> prepared.runtime.supervisor.command_timeout
            == server.timeouts.command_timeout_seconds.seconds * 1_000_000_000,
        result matches Ok(prepared) ==> prepared.runtime.supervisor.shutdown_timeout
            == server.timeouts.shutdown_timeout_seconds.seconds * 1_000_000_000,
        result matches Ok(prepared) ==> prepared.runtime.handshake_timeout
            == server.timeouts.handshake_timeout_seconds.seconds * 1_000_000_000,
        result matches Ok(prepared) ==> prepared.runtime.proxy_connect_timeout
            == server.timeouts.proxy_connect_timeout_seconds.seconds * 1_000_000_000,
{
    let server_id = server.server_id.as_str();
    let program = match &files.program {
        Ok(program) => copy_path(program),
        Err(text) => {
            return Err(text.clone());
        },
    };
    let icon = match &files.icon {
        Some(Ok(icon)) => Some(icon.clone()),
        Some(Err(text)) => {
            return Err(text.clone());
        },
        None => None,
    };
    let settings = MinecraftResponderSettings {
        minecraft_version: server.minecraft_version,
        sleeping_motd_text: server.motd.text.clone(),
        sleeping_motd_color: server.motd.color.clone(),
        sleeping_motd_bold: server.motd.bold,
        startup_message_text: server.startup_message.text.clone(),
        startup_message_color: server.startup_message.color.clone(),
        startup_message_bold: server.startup_message.bold,
        server_icon: icon,
    };
    assert(settings == responder_settings(*server, icon_of(*files)));
    let responder = match MinecraftResponder::new(&settings) {
        Ok(responder) => responder,
        Err(error) => {
            return Err(
                server_fault_text(
                    server_id,
                    "failed to construct Minecraft responder",
                    error.message().as_str(),
                ),
            );
        },
    };
    let timeouts = match prepare_timeouts(server_id, &server.timeouts) {
        Ok(timeouts) => timeouts,
        Err(text) => {
            return Err(text);
        },
    };
    let rcon = match &server.rcon {
        Some(raw) => match prepare_rcon(server_id, raw, &files.password) {
            Ok(config) => Some(config),
            Err(text) => {
                return Err(text);
            },
        },
        None => None,
    };
    let working_directory = match &files.working_directory {
        Ok(directory) => copy_path(directory),
        Err(text) => {
            return Err(text.clone());
        },
    };
    let launch = LaunchCommand::new(
        program,
        copy_texts(&server.command.arguments),
        working_directory,
    ).with_removed_environment(copy_texts(removed_environment));
    let bind_endpoint = match listener_endpoint(&server.listener) {
        Ok(endpoint) => endpoint,
        Err(text) => {
            return Err(text);
        },
    };
    let backend_endpoint = match target_endpoint(&server.backend) {
        Ok(endpoint) => endpoint,
        Err(text) => {
            return Err(text);
        },
    };
    let supervisor = SupervisorConfig {
        context: ServerContext::new(server.server_id.clone()),
        launch,
        rcon,
        poll_interval: timeouts.poll,
        idle_timeout: timeouts.idle,
        startup_timeout: timeouts.startup,
        retry_interval: timeouts.retry,
        command_timeout: timeouts.command,
        shutdown_timeout: timeouts.shutdown,
    };
    let runtime = ServerRuntimeConfig {
        bind_endpoint,
        backend_endpoint,
        handshake_timeout: timeouts.handshake,
        proxy_connect_timeout: timeouts.proxy_connect,
        supervisor,
    };
    Ok(
        PreparedServerConfig {
            context: ServerContext::new(server.server_id.clone()),
            runtime,
            responder,
        },
    )
}

/// That two servers have the same working directory.
pub open spec fn shares_directory(files: Seq<ServerFiles>, left: int, right: int) -> bool {
    &&& files[left].working_directory matches Ok(one)
    &&& files[right].working_directory matches Ok(other)
    &&& one.encoded@ == other.encoded@
}

/// The first server from `from` on that has the working directory of the server at `at`, if one
/// before it does.
pub open spec fn directory_owner(files: Seq<ServerFiles>, at: int, from: int) -> Option<int>
    decreases at - from,
{
    if from >= at {
        None
    } else if shares_directory(files, from, at) {
        Some(from)
    } else {
        directory_owner(files, at, from + 1)
    }
}

/// What is wrong with the server at `at` among all of them, if anything is.
pub open spec fn fault_at(
    servers: Seq<ServerSchema>,
    files: Seq<ServerFiles>,
    at: int,
) -> Option<Seq<char>> {
    match files[at].working_directory {
        Err(text) => Some(text@),
        Ok(directory) => match directory_owner(files, at, 0) {
            Some(owner) => Some(
                "servers "@ + shown(servers[owner].server_id@) + " and "@ + shown(
                    servers[at].server_id@,
                ) + " use the same canonical working directory "@ + directory.shown@,
            ),
            None => own_fault(servers[at], files[at]),
        },
    }
}

/// What is wrong with servers and their files, if anything is: the first complaint in the order
/// of the servers.
pub open spec fn preparation_fault(servers: Seq<ServerSchema>, files: Seq<ServerFiles>) -> Option<
    Seq<char>,
> {
    first_fault(Seq::new(servers.len(), |at: int| fault_at(servers, files, at)))
}

/// The server before `at` that has the same working directory, if there is one.
fn find_directory_owner(files: &Vec<ServerFiles>, at: usize) -> (owner: Option<usize>)
    requires
        at < files@.len(),
    ensures
        match directory_owner(files@, at as int, 0) {
            None => owner is None,
            Some(found) => owner matches Some(index) && index == found && index < at,
        },
{
    let directory = match &files[at].working_directory {
        Ok(directory) => directory,
        Err(_) => {
            proof {
                lemma_no_owner(files@, at as int, 0);
            }
            return None;
        },
    };
    let mut from: usize = 0;
    while from < at
        invariant
            from <= at < files@.len(),
            files@[at as int].working_directory == Ok::<PathName, String>(*directory),
            directory_owner(files@, at as int, 0) == directory_owner(
                files@,
                at as int,
                from as int,
            ),
        decreases at - from,
    {
        if let Ok(other) = &files[from].working_directory {
            if same_bytes(other.encoded.as_slice(), directory.encoded.as_slice()) {
                return Some(from);
            }
        }
        from += 1;
    }
    None
}

/// A server without a directory shares none.
proof fn lemma_no_owner(files: Seq<ServerFiles>, at: int, from: int)
    requires
        0 <= from,
        at < files.len(),
        files[at].working_directory is Err,
    ensures
        directory_owner(files, at, from) is None,
    decreases at - from,
{
    if from < at {
        lemma_no_owner(files, at, from + 1);
    }
}

/// Prepares the servers of an accepted document.
pub fn prepare_document(document: &ConfigDocument, files: &Vec<ServerFiles>) -> (result: Result<
    PreparedConfig,
    String,
>)
    requires
        files@.len() == document.servers@.len(),
    ensures
        match preparation_fault(document.servers@, files@) {
            None => {
                &&& result matches Ok(config)
                &&& config.max_connections == document.max_connections
                &&& config.servers@.len() == document.servers@.len()
                &&& forall|i: int|
                    0 <= i < config.servers@.len() ==> prepared_as(
                        #[trigger] config.servers@[i],
                        document.servers@[i],
                        files@[i],
                    ) && are_secret_names(
                        texts(
                            config.servers@[i].runtime.supervisor.launch.removed_environment@,
                        ),
                        document.servers@,
                    )
            },
            Some(text) => result matches Err(error) && error@ == text,
        },
        result matches Ok(config) ==> forall|i: int|
            #![trigger config.servers@[i]]
            0 <= i < config.servers@.len() ==> {
                let runtime = config.servers@[i].runtime;
                let timeouts = document.servers@[i].timeouts;
                &&& runtime.supervisor.poll_interval
                    == timeouts.poll_interval_seconds.seconds * 1_000_000_000
                &&& runtime.supervisor.idle_timeout
                    == timeouts.idle_timeout_seconds.seconds * 1_000_000_000
                &&& runtime.supervisor.startup_timeout
                    == timeouts.startup_timeout_seconds.seconds * 1_000_000_000
                &&& runtime.supervisor.retry_interval
                    == timeouts.retry_interval_seconds.seconds * 1_000_000_000
                &&& runtime.supervisor.command_timeout
                    == timeouts.command_timeout_seconds.seconds * 1_000_000_000
                &&& runtime.supervisor.shutdown_timeout
                    == timeouts.shutdown_timeout_seconds.seconds * 1_000_000_000
                &&& runtime.handshake_timeout
                    == timeouts.handshake_timeout_seconds.seconds * 1_000_000_000
                &&& runtime.proxy_connect_timeout
                    == timeouts.proxy_connect_timeout_seconds.seconds * 1_000_000_000
            },
{
    let names = secret_names(&document.servers);
    let ghost faults = Seq::new(
        document.servers@.len(),
        |at: int| fault_at(document.servers@, files@, at),
    );
    let mut servers: Vec<PreparedServerConfig> = Vec::new();
    let mut at: usize = 0;
    while at < document.servers.len()
        invariant
            at <= document.servers@.len(),
            files@.len() == document.servers@.len(),
            are_secret_names(texts(names@), document.servers@),
            faults == Seq::new(
                document.servers@.len(),
                |at: int| fault_at(document.servers@, files@, at),
            ),
            forall|i: int| 0 <= i < at ==> faults[i] is None,
            servers@.len() == at,
            forall|i: int|
                0 <= i < at ==> prepared_as(
                    #[trigger] servers@[i],
                    document.servers@[i],
                    files@[i],
                ) && are_secret_names(
                    texts(servers@[i].runtime.supervisor.launch.removed_environment@),
                    document.servers@,
                ),
        decreases document.servers@.len() - at,
    {
        assert(faults[at as int] == fault_at(document.servers@, files@, at as int));
        let directory = match &files[at].working_directory {
            Ok(directory) => directory,
            Err(text) => {
                proof {
                    first_fault_is_first(faults, at as int);
                }
                return Err(text.clone());
            },
        };
        if let Some(owner) = find_directory_owner(files, at) {
            let mut text = "servers ".to_owned();
            text.append(show(document.servers[owner].server_id.as_str()).as_str());
            text.append(" and ");
            text.append(show(document.servers[at].server_id.as_str()).as_str());
            text.append(" use the same canonical working directory ");
            text.append(directory.shown.as_str());
            proof {
                first_fault_is_first(faults, at as int);
            }
            return Err(text);
        }
        match prepare_server(&document.servers[at], &files[at], &names) {
            Ok(server) => {
                servers.push(server);
            },
            Err(text) => {
                proof {
                    first_fault_is_first(faults, at as int);
                }
                return Err(text);
            },
        }
        at += 1;
    }
    proof {
        first_fault_is_first(faults, at as int);
    }
    Ok(PreparedConfig { max_connections: document.max_connections, servers })
}

/// Servers that could be prepared have directories of their own.
pub proof fn prepared_servers_share_no_directory(
    servers: Seq<ServerSchema>,
    files: Seq<ServerFiles>,
    left: int,
    right: int,
)
    requires
        preparation_fault(servers, files) is None,
        servers.len() == files.len(),
        0 <= left < right < servers.len(),
    ensures
        !shares_directory(files, left, right),
{
    let faults = Seq::new(servers.len(), |at: int| fault_at(servers, files, at));
    super::schema::no_fault_anywhere(faults, right);
    assert(faults[right] == fault_at(servers, files, right));
    lemma_owner_from(files, right, 0, left);
}

/// Where no server owns a directory, none from there on shares it.
proof fn lemma_owner_from(files: Seq<ServerFiles>, at: int, from: int, left: int)
    requires
        directory_owner(files, at, from) is None,
        0 <= from <= left < at,
    ensures
        !shares_directory(files, left, at),
    decreases at - from,
{
    if from < left {
        lemma_owner_from(files, at, from + 1, left);
    }
}

/// A server is prepared as it is configured: it listens where it should, passes on to its own
/// backend, starts its own program in its own directory with the given arguments, and asks its own
/// console with the password of the environment.
pub proof fn servers_are_prepared_as_configured(
    prepared: PreparedServerConfig,
    server: ServerSchema,
    files: ServerFiles,
)
    requires
        prepared_as(prepared, server, files),
        listener_fault(server.listener) is None,
        target_fault(server.backend) is None,
        files.program is Ok,
        files.working_directory is Ok,
    ensures
        prepared.context@ == server.server_id@,
        prepared.runtime.supervisor.context@ == server.server_id@,
        prepared.runtime.bind_endpoint@.port == server.listener.port,
        prepared.runtime.bind_endpoint@.host == unbracketed(
            (server.listener.address.literal->Ok_0).text@,
        ),
        prepared.runtime.backend_endpoint@.port == server.backend.port,
        server.backend.host.literal matches Ok(literal)
            ==> prepared.runtime.backend_endpoint@.host == unbracketed(literal.text@),
        server.backend.host.literal is Err ==> prepared.runtime.backend_endpoint@.host
            == unbracketed(lowered(server.backend.host.text@)),
        prepared.runtime.supervisor.rcon is Some <==> server.rcon is Some,
        server.rcon matches Some(raw) ==> (prepared.runtime.supervisor.rcon matches Some(config)
            && config.endpoint@.port == raw.target.port && config.endpoint@ == target_point(
            raw.target,
        ) && files.password is Text && config.password@ == (files.password->Text_0)@),
        prepared.runtime.supervisor.launch.program.encoded@ == (files.program->Ok_0).encoded@,
        prepared.runtime.supervisor.launch.working_directory.encoded@ == (
        files.working_directory->Ok_0).encoded@,
        texts(prepared.runtime.supervisor.launch.arguments@) == texts(
            server.command.arguments@,
        ),
        prepared.responder.release() == server.minecraft_version@,
        prepared.responder.status() == document_packet(
            status_document(responder_settings(server, icon_of(files))),
        ),
        prepared.responder.startup() == document_packet(
            startup_document(responder_settings(server, icon_of(files))),
        ),
        prepared.responder.conflict() == document_packet(conflict_document()),
        prepared.responder.incompatible() == document_packet(
            incompatible_document(server.minecraft_version@),
        ),
{
}

/// A sleeping server shows its own message of the day and its icon, and its startup message to
/// whom it lets in; the two are not mixed up.
pub proof fn messages_are_as_configured(server: ServerSchema, icon: Option<String>)
    ensures
        responder_settings(server, icon).minecraft_version == server.minecraft_version,
        responder_settings(server, icon).sleeping_motd_text@ == server.motd.text@,
        responder_settings(server, icon).sleeping_motd_color == server.motd.color,
        responder_settings(server, icon).sleeping_motd_bold == server.motd.bold,
        responder_settings(server, icon).startup_message_text@ == server.startup_message.text@,
        responder_settings(server, icon).startup_message_color == server.startup_message.color,
        responder_settings(server, icon).startup_message_bold == server.startup_message.bold,
        responder_settings(server, icon).server_icon == icon,
{
}

/// A server is told no fault exactly if everything that it needs was found and is sound.
pub proof fn sound_servers_are_prepared(server: ServerSchema, files: ServerFiles)
    ensures
        own_fault(server, files) is None <==> files.program is Ok && !(files.icon matches Some(Err(
            _,
        ))) && responder_fault(
            server.server_id@,
            responder_settings(server, icon_of(files)),
        ) is None && timeouts_fault(server.server_id@, server.timeouts) is None && (
        server.rcon matches Some(raw) ==> rcon_fault(
            server.server_id@,
            raw,
            files.password,
        ) is None) && listener_fault(server.listener) is None && target_fault(
            server.backend,
        ) is None,
        files.icon matches Some(Ok(icon)) ==> icon_of(files) == Some(icon),
        files.icon is None ==> icon_of(files) is None,
{
}

/// A console is told no fault exactly if its variable is well named, is set to text, and that text
/// is a password that can be sent.
pub proof fn passwords_come_from_the_environment(
    server_id: Seq<char>,
    raw: RconSchema,
    value: EnvironmentValue,
)
    ensures
        rcon_fault(server_id, raw, value) is None <==> environment_name(
            encode_utf8(raw.password_env@),
        ) && (value matches EnvironmentValue::Text(password) && secret_fault(password@) is None)
            && target_fault(raw.target) is None,
{
}

/// A duration is told no fault exactly if it is above zero and can be measured.
pub proof fn durations_are_above_zero(
    server_id: Seq<char>,
    name: Seq<char>,
    setting: SecondsSetting,
)
    ensures
        duration_fault(server_id, name, setting) is None <==> setting.seconds > 0
            && setting.representable,
        setting.seconds == 0 ==> duration_fault(server_id, name, setting) == Some(
            "[server="@ + server_id + "] "@ + (name + " must be greater than zero"@),
        ),
{
}

/// The names that are kept from the servers' processes are exactly those of the passwords.
pub proof fn passwords_are_kept_from_processes(
    names: Seq<Seq<char>>,
    servers: Seq<ServerSchema>,
    at: int,
)
    requires
        are_secret_names(names, servers),
        0 <= at < servers.len(),
    ensures
        servers[at].rcon matches Some(rcon) ==> names.contains(rcon.password_env@),
        forall|name: Seq<char>| #[trigger]
            names.contains(name) ==> exists|i: int|
                0 <= i < servers.len() && (#[trigger] servers[i]).rcon is Some
                    && (servers[i].rcon->0).password_env@ == name,
{
    if servers[at].rcon is Some {
        assert(is_secret(servers, (servers[at].rcon->0).password_env@));
    }
    assert forall|name: Seq<char>| #[trigger] names.contains(name) implies exists|i: int|
        0 <= i < servers.len() && (#[trigger] servers[i]).rcon is Some
            && (servers[i].rcon->0).password_env@ == name by {
        assert(is_secret(servers, name));
    }
}

/// A configuration is prepared exactly if every server's directory was found, none is that of an
/// earlier server, and every server is sound by itself.
pub proof fn sound_configurations_are_prepared(servers: Seq<ServerSchema>, files: Seq<ServerFiles>)
    requires
        servers.len() == files.len(),
    ensures
        preparation_fault(servers, files) is None <==> forall|at: int|
            0 <= at < servers.len() ==> (#[trigger] files[at]).working_directory is Ok
                && own_fault(servers[at], files[at]) is None && directory_owner(
                files,
                at,
                0,
            ) is None,
{
    let faults = Seq::new(servers.len(), |at: int| fault_at(servers, files, at));
    if preparation_fault(servers, files) is None {
        assert forall|at: int| 0 <= at < servers.len() implies (
        #[trigger] files[at]).working_directory is Ok && own_fault(servers[at], files[at]) is None
            && directory_owner(files, at, 0) is None by {
            crate::config::schema::no_fault_anywhere(faults, at);
            assert(faults[at] == fault_at(servers, files, at));
        }
    }
    if forall|at: int|
        0 <= at < servers.len() ==> (#[trigger] files[at]).working_directory is Ok && own_fault(
            servers[at],
            files[at],
        ) is None && directory_owner(files, at, 0) is None {
        assert forall|at: int| 0 <= at < faults.len() implies faults[at] is None by {
            assert(files[at].working_directory is Ok);
        }
        first_fault_is_first(faults, faults.len() as int);
    }
}

/// A directory has an owner exactly if an earlier server was found to work in it, and then it is
/// the first of them.
pub proof fn directories_belong_to_the_first(files: Seq<ServerFiles>, at: int, from: int)
    requires
        0 <= from <= at < files.len(),
    ensures
        directory_owner(files, at, from) is None <==> forall|i: int|
            from <= i < at ==> !((#[trigger] files[i]).working_directory matches Ok(one)
                && files[at].working_directory matches Ok(other) && one.encoded@
                == other.encoded@),
        directory_owner(files, at, from) matches Some(owner) ==> from <= owner < at
            && files[owner].working_directory is Ok && files[at].working_directory is Ok
            && (files[owner].working_directory->Ok_0).encoded@ == (
        files[at].working_directory->Ok_0).encoded@,
    decreases at - from,
{
    if from < at {
        if shares_directory(files, from, at) {
            assert(files[from].working_directory is Ok);
        } else {
            directories_belong_to_the_first(files, at, from + 1);
        }
    }
}

/// The complaint about durations is about the first one that is not sound, by its name.
pub proof fn unsound_durations_are_named(server_id: Seq<char>, raw: TimeoutsSchema, at: int)
    requires
        0 <= at < 8,
        forall|i: int|
            0 <= i < at ==> ({
                let setting = #[trigger] durations(raw)[i].1;
                setting.seconds > 0 && setting.representable
            }),
        durations(raw)[at].1.seconds == 0 || !durations(raw)[at].1.representable,
    ensures
        timeouts_fault(server_id, raw) == Some(
            "[server="@ + server_id + "] "@ + (durations(raw)[at].0 + (if durations(
                raw,
            )[at].1.seconds == 0 {
                " must be greater than zero"@
            } else {
                " is too large for Tokio timing on this platform"@
            })),
        ),
{
    let faults = seq![
        duration_fault(server_id, "poll_interval_seconds"@, raw.poll_interval_seconds),
        duration_fault(server_id, "idle_timeout_seconds"@, raw.idle_timeout_seconds),
        duration_fault(server_id, "startup_timeout_seconds"@, raw.startup_timeout_seconds),
        duration_fault(server_id, "retry_interval_seconds"@, raw.retry_interval_seconds),
        duration_fault(server_id, "command_timeout_seconds"@, raw.command_timeout_seconds),
        duration_fault(server_id, "shutdown_timeout_seconds"@, raw.shutdown_timeout_seconds),
        duration_fault(server_id, "handshake_timeout_seconds"@, raw.handshake_timeout_seconds),
        duration_fault(
            server_id,
            "proxy_connect_timeout_seconds"@,
            raw.proxy_connect_timeout_seconds,
        ),
    ];
    assert forall|i: int| 0 <= i < 8 implies #[trigger] faults[i] == duration_fault(
        server_id,
        durations(raw)[i].0,
        durations(raw)[i].1,
    ) by {}
    assert forall|i: int| 0 <= i < at implies faults[i] is None by {
        assert(durations(raw)[i].1.seconds > 0);
    }
    first_fault_is_first(faults, at);
}

/// The durations of a server with their names, in the order in which they are looked at.
pub open spec fn durations(raw: TimeoutsSchema) -> Seq<(Seq<char>, SecondsSetting)> {
    seq![
        ("poll_interval_seconds"@, raw.poll_interval_seconds),
        ("idle_timeout_seconds"@, raw.idle_timeout_seconds),
        ("startup_timeout_seconds"@, raw.startup_timeout_seconds),
        ("retry_interval_seconds"@, raw.retry_interval_seconds),
        ("command_timeout_seconds"@, raw.command_timeout_seconds),
        ("shutdown_timeout_seconds"@, raw.shutdown_timeout_seconds),
        ("handshake_timeout_seconds"@, raw.handshake_timeout_seconds),
        ("proxy_connect_timeout_seconds"@, raw.proxy_connect_timeout_seconds),
    ]
}

/// A server can be answered for exactly if each of its four messages fits into a packet.
pub proof fn messages_fit_into_packets(
    server_id: Seq<char>,
    settings: MinecraftResponderSettings,
)
    ensures
        responder_fault(server_id, settings) is None <==> fits(status_document(settings)) && fits(
            startup_document(settings),
        ) && fits(conflict_document()) && fits(incompatible_document(settings.minecraft_version@)),
{
}

} // verus!
