//! Where the control endpoint is on Windows: a named pipe, and a file that says which.

use vstd::prelude::*;
use vstd::string::{StrSliceExecFns, StringExecFns, StringSliceAdditionalSpecFns};
use vstd::utf8::encode_utf8;

use crate::json::{
    json_of, numbers_read_back, object, objects_read_back, quoted, quoted_texts_read_back,
    told_members, Json, Member, ObjectWriter,
};
use crate::random::{hex, hex_text, random_bytes};
use crate::supervisor::lifecycle::Nanos;
use crate::text::{characters, decimal, in_context, same_text, with_context};

use super::wire::{is_lower_hex, is_lower_hex_text};

verus! {

/// The version of the locator.
pub const LOCATOR_VERSION: u16 = 1;

/// The biggest locator in bytes.
pub const MAX_LOCATOR_BYTES: u64 = 256;

/// How long a busy pipe is left alone.
pub const PIPE_BUSY_RETRY: Nanos = 25_000_000;

/// What the names of control pipes begin with.
pub open spec fn pipe_prefix() -> Seq<char> {
    "\\\\.\\pipe\\mcservernap-control-"@
}

/// The names of the files of a control endpoint.
pub struct LocatorFiles {
    pub lock: &'static str,
    pub locator: &'static str,
    pub temporary_locator: &'static str,
}

/// The names of the files of a control endpoint.
pub fn locator_files() -> (files: LocatorFiles)
    ensures
        files.lock@ == "control.lock"@,
        files.locator@ == "control.endpoint"@,
        files.temporary_locator@ == "control.endpoint.tmp"@,
{
    LocatorFiles {
        lock: "control.lock",
        locator: "control.endpoint",
        temporary_locator: "control.endpoint.tmp",
    }
}

/// The name of the pipe that is made of these bytes.
pub fn pipe_name(suffix: [u8; 16]) -> (name: String)
    ensures
        name@ == pipe_prefix() + hex(suffix@),
{
    let mut name = "\\\\.\\pipe\\mcservernap-control-".to_owned();
    name.append(hex_text(suffix.as_slice()).as_str());
    name
}

/// That a text is the name of a control pipe on this machine.
pub open spec fn control_pipe(name: Seq<char>) -> bool {
    &&& name.len() == pipe_prefix().len() + 32
    &&& pipe_prefix().is_prefix_of(name)
    &&& forall|i: int|
        pipe_prefix().len() <= i < name.len() ==> is_lower_hex(#[trigger] name[i])
}

/// A random name of a pipe.
pub fn random_pipe_name() -> (result: Result<String, String>)
    ensures
        match result {
            Ok(name) => control_pipe(name@),
            Err(text) => exists|cause: Seq<char>| #[trigger]
                in_context("failed to obtain OS randomness for the control pipe"@, cause) == text@,
        },
{
    match random_bytes() {
        Ok(bytes) => {
            let name = pipe_name(bytes);
            proof {
                lemma_made_names_are_pipes(bytes@);
            }
            Ok(name)
        },
        Err(cause) => Err(
            with_context(
                "failed to obtain OS randomness for the control pipe",
                cause.as_str(),
            ),
        ),
    }
}

/// Names that are made of bytes name control pipes.
proof fn lemma_made_names_are_pipes(suffix: Seq<u8>)
    requires
        suffix.len() == 16,
    ensures
        control_pipe(pipe_prefix() + hex(suffix)),
{
    let name = pipe_prefix() + hex(suffix);
    assert forall|i: int| pipe_prefix().len() <= i < name.len() implies is_lower_hex(
        #[trigger] name[i],
    ) by {
        let at = i - pipe_prefix().len();
        let byte = suffix[at / 2] as int;
        assert(0 <= byte / 16 < 16 && 0 <= byte % 16 < 16);
        assert(name[i] == hex(suffix)[at]);
    }
    assert(name.take(pipe_prefix().len() as int) =~= pipe_prefix());
}

/// What is wrong with the name of a pipe, if anything is.
pub open spec fn pipe_name_fault(name: Seq<char>) -> Option<Seq<char>> {
    if !pipe_prefix().is_prefix_of(name) {
        Some("control locator does not name a local MCServerNap pipe"@)
    } else if !control_pipe(name) {
        Some("control locator pipe suffix is invalid"@)
    } else {
        None
    }
}

/// Checks the name of a pipe: a control pipe on this machine.
pub fn validate_pipe_name(name: &str) -> (result: Result<(), String>)
    ensures
        match pipe_name_fault(name@) {
            None => result is Ok,
            Some(text) => result matches Err(error) && error@ == text,
        },
{
    let prefix = characters("\\\\.\\pipe\\mcservernap-control-");
    let chars = characters(name);
    if chars.len() < prefix.len() {
        return Err("control locator does not name a local MCServerNap pipe".to_owned());
    }
    let front = name.substring_char(0, prefix.len());
    if !same_text(front, "\\\\.\\pipe\\mcservernap-control-") {
        assert(!pipe_prefix().is_prefix_of(name@)) by {
            if pipe_prefix().is_prefix_of(name@) {
                assert(name@.subrange(0, pipe_prefix().len() as int) =~= pipe_prefix());
            }
        }
        return Err("control locator does not name a local MCServerNap pipe".to_owned());
    }
    assert(pipe_prefix().is_prefix_of(name@)) by {
        assert(name@.subrange(0, pipe_prefix().len() as int) =~= pipe_prefix());
    }
    let suffix = name.substring_char(prefix.len(), chars.len());
    let ghost from = pipe_prefix().len() as int;
    if is_lower_hex_text(suffix, 32) {
        assert forall|i: int| from <= i < name@.len() implies is_lower_hex(#[trigger] name@[i]) by {
            assert(suffix@[i - from] == name@[i]);
        }
        Ok(())
    } else {
        assert(!control_pipe(name@)) by {
            if control_pipe(name@) {
                assert(suffix@.len() == 32);
                assert forall|i: int| 0 <= i < 32 implies is_lower_hex(#[trigger] suffix@[i]) by {
                    assert(suffix@[i] == name@[i + from]);
                }
            }
        }
        Err("control locator pipe suffix is invalid".to_owned())
    }
}

/// The document that says which pipe it is.
pub open spec fn locator_document(pipe: Seq<char>) -> Seq<char> {
    object(
        seq![
            Member { key: "version"@, json: decimal(LOCATOR_VERSION as nat) },
            Member { key: "pipe"@, json: quoted(pipe) },
        ],
    )
}

/// The document that says which pipe it is, unless it is too long.
pub fn publish_locator(pipe_name: &str) -> (result: Result<String, String>)
    ensures
        if encode_utf8(locator_document(pipe_name@)).len() <= MAX_LOCATOR_BYTES {
            result matches Ok(contents) && contents@ == locator_document(pipe_name@)
        } else {
            result matches Err(text) && text@ == "control locator exceeds its fixed size bound"@
        },
        result is Ok <==> encode_utf8(locator_document(pipe_name@)).len() <= 256,
{
    let writer = ObjectWriter::new().number("version", LOCATOR_VERSION as u64).text(
        "pipe",
        pipe_name,
    );
    assert(writer@ =~= seq![
        Member { key: "version"@, json: decimal(LOCATOR_VERSION as nat) },
        Member { key: "pipe"@, json: quoted(pipe_name@) },
    ]);
    let contents = writer.finish();
    if contents.as_str().as_bytes().len() as u64 > MAX_LOCATOR_BYTES {
        return Err("control locator exceeds its fixed size bound".to_owned());
    }
    Ok(contents)
}

/// Checks the size of a locator before and after it is read: it must not be too long, and must
/// not change meanwhile.
pub fn check_locator_length(declared: u64, read: Option<u64>) -> (result: Result<(), String>)
    ensures
        if declared > MAX_LOCATOR_BYTES {
            result matches Err(text) && text@ == "control locator exceeds its fixed size bound"@
        } else if read is Some && read->0 != declared {
            result matches Err(text) && text@ == "control locator changed while it was read"@
        } else {
            result is Ok
        },
        declared > 256 ==> result is Err,
        declared <= 256 && read is None ==> result is Ok,
{
    if declared > MAX_LOCATOR_BYTES {
        return Err("control locator exceeds its fixed size bound".to_owned());
    }
    if let Some(length) = read {
        if length != declared {
            return Err("control locator changed while it was read".to_owned());
        }
    }
    Ok(())
}

/// Checks what stands in a locator.
pub fn read_locator(version: u16, pipe: &str) -> (result: Result<(), String>)
    ensures
        if version != LOCATOR_VERSION {
            result matches Err(text) && text@ == "control locator version is unsupported"@
        } else {
            match pipe_name_fault(pipe@) {
                None => result is Ok,
                Some(text) => result matches Err(error) && error@ == text,
            }
        },
        result is Ok ==> version == 1,
{
    if version != LOCATOR_VERSION {
        return Err("control locator version is unsupported".to_owned());
    }
    validate_pipe_name(pipe)
}

/// When to try a busy pipe again; none once time is up.
pub fn connect_pipe(now: Nanos, deadline: Nanos) -> (retry: Option<Nanos>)
    ensures
        retry == (if now >= deadline {
            None
        } else if now + PIPE_BUSY_RETRY < deadline {
            Some((now + PIPE_BUSY_RETRY) as Nanos)
        } else {
            Some(deadline)
        }),
        retry matches Some(moment) ==> now < moment <= deadline && moment - now <= 25_000_000 && (
        moment == deadline || moment - now == 25_000_000),
{
    if now >= deadline {
        return None;
    }
    let retry: Nanos = now.saturating_add(PIPE_BUSY_RETRY);
    if retry < deadline {
        Some(retry)
    } else {
        Some(deadline)
    }
}

/// Checks that a locator still names the pipe of this daemon, before it is removed.
pub fn guard_locator_cleanup(found: &str, own: &str) -> (result: Result<(), String>)
    ensures
        if found@ == own@ {
            result is Ok
        } else {
            result matches Err(text) && text@
                == "control locator no longer names this daemon's pipe"@
        },
{
    if same_text(found, own) {
        Ok(())
    } else {
        Err("control locator no longer names this daemon's pipe".to_owned())
    }
}

/// A name that this daemon makes is one that its clients accept.
pub proof fn made_pipe_names_are_accepted(suffix: Seq<u8>)
    requires
        suffix.len() == 16,
    ensures
        pipe_name_fault(pipe_prefix() + hex(suffix)) is None,
{
    lemma_made_names_are_pipes(suffix);
}

/// A name is that of a daemon's pipe exactly if thirty-two digits of `0` to `9` and `a` to `f`
/// follow the common beginning.
pub proof fn pipes_have_random_names(suffix: Seq<char>)
    ensures
        pipe_name_fault("\\\\.\\pipe\\mcservernap-control-"@ + suffix) is None <==> suffix.len() == 32
            && forall|i: int|
            0 <= i < suffix.len() ==> 48 <= #[trigger] suffix[i] as int <= 57 || 97
                <= suffix[i] as int <= 102,
{
    let front = "\\\\.\\pipe\\mcservernap-control-"@;
    let name = front + suffix;
    assert(front =~= name.take(front.len() as int));
    assert(pipe_prefix().is_prefix_of(name));
    if control_pipe(name) {
        assert forall|i: int| 0 <= i < suffix.len() implies 48 <= #[trigger] suffix[i] as int <= 57
            || 97 <= suffix[i] as int <= 102 by {
            assert(name[front.len() + i] == suffix[i]);
            assert(is_lower_hex(name[front.len() + i]));
        }
    }
    if suffix.len() == 32 && forall|i: int|
        0 <= i < suffix.len() ==> 48 <= #[trigger] suffix[i] as int <= 57 || 97 <= suffix[i] as int
            <= 102 {
        assert forall|i: int| pipe_prefix().len() <= i < name.len() implies is_lower_hex(
            #[trigger] name[i],
        ) by {
            assert(name[i] == suffix[i - front.len()]);
        }
    }
}

/// A name with another beginning is not that of a daemon's pipe.
pub proof fn other_names_are_refused(name: Seq<char>)
    requires
        !"\\\\.\\pipe\\mcservernap-control-"@.is_prefix_of(name),
    ensures
        pipe_name_fault(name) is Some,
{
}

/// A locator tells its version, 1, and the name of the pipe.
pub proof fn locators_tell_the_pipe(pipe: Seq<char>)
    ensures
        json_of(locator_document(pipe)) == Some(
            Json::Object(seq![("version"@, Json::Number(1)), ("pipe"@, Json::Text(pipe))]),
        ),
{
    numbers_read_back(1);
    quoted_texts_read_back(pipe);
    let members = seq![
        Member { key: "version"@, json: decimal(1) },
        Member { key: "pipe"@, json: quoted(pipe) },
    ];
    let values = seq![Json::Number(1), Json::Text(pipe)];
    objects_read_back(members, values);
    assert(told_members(members, values) =~= seq![
        ("version"@, Json::Number(1)),
        ("pipe"@, Json::Text(pipe)),
    ]);
}

} // verus!
