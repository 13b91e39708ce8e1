//! Paths in the configuration, and what is said when one of them is no good.

use vstd::prelude::*;
use vstd::string::{StringExecFns, StringSliceAdditionalSpecFns};
use vstd::utf8::encode_utf8;

use crate::rcon::contains_byte;
use crate::text::{in_context, with_context};

use super::schema::{
    about_server, inspect_schema_version, server_fault, server_fault_text, server_text,
    toml_integer, version_fault,
};

verus! {

/// A path: the bytes that identify it, and how it is shown.
pub struct PathName {
    pub encoded: Vec<u8>,
    pub shown: String,
}

/// Where a path that is written in the configuration starts.
#[derive(Clone, Copy, Debug, PartialEq, Eq, Structural)]
pub enum PathBase {
    /// It is complete as it is.
    Itself,
    /// It starts in a given directory.
    Below,
}

/// That a byte is a letter.
pub open spec fn letter(byte: u8) -> bool {
    0x41 <= byte <= 0x5a || 0x61 <= byte <= 0x7a
}

/// That a path names a drive of Windows but no place on it: a letter and a colon, and no slash
/// behind them.
pub open spec fn drive_relative(path: Seq<u8>) -> bool {
    &&& path.len() >= 2
    &&& letter(path[0])
    &&& path[1] == 0x3a
    &&& path.len() == 2 || (path[2] != 0x2f && path[2] != 0x5c)
}

/// That a path begins with exactly one of a kind of slash.
pub open spec fn one_slash(path: Seq<u8>, slash: u8) -> bool {
    path.len() >= 1 && path[0] == slash && !(path.len() >= 2 && path[1] == slash)
}

/// That a path means different places at different times. One that begins with a single slash
/// does so on Windows only.
pub open spec fn ambiguous(path: Seq<u8>, windows: bool) -> bool {
    drive_relative(path) || (windows && (one_slash(path, 0x5c) || one_slash(path, 0x2f)))
}

/// The text for a path that means different places at different times.
pub open spec fn ambiguity_text(description: Seq<char>) -> Seq<char> {
    description + " must not use a Windows drive-relative or root-relative path"@
}

/// Whether a path begins with exactly one of a kind of slash.
fn has_one_slash(path: &[u8], slash: u8) -> (one: bool)
    ensures
        one == one_slash(path@, slash),
{
    path.len() >= 1 && path[0] == slash && !(path.len() >= 2 && path[1] == slash)
}

/// Refuses a path that means different places at different times.
pub fn reject_ambiguous_windows_path(path: &str, windows: bool, description: &str) -> (result:
    Result<(), String>)
    ensures
        if ambiguous(encode_utf8(path@), windows) {
            result matches Err(error) && error@ == ambiguity_text(description@)
        } else {
            result is Ok
        },
{
    let bytes = path.as_bytes();
    let drive_relative = bytes.len() >= 2 && ((0x41 <= bytes[0] && bytes[0] <= 0x5a) || (0x61
        <= bytes[0] && bytes[0] <= 0x7a)) && bytes[1] == 0x3a && (bytes.len() == 2 || (bytes[2]
        != 0x2f && bytes[2] != 0x5c));
    let root_relative = windows && (has_one_slash(bytes, 0x5c) || has_one_slash(bytes, 0x2f));
    if drive_relative || root_relative {
        let mut text = description.to_owned();
        text.append(" must not use a Windows drive-relative or root-relative path");
        return Err(text);
    }
    Ok(())
}

/// That a program is given by its path: there is a slash in it, or it is absolute.
pub open spec fn path_like(program: Seq<u8>, absolute: bool) -> bool {
    program.contains(0x2f) || program.contains(0x5c) || absolute
}

/// Whether a program is given by its path.
pub fn is_path_like(program: &str, absolute: bool) -> (yes: bool)
    ensures
        yes == path_like(encode_utf8(program@), absolute),
{
    let bytes = program.as_bytes();
    contains_byte(bytes, 0x2f) || contains_byte(bytes, 0x5c) || absolute
}

/// Where a path starts.
pub open spec fn base_of(absolute: bool) -> PathBase {
    if absolute {
        PathBase::Itself
    } else {
        PathBase::Below
    }
}

/// Where a path starts that is written in the configuration.
pub fn resolve_config_path(path: &str, absolute: bool, windows: bool, description: &str) -> (result:
    Result<PathBase, String>)
    ensures
        if ambiguous(encode_utf8(path@), windows) {
            result matches Err(error) && error@ == ambiguity_text(description@)
        } else {
            result == Ok::<PathBase, String>(base_of(absolute))
        },
{
    match reject_ambiguous_windows_path(path, windows, description) {
        Ok(_) => Ok(
            if absolute {
                PathBase::Itself
            } else {
                PathBase::Below
            },
        ),
        Err(text) => Err(text),
    }
}

/// How a program is found.
#[derive(Clone, Copy, Debug, PartialEq, Eq, Structural)]
pub enum ProgramKind {
    /// By its bare name, wherever the system looks for programs.
    Bare,
    /// By its path.
    File(PathBase),
}

/// How a program is found.
pub fn program_kind(server_id: &str, program: &str, absolute: bool, windows: bool) -> (result:
    Result<ProgramKind, String>)
    ensures
        ({
            let bytes = encode_utf8(program@);
            if bytes.len() == 0 {
                result matches Err(error) && error@ == about_server(
                    server_id@,
                    "command.program must not be empty"@,
                )
            } else if ambiguous(bytes, windows) {
                result matches Err(error) && error@ == server_fault(
                    server_id@,
                    "invalid command.program"@,
                    ambiguity_text("command.program"@),
                )
            } else {
                result == Ok::<ProgramKind, String>(
                    if path_like(bytes, absolute) {
                        ProgramKind::File(base_of(absolute))
                    } else {
                        ProgramKind::Bare
                    },
                )
            }
        }),
{
    if program.as_bytes().len() == 0 {
        return Err(server_text(server_id, "command.program must not be empty"));
    }
    match resolve_config_path(program, absolute, windows, "command.program") {
        Ok(base) => {
            if is_path_like(program, absolute) {
                Ok(ProgramKind::File(base))
            } else {
                Ok(ProgramKind::Bare)
            }
        },
        Err(cause) => Err(server_fault_text(server_id, "invalid command.program", cause.as_str())),
    }
}

/// What stands at a path.
pub enum PathLookup {
    /// Nothing that could be looked at.
    Unreadable(String),
    /// Something of another kind than was wanted.
    OtherKind,
    /// What was wanted, but its real path could not be found out.
    NotCanonical(String),
    /// What was wanted, with its real path.
    Found(PathName),
}

/// Three texts in a row.
pub open spec fn sentence(front: Seq<char>, middle: Seq<char>, back: Seq<char>) -> Seq<char> {
    front + middle + back
}

/// Three texts in a row.
fn join(front: &str, middle: &str, back: &str) -> (text: String)
    ensures
        text@ == sentence(front@, middle@, back@),
{
    let mut text = front.to_owned();
    text.append(middle);
    text.append(back);
    text
}

/// What is wrong with the working directory of a server, if anything is.
pub open spec fn directory_fault(server_id: Seq<char>, path: Seq<char>, lookup: PathLookup) -> Option<
    Seq<char>,
> {
    match lookup {
        PathLookup::Unreadable(cause) => Some(
            server_fault(
                server_id,
                sentence("working_directory "@, path, " does not exist or is unreadable"@),
                cause@,
            ),
        ),
        PathLookup::OtherKind => Some(
            about_server(
                server_id,
                sentence("working_directory "@, path, " is not a directory"@),
            ),
        ),
        PathLookup::NotCanonical(cause) => Some(
            server_fault(
                server_id,
                sentence("failed to canonicalize working_directory "@, path, ""@),
                cause@,
            ),
        ),
        PathLookup::Found(_) => None,
    }
}

/// Takes the working directory of a server.
pub fn resolve_working_directory(server_id: &str, path: &str, lookup: PathLookup) -> (result:
    Result<PathName, String>)
    ensures
        match directory_fault(server_id@, path@, lookup) {
            None => result == Ok::<PathName, String>(lookup->Found_0),
            Some(text) => result matches Err(error) && error@ == text,
        },
{
    match lookup {
        PathLookup::Unreadable(cause) => Err(
            server_fault_text(
                server_id,
                join("working_directory ", path, " does not exist or is unreadable").as_str(),
                cause.as_str(),
            ),
        ),
        PathLookup::OtherKind => Err(
            server_text(
                server_id,
                join("working_directory ", path, " is not a directory").as_str(),
            ),
        ),
        PathLookup::NotCanonical(cause) => Err(
            server_fault_text(
                server_id,
                join("failed to canonicalize working_directory ", path, "").as_str(),
                cause.as_str(),
            ),
        ),
        PathLookup::Found(name) => Ok(name),
    }
}

/// What is wrong with the program of a server, if anything is.
pub open spec fn program_fault(server_id: Seq<char>, path: Seq<char>, lookup: PathLookup) -> Option<
    Seq<char>,
> {
    match lookup {
        PathLookup::Unreadable(cause) => Some(
            server_fault(
                server_id,
                sentence("path-like command.program "@, path, " does not resolve to a file"@),
                cause@,
            ),
        ),
        PathLookup::OtherKind => Some(
            about_server(
                server_id,
                sentence("path-like command.program "@, path, " is not a file"@),
            ),
        ),
        PathLookup::NotCanonical(cause) => Some(
            in_context(
                sentence("failed to canonicalize command.program "@, path, ""@),
                cause@,
            ),
        ),
        PathLookup::Found(_) => None,
    }
}

/// Takes the program of a server that is given by its path.
pub fn resolve_program(server_id: &str, path: &str, lookup: PathLookup) -> (result: Result<
    PathName,
    String,
>)
    ensures
        match program_fault(server_id@, path@, lookup) {
            None => result == Ok::<PathName, String>(lookup->Found_0),
            Some(text) => result matches Err(error) && error@ == text,
        },
{
    match lookup {
        PathLookup::Unreadable(cause) => Err(
            server_fault_text(
                server_id,
                join("path-like command.program ", path, " does not resolve to a file").as_str(),
                cause.as_str(),
            ),
        ),
        PathLookup::OtherKind => Err(
            server_text(
                server_id,
                join("path-like command.program ", path, " is not a file").as_str(),
            ),
        ),
        PathLookup::NotCanonical(cause) => Err(
            with_context(
                join("failed to canonicalize command.program ", path, "").as_str(),
                cause.as_str(),
            ),
        ),
        PathLookup::Found(name) => Ok(name),
    }
}

/// Where the path of the configuration itself starts.
pub fn configuration_path(
    base_absolute: bool,
    path: &str,
    absolute: bool,
    windows: bool,
) -> (result: Result<PathBase, String>)
    ensures
        if !base_absolute {
            result matches Err(error) && error@ == "configuration path base must be absolute"@
        } else if ambiguous(encode_utf8(path@), windows) {
            result matches Err(error) && error@ == ambiguity_text("configuration path"@)
        } else {
            result == Ok::<PathBase, String>(base_of(absolute))
        },
{
    if !base_absolute {
        return Err("configuration path base must be absolute".to_owned());
    }
    resolve_config_path(path, absolute, windows, "configuration path")
}

/// What came of reading the configuration.
pub enum ConfigurationRead {
    Missing,
    Unreadable(String),
    Contents(String),
}

/// The text for a configuration that is no good.
pub open spec fn invalid_configuration(path: Seq<char>, cause: Seq<char>) -> Seq<char> {
    in_context("invalid configuration at "@ + path, cause)
}

/// The text for a configuration that is no good.
pub fn invalid_configuration_text(path: &str, cause: &str) -> (text: String)
    ensures
        text@ == invalid_configuration(path@, cause@),
{
    let mut context = "invalid configuration at ".to_owned();
    context.append(path);
    with_context(context.as_str(), cause)
}

/// What is wrong with what came of reading the configuration, if anything is.
pub open spec fn configuration_fault(path: Seq<char>, read: ConfigurationRead) -> Option<
    Seq<char>,
> {
    match read {
        ConfigurationRead::Missing => Some(
            sentence(
                "listener configuration "@,
                path,
                " is missing; create a schema-v3 configuration from config.example.toml"@,
            ),
        ),
        ConfigurationRead::Unreadable(cause) => Some(
            in_context("failed to read configuration at "@ + path, cause@),
        ),
        ConfigurationRead::Contents(contents) => match version_fault(
            toml_integer(contents@, "schema_version"@),
        ) {
            Some(cause) => Some(invalid_configuration(path, cause)),
            None => None,
        },
    }
}

/// Takes what came of reading the configuration. The version of the format is looked at before
/// anything else in it.
pub fn accept_configuration(path: &str, read: ConfigurationRead) -> (result: Result<String, String>)
    ensures
        match configuration_fault(path@, read) {
            None => result matches Ok(contents) && contents == read->Contents_0,
            Some(text) => result matches Err(error) && error@ == text,
        },
{
    match read {
        ConfigurationRead::Missing => Err(
            join(
                "listener configuration ",
                path,
                " is missing; create a schema-v3 configuration from config.example.toml",
            ),
        ),
        ConfigurationRead::Unreadable(cause) => {
            let mut context = "failed to read configuration at ".to_owned();
            context.append(path);
            Err(with_context(context.as_str(), cause.as_str()))
        },
        ConfigurationRead::Contents(contents) => match inspect_schema_version(contents.as_str()) {
            Ok(_) => Ok(contents),
            Err(cause) => Err(invalid_configuration_text(path, cause.as_str())),
        },
    }
}

/// A path is ambiguous if it begins with a drive and no separator, and on Windows also if it
/// begins with a single separator.
pub proof fn ambiguous_paths_depend_on_the_place(path: Seq<u8>)
    ensures
        ambiguous(path, false) <==> path.len() >= 2 && (65 <= path[0] <= 90 || 97 <= path[0]
            <= 122) && path[1] == 58 && (path.len() == 2 || (path[2] != 47 && path[2] != 92)),
        ambiguous(path, true) <==> ambiguous(path, false) || (path.len() >= 1 && (path[0] == 47
            || path[0] == 92) && (path.len() == 1 || path[1] != path[0])),
{
}

/// A program is looked up below the configuration exactly if its name holds a separator or is an
/// absolute path.
pub proof fn separators_make_paths(program: Seq<u8>, absolute: bool)
    ensures
        path_like(program, absolute) <==> absolute || exists|i: int|
            0 <= i < program.len() && (#[trigger] program[i] == 47 || program[i] == 92),
        base_of(absolute) == PathBase::Itself <==> absolute,
{
    if program.contains(0x2f) {
        let i = choose|i: int| 0 <= i < program.len() && program[i] == 0x2f;
        assert(program[i] == 47);
    }
    if program.contains(0x5c) {
        let i = choose|i: int| 0 <= i < program.len() && program[i] == 0x5c;
        assert(program[i] == 92);
    }
}

/// A directory and a program are taken exactly where they were found as what they should be, and a
/// configuration exactly if it could be read and is of version 3.
pub proof fn only_what_is_found_is_taken(
    server_id: Seq<char>,
    path: Seq<char>,
    lookup: PathLookup,
    read: ConfigurationRead,
)
    ensures
        directory_fault(server_id, path, lookup) is None <==> lookup is Found,
        program_fault(server_id, path, lookup) is None <==> lookup is Found,
        configuration_fault(path, read) is None <==> (read matches ConfigurationRead::Contents(
            contents,
        ) && toml_integer(contents@, "schema_version"@) == Ok::<Option<i64>, Seq<char>>(
            Some(3i64),
        )),
{
}

/// A complaint about a path names the server and the path, and tells the cause where there is one.
pub proof fn complaints_name_the_path(
    server_id: Seq<char>,
    path: Seq<char>,
    cause: String,
    description: Seq<char>,
)
    ensures
        directory_fault(server_id, path, PathLookup::OtherKind) == Some(
            "[server="@ + server_id + "] "@ + ("working_directory "@ + path
                + " is not a directory"@),
        ),
        directory_fault(server_id, path, PathLookup::Unreadable(cause)) == Some(
            "[server="@ + server_id + "] "@ + ("working_directory "@ + path
                + " does not exist or is unreadable"@) + ": "@ + cause@,
        ),
        program_fault(server_id, path, PathLookup::OtherKind) == Some(
            "[server="@ + server_id + "] "@ + ("path-like command.program "@ + path
                + " is not a file"@),
        ),
        program_fault(server_id, path, PathLookup::Unreadable(cause)) == Some(
            "[server="@ + server_id + "] "@ + ("path-like command.program "@ + path
                + " does not resolve to a file"@) + ": "@ + cause@,
        ),
        configuration_fault(path, ConfigurationRead::Unreadable(cause)) == Some(
            "failed to read configuration at "@ + path + ": "@ + cause@,
        ),
        configuration_fault(path, ConfigurationRead::Missing) == Some(
            "listener configuration "@ + path
                + " is missing; create a schema-v3 configuration from config.example.toml"@,
        ),
        invalid_configuration(path, cause@) == "invalid configuration at "@ + path + ": "@ + cause@,
        ambiguity_text(description) == description
            + " must not use a Windows drive-relative or root-relative path"@,
{
}

} // verus!
