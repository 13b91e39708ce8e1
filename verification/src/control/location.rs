//! Where the control endpoint is on Unix, and what may stand there.

use vstd::prelude::*;
use vstd::string::{StringExecFns, StringSliceAdditionalSpecFns};
use vstd::utf8::encode_utf8;

use crate::rcon::contains_byte;
use crate::text::{append_decimal, decimal, in_context, with_context};

verus! {

/// The socket and the lock of a control endpoint.
pub struct EndpointPaths {
    pub directory: String,
    pub socket: String,
    pub lock: String,
}

/// The directory of the control endpoint of a user.
pub open spec fn control_directory(uid: u32) -> Seq<char> {
    "/tmp/mcservernap-"@ + decimal(uid as nat)
}

/// What is wrong with the path of a socket, if anything is: addresses of sockets have room for
/// so many bytes, and end at the first NUL.
pub open spec fn socket_path_fault(path: Seq<u8>, maximum: nat) -> Option<Seq<char>> {
    if path.contains(0u8) {
        Some("control socket path contains a NUL byte"@)
    } else if path.len() > maximum {
        Some(
            "control socket path is "@ + decimal(path.len())
                + " bytes; this platform supports at most "@ + decimal(maximum),
        )
    } else {
        None
    }
}

/// Checks the path of a socket; `maximum` is the room for it.
pub fn validate_socket_path(path: &[u8], maximum: usize) -> (result: Result<(), String>)
    ensures
        match socket_path_fault(path@, maximum as nat) {
            None => result is Ok,
            Some(text) => result matches Err(error) && error@ == text,
        },
{
    if contains_byte(path, 0) {
        return Err("control socket path contains a NUL byte".to_owned());
    }
    if path.len() > maximum {
        let mut text = "control socket path is ".to_owned();
        append_decimal(&mut text, path.len() as u64);
        text.append(" bytes; this platform supports at most ");
        append_decimal(&mut text, maximum as u64);
        return Err(text);
    }
    Ok(())
}

/// Where the control endpoint of a user is. Nothing but the user decides it.
pub fn discover_paths(effective_uid: u32, maximum: usize) -> (result: Result<EndpointPaths, String>)
    ensures
        ({
            let directory = control_directory(effective_uid);
            match socket_path_fault(
                encode_utf8(directory + "/control.sock"@),
                maximum as nat,
            ) {
                None => {
                    &&& result matches Ok(paths)
                    &&& paths.directory@ == directory
                    &&& paths.socket@ == directory + "/control.sock"@
                    &&& paths.lock@ == directory + "/control.lock"@
                },
                Some(text) => result matches Err(error) && error@ == text,
            }
        }),
{
    let mut directory = "/tmp/mcservernap-".to_owned();
    append_decimal(&mut directory, effective_uid as u64);
    let mut socket = directory.clone();
    socket.append("/control.sock");
    if let Err(text) = validate_socket_path(socket.as_str().as_bytes(), maximum) {
        return Err(text);
    }
    let mut lock = directory.clone();
    lock.append("/control.lock");
    Ok(EndpointPaths { directory, socket, lock })
}

/// What kind of thing stands at a path, not following links.
#[derive(Clone, Copy, Debug, PartialEq, Eq, Structural)]
pub enum EntryKind {
    Directory,
    RegularFile,
    Socket,
    SymbolicLink,
    Other,
}

/// What stands at a path.
#[derive(Clone, Copy, Debug, PartialEq, Eq, Structural)]
pub struct EntryFacts {
    pub kind: EntryKind,
    pub owner: u32,
    /// Who may do what, as in the mode bits of a file.
    pub mode: u32,
}

/// What came of looking at a path.
pub enum EntryLookup {
    Found(EntryFacts),
    Missing,
    Failed(String),
}

/// What to do about the private directory.
pub enum DirectoryStep {
    /// Check it.
    Validate,
    /// Make it, for its owner alone, and check it then.
    Create,
    Refuse(String),
}

/// What to do about the private directory; only the daemon makes it.
pub fn prepare_private_directory(lookup: EntryLookup, create: bool, missing_cause: &str) -> (step:
    DirectoryStep)
    ensures
        match lookup {
            EntryLookup::Found(_) => step is Validate,
            EntryLookup::Missing => if create {
                step is Create
            } else {
                step matches DirectoryStep::Refuse(text) && text@ == in_context(
                    "private control directory is unavailable"@,
                    missing_cause@,
                )
            },
            EntryLookup::Failed(cause) => step matches DirectoryStep::Refuse(text) && text@
                == in_context("private control directory is unavailable"@, cause@),
        },
{
    match lookup {
        EntryLookup::Found(_) => DirectoryStep::Validate,
        EntryLookup::Missing => {
            if create {
                DirectoryStep::Create
            } else {
                DirectoryStep::Refuse(
                    with_context("private control directory is unavailable", missing_cause),
                )
            }
        },
        EntryLookup::Failed(cause) => DirectoryStep::Refuse(
            with_context("private control directory is unavailable", cause.as_str()),
        ),
    }
}

/// What is wrong with the private directory, if anything is.
pub open spec fn directory_fault(facts: EntryFacts, effective_uid: u32) -> Option<Seq<char>> {
    if facts.kind != EntryKind::Directory {
        Some("control directory must be a real directory, not a symlink"@)
    } else if facts.owner != effective_uid {
        Some("control directory is not owned by the effective UID"@)
    } else if facts.mode % 0o1000 != 0o700 {
        Some("control directory must have mode 0700"@)
    } else {
        None
    }
}

/// Checks the private directory: a real directory of the user, open to nobody else.
pub fn validate_private_directory(facts: EntryFacts, effective_uid: u32) -> (result: Result<
    (),
    String,
>)
    ensures
        match directory_fault(facts, effective_uid) {
            None => result is Ok,
            Some(text) => result matches Err(error) && error@ == text,
        },
{
    if facts.kind != EntryKind::Directory {
        return Err("control directory must be a real directory, not a symlink".to_owned());
    }
    if facts.owner != effective_uid {
        return Err("control directory is not owned by the effective UID".to_owned());
    }
    if facts.mode % 0o1000 != 0o700 {
        return Err("control directory must have mode 0700".to_owned());
    }
    Ok(())
}

/// What is wrong with the lock file, if anything is. One that was just created gets its mode
/// later.
pub open spec fn lock_fault(facts: EntryFacts, effective_uid: u32, created: bool) -> Option<
    Seq<char>,
> {
    if facts.kind != EntryKind::RegularFile || facts.owner != effective_uid {
        Some("control lock must be a regular file owned by the effective UID"@)
    } else if !created && facts.mode % 0o1000 != 0o600 {
        Some("existing control lock must have mode 0600"@)
    } else {
        None
    }
}

/// Checks the lock file.
pub fn open_lock_file(facts: EntryFacts, effective_uid: u32, created: bool) -> (result: Result<
    (),
    String,
>)
    ensures
        match lock_fault(facts, effective_uid, created) {
            None => result is Ok,
            Some(text) => result matches Err(error) && error@ == text,
        },
{
    if facts.kind != EntryKind::RegularFile || facts.owner != effective_uid {
        return Err("control lock must be a regular file owned by the effective UID".to_owned());
    }
    if !created && facts.mode % 0o1000 != 0o600 {
        return Err("existing control lock must have mode 0600".to_owned());
    }
    Ok(())
}

/// Why the lock could not be taken.
pub enum LockRefusal {
    /// Somebody holds it.
    WouldBlock,
    Failed(String),
}

/// The text for a lock that could not be taken.
pub fn lock_refusal(refusal: LockRefusal) -> (text: String)
    ensures
        match refusal {
            LockRefusal::WouldBlock => text@
                == "another MCServerNap daemon already owns the control endpoint for this OS principal"@,
            LockRefusal::Failed(cause) => text@ == in_context(
                "failed to lock the per-principal control instance"@,
                cause@,
            ),
        },
{
    match refusal {
        LockRefusal::WouldBlock => {
            "another MCServerNap daemon already owns the control endpoint for this OS principal".to_owned()
        },
        LockRefusal::Failed(cause) => with_context(
            "failed to lock the per-principal control instance",
            cause.as_str(),
        ),
    }
}

/// What to do about what stands where the socket goes.
pub enum StaleStep {
    /// Nothing is there.
    Proceed,
    /// Remove the socket of an earlier daemon.
    Remove,
    Refuse(String),
}

/// What to do about what stands where the socket goes: only a socket of the same user is
/// removed.
pub fn recover_stale_socket(lookup: EntryLookup, effective_uid: u32) -> (step: StaleStep)
    ensures
        match lookup {
            EntryLookup::Missing => step is Proceed,
            EntryLookup::Failed(cause) => step matches StaleStep::Refuse(text) && text@
                == in_context("failed to inspect the control socket path"@, cause@),
            EntryLookup::Found(facts) => if facts.kind == EntryKind::SymbolicLink {
                step matches StaleStep::Refuse(text) && text@
                    == "refusing to replace a control socket symlink"@
            } else if facts.kind != EntryKind::Socket {
                step matches StaleStep::Refuse(text) && text@
                    == "refusing to replace a non-socket control endpoint entry"@
            } else if facts.owner != effective_uid {
                step matches StaleStep::Refuse(text) && text@
                    == "refusing to replace a control socket owned by another UID"@
            } else {
                step is Remove
            },
        },
{
    match lookup {
        EntryLookup::Missing => StaleStep::Proceed,
        EntryLookup::Failed(cause) => StaleStep::Refuse(
            with_context("failed to inspect the control socket path", cause.as_str()),
        ),
        EntryLookup::Found(facts) => {
            if facts.kind == EntryKind::SymbolicLink {
                return StaleStep::Refuse(
                    "refusing to replace a control socket symlink".to_owned(),
                );
            }
            if facts.kind != EntryKind::Socket {
                return StaleStep::Refuse(
                    "refusing to replace a non-socket control endpoint entry".to_owned(),
                );
            }
            if facts.owner != effective_uid {
                return StaleStep::Refuse(
                    "refusing to replace a control socket owned by another UID".to_owned(),
                );
            }
            StaleStep::Remove
        },
    }
}

/// Which file something is, whatever its name.
#[derive(Clone, Copy, Debug, PartialEq, Eq, Structural)]
pub struct SocketIdentity {
    pub device: u64,
    pub inode: u64,
}

/// Checks that the socket is still the one that this daemon made, before it is removed.
pub fn guard_cleanup(kind: EntryKind, found: SocketIdentity, own: SocketIdentity) -> (result: Result<
    (),
    String,
>)
    ensures
        if kind == EntryKind::Socket && found == own {
            result is Ok
        } else {
            result matches Err(text) && text@
                == "control socket identity changed before guarded cleanup"@
        },
{
    if kind == EntryKind::Socket && found.device == own.device && found.inode == own.inode {
        Ok(())
    } else {
        Err("control socket identity changed before guarded cleanup".to_owned())
    }
}

/// Different users have different control endpoints.
pub proof fn users_do_not_share_endpoints(left: u32, right: u32)
    requires
        left != right,
    ensures
        control_directory(left) != control_directory(right),
{
    crate::text::decimal_reads_back(left as nat);
    crate::text::decimal_reads_back(right as nat);
    let front = "/tmp/mcservernap-"@;
    if control_directory(left) == control_directory(right) {
        assert(control_directory(left).skip(front.len() as int) =~= decimal(left as nat));
        assert(control_directory(right).skip(front.len() as int) =~= decimal(right as nat));
    }
}

/// The directory of a user is a real directory of this user that nobody else may enter; its lock
/// is a file of this user, and was made by this daemon or may be used by nobody else.
pub proof fn only_the_user_enters(facts: EntryFacts, effective_uid: u32, created: bool)
    ensures
        directory_fault(facts, effective_uid) is None <==> facts.kind == EntryKind::Directory
            && facts.owner == effective_uid && facts.mode % 512 == 448,
        lock_fault(facts, effective_uid, created) is None <==> facts.kind
            == EntryKind::RegularFile && facts.owner == effective_uid && (created || facts.mode % 512
            == 384),
{
}

/// A socket's path is taken exactly if it is short enough and holds no zero byte; a user's
/// directory is named after the number of the user.
pub proof fn paths_of_sockets_are_short(path: Seq<u8>, maximum: nat, uid: u32)
    ensures
        socket_path_fault(path, maximum) is None <==> path.len() <= maximum && forall|i: int|
            0 <= i < path.len() ==> #[trigger] path[i] != 0,
        control_directory(uid) == "/tmp/mcservernap-"@ + decimal(uid as nat),
{
    if socket_path_fault(path, maximum) is None {
        assert forall|i: int| 0 <= i < path.len() implies #[trigger] path[i] != 0 by {
            if path[i] == 0 {
                assert(path.contains(0u8));
            }
        }
    }
}

/// A refused path, directory or lock is told with its reason, the first that holds.
pub proof fn refused_entries_are_told(facts: EntryFacts, effective_uid: u32)
    ensures
        facts.kind == EntryKind::Directory && facts.owner == effective_uid && facts.mode % 512
            != 448 ==> directory_fault(facts, effective_uid) == Some(
            "control directory must have mode 0700"@,
        ),
        facts.kind == EntryKind::Directory && facts.owner != effective_uid ==> directory_fault(
            facts,
            effective_uid,
        ) == Some("control directory is not owned by the effective UID"@),
        facts.kind == EntryKind::RegularFile && facts.owner == effective_uid && facts.mode % 512
            != 384 ==> lock_fault(facts, effective_uid, false) == Some(
            "existing control lock must have mode 0600"@,
        ),
{
}

} // verus!
