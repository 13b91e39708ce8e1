//! Where the control endpoint is, and what may stand there.

use mcservernap::control::location::{
    discover_paths, guard_cleanup, lock_refusal, open_lock_file, prepare_private_directory,
    recover_stale_socket, validate_private_directory, validate_socket_path, DirectoryStep,
    EntryFacts, EntryKind, EntryLookup, LockRefusal, SocketIdentity, StaleStep,
};
use mcservernap::control::locator::{
    check_locator_length, connect_pipe, guard_locator_cleanup, locator_files, pipe_name,
    publish_locator, random_pipe_name, read_locator, validate_pipe_name, PIPE_BUSY_RETRY,
};

const MAXIMUM: usize = 107;

fn facts(kind: EntryKind, owner: u32, mode: u32) -> EntryFacts {
    EntryFacts { kind, owner, mode }
}

#[test]
fn unix_location_is_fixed_per_effective_uid() {
    let paths = discover_paths(1_234, MAXIMUM).ok().unwrap();
    assert_eq!(paths.lock, "/tmp/mcservernap-1234/control.lock");
    assert_eq!(paths.socket, "/tmp/mcservernap-1234/control.sock");
    assert_eq!(paths.directory, "/tmp/mcservernap-1234");
}

#[test]
fn daemon_and_client_discovery_derive_the_same_paths() {
    let uid = 1_000;
    let daemon = discover_paths(uid, MAXIMUM).ok().unwrap();
    let client = discover_paths(uid, MAXIMUM).ok().unwrap();
    assert_eq!(daemon.lock, client.lock);
    assert_eq!(daemon.socket, client.socket);
    assert_ne!(
        daemon.directory,
        discover_paths(uid + 1, MAXIMUM).ok().unwrap().directory
    );
}

#[test]
fn socket_path_length_is_rejected_before_binding() {
    let mut directory = "/".to_owned();
    directory.push_str(&"x".repeat(1_000));
    let error = validate_socket_path(directory.as_bytes(), MAXIMUM).unwrap_err();
    assert!(error.contains("supports at most"));
    assert_eq!(
        error,
        "control socket path is 1001 bytes; this platform supports at most 107"
    );
    assert!(discover_paths(1_234, 10).is_err());
    assert_eq!(
        validate_socket_path(b"/a\0b", MAXIMUM).unwrap_err(),
        "control socket path contains a NUL byte"
    );
}

#[test]
fn parent_ownership_mode_and_symlink_are_validated() {
    let private = facts(EntryKind::Directory, 1_000, 0o40_700);
    assert!(validate_private_directory(private, 1_000).is_ok());
    assert_eq!(
        validate_private_directory(private, 1_001).unwrap_err(),
        "control directory is not owned by the effective UID"
    );
    assert_eq!(
        validate_private_directory(facts(EntryKind::Directory, 1_000, 0o40_750), 1_000)
            .unwrap_err(),
        "control directory must have mode 0700"
    );
    assert_eq!(
        validate_private_directory(facts(EntryKind::SymbolicLink, 1_000, 0o700), 1_000)
            .unwrap_err(),
        "control directory must be a real directory, not a symlink"
    );
}

#[test]
fn newly_created_private_parent_uses_mode_0700() {
    assert!(matches!(
        prepare_private_directory(EntryLookup::Missing, true, "gone"),
        DirectoryStep::Create
    ));
    assert!(matches!(
        prepare_private_directory(EntryLookup::Missing, false, "gone"),
        DirectoryStep::Refuse(text) if text == "private control directory is unavailable: gone"
    ));
    assert!(matches!(
        prepare_private_directory(EntryLookup::Failed("denied".to_owned()), true, "gone"),
        DirectoryStep::Refuse(text) if text == "private control directory is unavailable: denied"
    ));
    assert!(matches!(
        prepare_private_directory(
            EntryLookup::Found(facts(EntryKind::Directory, 0, 0)),
            true,
            "gone"
        ),
        DirectoryStep::Validate
    ));
}

#[test]
fn lock_is_persistent_regular_mode_0600_and_rejects_symlinks() {
    assert!(open_lock_file(facts(EntryKind::RegularFile, 7, 0o100_600), 7, false).is_ok());
    assert!(open_lock_file(facts(EntryKind::RegularFile, 7, 0o100_644), 7, true).is_ok());
    assert_eq!(
        open_lock_file(facts(EntryKind::RegularFile, 7, 0o100_644), 7, false).unwrap_err(),
        "existing control lock must have mode 0600"
    );
    assert_eq!(
        open_lock_file(facts(EntryKind::SymbolicLink, 7, 0o600), 7, false).unwrap_err(),
        "control lock must be a regular file owned by the effective UID"
    );
    assert!(open_lock_file(facts(EntryKind::RegularFile, 8, 0o600), 7, false).is_err());
}

#[test]
fn taken_locks_name_the_other_daemon() {
    let error = lock_refusal(LockRefusal::WouldBlock);
    assert!(error.contains("another MCServerNap daemon"));
    assert_eq!(
        lock_refusal(LockRefusal::Failed("EIO".to_owned())),
        "failed to lock the per-principal control instance: EIO"
    );
}

#[test]
fn stale_socket_recovers_but_non_socket_and_socket_symlink_do_not() {
    let found = |kind, owner| EntryLookup::Found(facts(kind, owner, 0o600));
    assert!(matches!(
        recover_stale_socket(found(EntryKind::Socket, 7), 7),
        StaleStep::Remove
    ));
    assert!(matches!(
        recover_stale_socket(EntryLookup::Missing, 7),
        StaleStep::Proceed
    ));
    for (lookup, expected) in [
        (
            found(EntryKind::RegularFile, 7),
            "refusing to replace a non-socket control endpoint entry",
        ),
        (
            found(EntryKind::SymbolicLink, 7),
            "refusing to replace a control socket symlink",
        ),
        (
            found(EntryKind::Socket, 8),
            "refusing to replace a control socket owned by another UID",
        ),
        (
            EntryLookup::Failed("denied".to_owned()),
            "failed to inspect the control socket path: denied",
        ),
    ] {
        assert!(matches!(
            recover_stale_socket(lookup, 7),
            StaleStep::Refuse(text) if text == expected
        ));
    }
}

#[test]
fn cleanup_refuses_a_replaced_socket_identity() {
    let own = SocketIdentity {
        device: 1,
        inode: 2,
    };
    let other = SocketIdentity {
        device: 1,
        inode: 3,
    };
    assert!(guard_cleanup(EntryKind::Socket, own, own).is_ok());
    assert_eq!(
        guard_cleanup(EntryKind::Socket, other, own).unwrap_err(),
        "control socket identity changed before guarded cleanup"
    );
    assert!(guard_cleanup(EntryKind::RegularFile, own, own).is_err());
}

#[test]
fn locators_are_strict_and_local_only() {
    let name = pipe_name([0xab; 16]);
    assert_eq!(
        name,
        format!("\\\\.\\pipe\\mcservernap-control-{}", "ab".repeat(16))
    );
    assert_eq!(validate_pipe_name(&name), Ok(()));
    assert_eq!(read_locator(1, &name), Ok(()));
    assert_eq!(
        read_locator(2, &name).unwrap_err(),
        "control locator version is unsupported"
    );
    let suffix = "a".repeat(32);
    for (pipe, expected) in [
        (
            format!("\\\\server\\pipe\\mcservernap-control-{suffix}"),
            "control locator does not name a local MCServerNap pipe",
        ),
        (
            "\\\\.\\pipe".to_owned(),
            "control locator does not name a local MCServerNap pipe",
        ),
        (
            format!("\\\\.\\pipe\\mcservernap-control-{}", "A".repeat(32)),
            "control locator pipe suffix is invalid",
        ),
        (
            format!("\\\\.\\pipe\\mcservernap-control-{suffix}0"),
            "control locator pipe suffix is invalid",
        ),
        (
            "\\\\.\\pipe\\mcservernap-control-".to_owned(),
            "control locator pipe suffix is invalid",
        ),
    ] {
        assert_eq!(read_locator(1, &pipe).unwrap_err(), expected, "{pipe}");
    }
    assert_eq!(check_locator_length(256, None), Ok(()));
    assert_eq!(
        check_locator_length(257, None).unwrap_err(),
        "control locator exceeds its fixed size bound"
    );
    assert_eq!(check_locator_length(90, Some(90)), Ok(()));
    assert_eq!(
        check_locator_length(90, Some(89)).unwrap_err(),
        "control locator changed while it was read"
    );
}

#[test]
fn published_locators_name_the_pipe() {
    let name = random_pipe_name().unwrap();
    assert_eq!(validate_pipe_name(&name), Ok(()));
    assert_ne!(name, random_pipe_name().unwrap());
    let contents = publish_locator(&name).unwrap();
    let document: serde_json::Value = serde_json::from_str(&contents).unwrap();
    assert_eq!(document["version"], 1);
    assert_eq!(document["pipe"], name);
    assert_eq!(
        publish_locator(&"x".repeat(300)).unwrap_err(),
        "control locator exceeds its fixed size bound"
    );
    assert_eq!(guard_locator_cleanup(&name, &name), Ok(()));
    assert_eq!(
        guard_locator_cleanup(&name, "other").unwrap_err(),
        "control locator no longer names this daemon's pipe"
    );
    let files = locator_files();
    assert_eq!(files.lock, "control.lock");
    assert_eq!(files.locator, "control.endpoint");
    assert_eq!(files.temporary_locator, "control.endpoint.tmp");
}

#[test]
fn busy_pipes_are_retried_until_the_deadline() {
    assert_eq!(connect_pipe(0, 100_000_000), Some(PIPE_BUSY_RETRY));
    assert_eq!(connect_pipe(90_000_000, 100_000_000), Some(100_000_000));
    assert_eq!(connect_pipe(100_000_000, 100_000_000), None);
}
