use std::sync::Arc;

use bamep_server::worker_runtime_ownership::{
    ancestor_is_trusted, lock_path, mode_is_owner_only, Ancestor, EntryFacts, EntryKind, IoFault,
    LockAttempt, LockError, RuntimeDirError, RuntimeDirNext, RuntimeOwnershipLock,
    TargetInspection, TrustedRuntimeDir, FRESH_RUNTIME_DIR_MODE,
};

const SELF_UID: u32 = 1000;

fn directory(mode: u32, owner_uid: u32) -> EntryFacts {
    EntryFacts { kind: EntryKind::Directory, mode, owner_uid }
}

fn ancestor(path: &str, mode: u32, owner_uid: u32) -> Ancestor {
    Ancestor { path: path.to_string(), inspected: Ok(directory(mode, owner_uid)) }
}

fn trusted_chain() -> Vec<Ancestor> {
    vec![ancestor("/run", 0o755, 0), ancestor("/", 0o755, 0)]
}

fn validated(
    path: &str,
    ancestors: &Vec<Ancestor>,
    target: TargetInspection,
) -> Result<RuntimeDirNext, RuntimeDirError> {
    TrustedRuntimeDir::validate_or_create(path)?
        .with_ancestors(ancestors, SELF_UID)?
        .with_target(target, SELF_UID)
}

fn trusted(path: &str) -> TrustedRuntimeDir {
    match validated(path, &trusted_chain(), TargetInspection::Found(directory(0o700, SELF_UID))) {
        Ok(RuntimeDirNext::Ready(dir)) => dir,
        other => panic!("expected a trusted directory, got {:?}", other),
    }
}

#[test]
fn owner_only_mode_is_accepted() {
    assert!(mode_is_owner_only(0o700));
    assert!(mode_is_owner_only(0o600));
}

#[test]
fn group_or_other_bits_are_rejected() {
    assert!(!mode_is_owner_only(0o750));
    assert!(!mode_is_owner_only(0o701));
    assert!(!mode_is_owner_only(0o707));
}

#[test]
fn root_owned_non_writable_ancestor_is_trusted() {
    assert!(ancestor_is_trusted(0o755, 0, 1000));
}

#[test]
fn self_owned_ancestor_is_trusted() {
    assert!(ancestor_is_trusted(0o755, 1000, 1000));
}

#[test]
fn group_or_other_writable_ancestor_without_sticky_bit_is_untrusted() {
    assert!(!ancestor_is_trusted(0o777, 0, 1000));
    assert!(!ancestor_is_trusted(0o777, 0, 1000));
}

#[test]
fn group_or_other_writable_ancestor_with_sticky_bit_is_trusted() {
    assert!(ancestor_is_trusted(0o1777, 0, 1000));
}

#[test]
fn ancestor_owned_by_an_unrelated_uid_is_untrusted_even_if_not_writable() {
    assert!(!ancestor_is_trusted(0o755, 4242, 1000));
}

#[test]
fn a_relative_runtime_path_is_rejected_before_any_filesystem_access() {
    let err = TrustedRuntimeDir::validate_or_create("relative/bamep").unwrap_err();
    assert!(matches!(err, RuntimeDirError::RelativePath { .. }));
    assert_eq!(
        err.message(),
        "relative/bamep must be an absolute path for the trusted runtime-directory boundary"
    );
}

#[test]
fn missing_directory_is_created_owner_only_under_a_trusted_ancestor() {
    let next = validated("/run/bamep", &trusted_chain(), TargetInspection::Missing);
    let fresh = match next {
        Ok(RuntimeDirNext::Create(fresh)) => fresh,
        other => panic!("expected a directory to create, got {:?}", other),
    };
    assert_eq!(FRESH_RUNTIME_DIR_MODE, 0o700);
    let dir = fresh.created(Ok(())).unwrap();
    assert_eq!(dir.path(), "/run/bamep");
}

#[test]
fn a_directory_that_cannot_be_created_is_reported() {
    let next = validated("/run/bamep", &trusted_chain(), TargetInspection::Missing);
    let fresh = match next {
        Ok(RuntimeDirNext::Create(fresh)) => fresh,
        other => panic!("expected a directory to create, got {:?}", other),
    };
    let err = fresh.created(Err(IoFault { message: "read-only".to_string() })).unwrap_err();
    assert_eq!(err.message(), "failed to create trusted runtime directory /run/bamep");
    assert!(matches!(err, RuntimeDirError::Create { source, .. } if source.message == "read-only"));
}

#[test]
fn an_existing_owner_only_directory_owned_by_self_is_accepted() {
    assert_eq!(trusted("/run/bamep").path(), "/run/bamep");
}

#[test]
fn an_insecure_mode_is_rejected() {
    let err =
        validated("/run/bamep", &trusted_chain(), TargetInspection::Found(directory(0o755, SELF_UID)))
            .unwrap_err();
    assert!(matches!(err, RuntimeDirError::InsecureMode { .. }));
    assert_eq!(
        err.message(),
        "/run/bamep grants group/other permissions; expected owner-only (0700)"
    );
}

#[test]
fn a_symlink_at_the_runtime_dir_path_is_rejected() {
    let link = EntryFacts { kind: EntryKind::Symlink, mode: 0o777, owner_uid: SELF_UID };
    let err = validated("/run/bamep", &trusted_chain(), TargetInspection::Found(link)).unwrap_err();
    assert!(matches!(err, RuntimeDirError::Symlink { .. }));
    assert_eq!(err.message(), "/run/bamep is a symlink, not a real directory");
}

#[test]
fn a_file_at_the_runtime_dir_path_is_rejected() {
    let file = EntryFacts { kind: EntryKind::Other, mode: 0o600, owner_uid: SELF_UID };
    let err = validated("/run/bamep", &trusted_chain(), TargetInspection::Found(file)).unwrap_err();
    assert!(matches!(err, RuntimeDirError::NotADirectory { .. }));
    assert_eq!(err.message(), "/run/bamep is not a directory");
}

#[test]
fn a_directory_of_another_user_is_rejected() {
    let err =
        validated("/run/bamep", &trusted_chain(), TargetInspection::Found(directory(0o700, 4242)))
            .unwrap_err();
    assert_eq!(
        err.message(),
        "/run/bamep is owned by uid 4242, not the effective uid 1000 running bamepd"
    );
    assert!(matches!(err, RuntimeDirError::WrongOwner { expected: 1000, actual: 4242, .. }));
}

#[test]
fn a_directory_that_cannot_be_inspected_is_rejected() {
    let fault = IoFault { message: "denied".to_string() };
    let err =
        validated("/run/bamep", &trusted_chain(), TargetInspection::Failed(fault)).unwrap_err();
    assert_eq!(err.message(), "failed to inspect /run/bamep");
    assert!(matches!(err, RuntimeDirError::Inspect { .. }));
}

#[test]
fn a_world_writable_non_sticky_parent_is_rejected() {
    let chain = vec![ancestor("/shared", 0o777, SELF_UID), ancestor("/", 0o755, 0)];
    let err = validated("/shared/bamep", &chain, TargetInspection::Missing).unwrap_err();
    assert!(matches!(err, RuntimeDirError::UnsafeAncestor { .. }));
}

#[test]
fn a_trusted_service_style_runtime_directory_succeeds() {
    let chain = vec![
        ancestor("/tmp/service", 0o755, SELF_UID),
        ancestor("/tmp", 0o1777, 0),
        ancestor("/", 0o755, 0),
    ];
    assert!(matches!(
        validated("/tmp/service/bamep", &chain, TargetInspection::Missing),
        Ok(RuntimeDirNext::Create(_))
    ));
}

#[test]
fn a_writable_non_sticky_grandparent_is_rejected_even_when_the_immediate_parent_is_trusted() {
    let chain = vec![
        ancestor("/tmp/open/trusted-looking-parent", 0o755, SELF_UID),
        ancestor("/tmp/open", 0o777, SELF_UID),
        ancestor("/tmp", 0o1777, 0),
        ancestor("/", 0o755, 0),
    ];
    let err = validated(
        "/tmp/open/trusted-looking-parent/bamep",
        &chain,
        TargetInspection::Missing,
    )
    .unwrap_err();
    match err {
        RuntimeDirError::UnsafeAncestor { path, .. } => assert_eq!(path, "/tmp/open"),
        other => panic!("expected UnsafeAncestor naming the grandparent, got {:?}", other),
    }
}

#[test]
fn an_owned_child_of_the_sticky_shared_temp_directory_is_trusted() {
    let chain = vec![
        ancestor("/tmp/owned", 0o755, SELF_UID),
        ancestor("/tmp", 0o1777, 0),
        ancestor("/", 0o755, 0),
    ];
    assert!(validated("/tmp/owned/bamep", &chain, TargetInspection::Missing).is_ok());
}

#[test]
fn an_intermediate_symlink_ancestor_is_rejected() {
    let link = Ancestor {
        path: "/tmp/parent/link".to_string(),
        inspected: Ok(EntryFacts { kind: EntryKind::Symlink, mode: 0o777, owner_uid: SELF_UID }),
    };
    let chain = vec![link, ancestor("/tmp/parent", 0o755, SELF_UID), ancestor("/", 0o755, 0)];
    let err = validated("/tmp/parent/link/bamep", &chain, TargetInspection::Missing).unwrap_err();
    match err {
        RuntimeDirError::UnsafeAncestor { path, .. } => assert_eq!(path, "/tmp/parent/link"),
        other => panic!("expected UnsafeAncestor naming the symlinked ancestor, got {:?}", other),
    }
}

#[test]
fn first_owner_acquires_the_lock_and_a_second_open_object_cannot() {
    let dir = trusted("/run/bamep");
    let first = RuntimeOwnershipLock::acquire(&dir, LockAttempt::Locked(7u32)).unwrap();
    assert_eq!(first.path(), "/run/bamep/bamepd.lock");
    let second = RuntimeOwnershipLock::<u32>::acquire(&dir, LockAttempt::WouldBlock);
    match second {
        Err(LockError::AlreadyOwned { path }) => assert_eq!(path, "/run/bamep/bamepd.lock"),
        other => panic!("expected AlreadyOwned, got {:?}", other),
    }
    assert_eq!(first.release(), 7);
}

#[test]
fn dropping_the_lock_releases_it_without_calling_release_explicitly() {
    let dir = trusted("/run/bamep");
    let held = Arc::new(());
    let attempt = || {
        if Arc::strong_count(&held) == 1 {
            LockAttempt::Locked(held.clone())
        } else {
            LockAttempt::WouldBlock
        }
    };
    {
        let _first = RuntimeOwnershipLock::acquire(&dir, attempt()).expect("first acquire");
        assert!(matches!(
            RuntimeOwnershipLock::acquire(&dir, attempt()),
            Err(LockError::AlreadyOwned { .. })
        ));
    }
    RuntimeOwnershipLock::acquire(&dir, attempt())
        .expect("dropping the guard must release the lock, mirroring process death");
}

#[test]
fn a_lock_that_cannot_be_had_says_why() {
    let dir = trusted("/run/bamep/");
    assert_eq!(lock_path(&dir), "/run/bamep/bamepd.lock");
    let fault = || IoFault { message: "no".to_string() };
    let opened = RuntimeOwnershipLock::<u32>::acquire(&dir, LockAttempt::OpenFailed(fault()));
    assert_eq!(
        opened.unwrap_err().message(),
        "failed to open the ownership lock file /run/bamep/bamepd.lock"
    );
    let locked = RuntimeOwnershipLock::<u32>::acquire(&dir, LockAttempt::LockFailed(fault()));
    assert_eq!(
        locked.unwrap_err().message(),
        "failed to acquire the ownership lock at /run/bamep/bamepd.lock"
    );
    let taken = RuntimeOwnershipLock::<u32>::acquire(&dir, LockAttempt::WouldBlock);
    assert_eq!(
        taken.unwrap_err().message(),
        "another live bamepd instance already owns the Worker control boundary lock at /run/bamep/bamepd.lock"
    );
}
