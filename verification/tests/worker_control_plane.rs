use bamep_server::worker_control_plane::{
    accept_failure_is_terminal, inspect_existing, probed, socket_is_live, stale_removed,
    AcceptAction, AcceptEvent, AcceptLoop, BindStep, ConnectProbe, ExistingEntry, SocketEntry,
    SocketIdentity, WorkerControlPlane, WorkerControlPlaneError, ACCEPT_ERROR_BACKOFF_MILLIS,
    MAX_CONSECUTIVE_ACCEPT_ERRORS,
};
use bamep_server::worker_runtime_ownership::{IoFault, RuntimeDirError};

fn fault() -> IoFault {
    IoFault { message: "broken".to_string() }
}

const IDENTITY: SocketIdentity = SocketIdentity { dev: 3, ino: 9 };

fn plane() -> WorkerControlPlane<&'static str> {
    WorkerControlPlane::bind("/run/bamep/worker.sock", Ok("listener"), || Ok(()), || Ok(IDENTITY))
        .unwrap()
}

#[test]
fn fewer_than_the_threshold_is_not_terminal() {
    assert!(!accept_failure_is_terminal(MAX_CONSECUTIVE_ACCEPT_ERRORS - 1));
}

#[test]
fn reaching_the_threshold_is_terminal() {
    assert!(accept_failure_is_terminal(MAX_CONSECUTIVE_ACCEPT_ERRORS));
}

#[test]
fn past_the_threshold_remains_terminal() {
    assert!(accept_failure_is_terminal(MAX_CONSECUTIVE_ACCEPT_ERRORS + 1));
}

#[test]
fn only_a_dead_socket_makes_room() {
    let path = "/run/bamep/worker.sock";
    assert!(matches!(inspect_existing(path, ExistingEntry::Socket), Ok(BindStep::Probe)));
    assert!(matches!(inspect_existing(path, ExistingEntry::Missing), Ok(BindStep::Listen)));
    assert_eq!(
        inspect_existing(path, ExistingEntry::Other).unwrap_err().message(),
        "refusing to remove non-socket path /run/bamep/worker.sock: an unrelated file already exists there"
    );
    assert_eq!(
        inspect_existing(path, ExistingEntry::Failed(fault())).unwrap_err().message(),
        "failed to inspect existing path /run/bamep/worker.sock"
    );
    assert!(matches!(probed(path, ConnectProbe::Refused), Ok(BindStep::RemoveStale)));
    assert!(matches!(probed(path, ConnectProbe::NotFound), Ok(BindStep::RemoveStale)));
    assert_eq!(
        probed(path, ConnectProbe::Connected).unwrap_err().message(),
        "refusing to replace /run/bamep/worker.sock: a live Worker control-plane listener already owns it"
    );
    assert!(matches!(
        probed(path, ConnectProbe::Failed(fault())),
        Err(WorkerControlPlaneError::InspectExisting { .. })
    ));
    assert!(matches!(stale_removed(path, Ok(())), Ok(BindStep::Listen)));
    assert_eq!(
        stale_removed(path, Err(fault())).unwrap_err().message(),
        "failed to remove stale socket at /run/bamep/worker.sock"
    );
}

#[test]
fn liveness_is_what_a_connection_shows() {
    assert!(matches!(socket_is_live("/s", ConnectProbe::Connected), Ok(true)));
    assert!(matches!(socket_is_live("/s", ConnectProbe::Refused), Ok(false)));
    assert!(matches!(socket_is_live("/s", ConnectProbe::NotFound), Ok(false)));
    assert!(socket_is_live("/s", ConnectProbe::Failed(fault())).is_err());
}

#[test]
fn binding_reports_what_failed_first() {
    let bound = WorkerControlPlane::<u8>::bind(
        "/s",
        Err(fault()),
        || panic!("not reached"),
        || panic!("not reached"),
    );
    assert_eq!(bound.unwrap_err().message(), "failed to bind UDS listener at /s");
    let restricted =
        WorkerControlPlane::bind("/s", Ok(1u8), || Err(fault()), || panic!("not reached"));
    assert_eq!(restricted.unwrap_err().message(), "failed to set socket permissions at /s");
    let identified = WorkerControlPlane::bind("/s", Ok(1u8), || Ok(()), || Err(fault()));
    assert!(matches!(identified, Err(WorkerControlPlaneError::InspectExisting { .. })));
    let plane = plane();
    assert_eq!(plane.listener, "listener");
    assert_eq!(plane.socket_path, "/run/bamep/worker.sock");
    assert_eq!(plane.resume_page_size, 8192);
}

#[test]
fn a_page_holds_at_least_one_chunk() {
    assert_eq!(plane().with_resume_page_size(0).resume_page_size, 1);
    assert_eq!(plane().with_resume_page_size(1).resume_page_size, 1);
    assert_eq!(plane().with_resume_page_size(3).resume_page_size, 3);
}

#[test]
fn only_the_own_socket_is_cleaned_up() {
    let plane = plane();
    assert!(plane.cleanup_own_socket(Some(SocketEntry { is_socket: true, identity: IDENTITY })));
    assert!(!plane.cleanup_own_socket(Some(SocketEntry { is_socket: false, identity: IDENTITY })));
    assert!(!plane.cleanup_own_socket(Some(SocketEntry {
        is_socket: true,
        identity: SocketIdentity { dev: 3, ino: 10 },
    })));
    assert!(!plane.cleanup_own_socket(None));
}

#[test]
fn a_distrusted_directory_is_an_unsafe_parent() {
    let path = || "/run/bamep".to_string();
    let message = |error: RuntimeDirError| WorkerControlPlaneError::from(error).message();
    assert_eq!(
        message(RuntimeDirError::RelativePath { path: path() }),
        "refusing to use unsafe pre-existing parent directory /run/bamep: path must be absolute for the trusted runtime-directory boundary"
    );
    assert_eq!(
        message(RuntimeDirError::Symlink { path: path() }),
        "refusing to use unsafe pre-existing parent directory /run/bamep: parent path is a symlink, not a real directory"
    );
    assert_eq!(
        message(RuntimeDirError::NotADirectory { path: path() }),
        "refusing to use unsafe pre-existing parent directory /run/bamep: parent path is not a directory"
    );
    assert_eq!(
        message(RuntimeDirError::InsecureMode { path: path() }),
        "refusing to use unsafe pre-existing parent directory /run/bamep: parent directory grants group/other permissions; expected owner-only (0700)"
    );
    assert_eq!(
        message(RuntimeDirError::WrongOwner { path: path(), expected: 1000, actual: 0 }),
        "refusing to use unsafe pre-existing parent directory /run/bamep: parent directory is owned by uid 0, not the effective uid 1000 running bamepd"
    );
    assert_eq!(
        message(RuntimeDirError::UnsafeAncestor { path: path(), reason: "shared".to_string() }),
        "refusing to use unsafe pre-existing parent directory /run/bamep: shared"
    );
    assert_eq!(
        message(RuntimeDirError::Create { path: path(), source: fault() }),
        "failed to prepare the UDS socket directory at /run/bamep"
    );
    assert_eq!(
        message(RuntimeDirError::Inspect { path: path(), source: fault() }),
        "failed to inspect existing path /run/bamep"
    );
    assert_eq!(
        WorkerControlPlaneError::UnsupportedPlatform.message(),
        "Unix Domain Sockets are not supported on this platform"
    );
}

#[test]
fn failures_in_a_row_end_the_listener() {
    let mut accepting = AcceptLoop::new();
    for _ in 1..MAX_CONSECUTIVE_ACCEPT_ERRORS {
        assert!(matches!(
            accepting.step(AcceptEvent::AcceptFailed(fault())),
            AcceptAction::Backoff { millis: ACCEPT_ERROR_BACKOFF_MILLIS }
        ));
    }
    match accepting.step(AcceptEvent::AcceptFailed(fault())) {
        AcceptAction::Stop(Err(error)) => {
            assert_eq!(error.message(), "Worker control-plane listener failed persistently");
            assert!(AcceptLoop::aborts_handlers(&Err(error)));
        }
        other => panic!("expected the listener to end, got {:?}", other),
    }
}

#[test]
fn an_accepted_connection_forgets_the_failures() {
    let mut accepting = AcceptLoop::new();
    for _ in 0..3 {
        for _ in 1..MAX_CONSECUTIVE_ACCEPT_ERRORS {
            accepting.step(AcceptEvent::AcceptFailed(fault()));
        }
        assert!(matches!(accepting.step(AcceptEvent::Accepted), AcceptAction::Spawn));
        assert_eq!(accepting.consecutive_accept_errors, 0);
    }
    assert!(matches!(
        accepting.step(AcceptEvent::HandlerEnded { panicked: false }),
        AcceptAction::Continue
    ));
    assert!(matches!(
        accepting.step(AcceptEvent::HandlerEnded { panicked: true }),
        AcceptAction::ReportPanic
    ));
    assert!(matches!(
        accepting.step(AcceptEvent::ShutdownChanged(false)),
        AcceptAction::Continue
    ));
    match accepting.step(AcceptEvent::ShutdownChanged(true)) {
        AcceptAction::Stop(outcome) => {
            assert!(outcome.is_ok());
            assert!(!AcceptLoop::aborts_handlers(&outcome));
        }
        other => panic!("expected a stop, got {:?}", other),
    }
}
