use bamep_server::daemon::{Daemon, DaemonStep, ServingEnd};

fn started() -> Daemon {
    let mut daemon = Daemon::new();
    for step in [
        DaemonStep::FindRuntimeDir,
        DaemonStep::ValidateRuntimeDir,
        DaemonStep::AcquireLock,
        DaemonStep::BindSocket,
        DaemonStep::ConnectDatabase,
    ] {
        assert_eq!(daemon.step, step);
        assert_eq!(daemon.started(Ok(())), None);
    }
    assert_eq!(daemon.step, DaemonStep::StartServing);
    daemon.serving();
    assert_eq!(daemon.step, DaemonStep::Serve);
    daemon
}

fn stops(daemon: &mut Daemon) -> Vec<DaemonStep> {
    let mut steps = Vec::new();
    while daemon.step != DaemonStep::Exit {
        steps.push(daemon.step);
        daemon.stopped();
    }
    steps
}

#[test]
fn a_requested_stop_waits_for_everything_and_lets_go_of_the_lock_last() {
    let mut daemon = started();
    assert_eq!(daemon.serving_ended(ServingEnd::ShutdownRequested), "bamepd: shutdown requested");
    assert_eq!(
        stops(&mut daemon),
        vec![
            DaemonStep::RequestShutdown,
            DaemonStep::AwaitSupervisor,
            DaemonStep::AwaitControlPlane,
            DaemonStep::StopEventLog,
            DaemonStep::ReleaseLock,
        ]
    );
    assert_eq!(daemon.exit_code(), 0);
}

#[test]
fn a_control_plane_that_ended_by_itself_is_a_failure() {
    for (end, text) in [
        (
            ServingEnd::ControlPlaneStopped,
            "bamepd: Worker control plane stopped unexpectedly with no shutdown requested",
        ),
        (
            ServingEnd::ControlPlaneFailed("boom".to_string()),
            "bamepd: Worker control plane failed: boom",
        ),
        (
            ServingEnd::ControlPlanePanicked("boom".to_string()),
            "bamepd: Worker control plane task panicked: boom",
        ),
    ] {
        let mut daemon = started();
        assert_eq!(daemon.serving_ended(end), text);
        assert_eq!(
            stops(&mut daemon),
            vec![
                DaemonStep::RequestShutdown,
                DaemonStep::AwaitSupervisor,
                DaemonStep::StopEventLog,
                DaemonStep::ReleaseLock,
            ]
        );
        assert_eq!(daemon.exit_code(), 1);
    }
}

#[test]
fn a_failure_to_start_is_said_and_ends_the_daemon() {
    for (passed, text) in [
        (0, "bamepd: configured Worker UDS path has no parent directory"),
        (1, "bamepd: untrusted Worker control-boundary runtime directory: why"),
        (2, "bamepd: failed to acquire the Worker control-boundary ownership lock: why"),
        (3, "bamepd: failed to bind Worker UDS listener: why"),
        (4, "bamepd: failed to connect to PostgreSQL: why"),
    ] {
        let mut daemon = Daemon::new();
        for _ in 0..passed {
            daemon.started(Ok(()));
        }
        assert_eq!(daemon.started(Err("why".to_string())).as_deref(), Some(text));
        assert_eq!(daemon.step, DaemonStep::Exit);
        assert_eq!(daemon.exit_code(), 1);
    }
}
