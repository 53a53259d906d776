//! The order in which the daemon starts, serves and stops.
//!
//! The runtime directory is trusted before the lock is taken, the lock is taken
//! before the socket is touched, and the worker is started only when it has
//! something to connect to. Stopping lets go of the lock last.

use vstd::prelude::*;

verus! {

/// What the daemon does next.
#[derive(Clone, Copy, Debug, PartialEq, Eq, Structural)]
pub enum DaemonStep {
    FindRuntimeDir,
    ValidateRuntimeDir,
    AcquireLock,
    BindSocket,
    ConnectDatabase,
    /// Start the worker's supervisor and accept on the socket.
    StartServing,
    /// Wait for a request to stop, or for the control plane to end.
    Serve,
    RequestShutdown,
    AwaitSupervisor,
    AwaitControlPlane,
    StopEventLog,
    ReleaseLock,
    Exit,
}

/// The daemon's life so far.
#[derive(Clone, Copy, Debug, PartialEq, Eq, Structural)]
pub struct Daemon {
    pub step: DaemonStep,
    /// Whether starting failed.
    pub start_failed: bool,
    /// Whether the control plane ended by itself.
    pub control_plane_ended: bool,
}

/// Why the daemon stopped serving.
#[derive(Debug)]
pub enum ServingEnd {
    ShutdownRequested,
    ControlPlaneStopped,
    ControlPlaneFailed(String),
    ControlPlanePanicked(String),
}

/// A step of starting that can fail.
pub open spec fn is_start(step: DaemonStep) -> bool {
    step is FindRuntimeDir || step is ValidateRuntimeDir || step is AcquireLock || step
        is BindSocket || step is ConnectDatabase
}

/// A step of stopping.
pub open spec fn is_stop(step: DaemonStep) -> bool {
    step is RequestShutdown || step is AwaitSupervisor || step is AwaitControlPlane || step
        is StopEventLog || step is ReleaseLock
}

/// The step that follows a step of starting.
pub open spec fn after_start(step: DaemonStep) -> DaemonStep {
    match step {
        DaemonStep::FindRuntimeDir => DaemonStep::ValidateRuntimeDir,
        DaemonStep::ValidateRuntimeDir => DaemonStep::AcquireLock,
        DaemonStep::AcquireLock => DaemonStep::BindSocket,
        DaemonStep::BindSocket => DaemonStep::ConnectDatabase,
        _ => DaemonStep::StartServing,
    }
}

/// The step that follows a step of stopping. A control plane that ended by
/// itself is not waited for again.
pub open spec fn after_stop(step: DaemonStep, control_plane_ended: bool) -> DaemonStep {
    match step {
        DaemonStep::RequestShutdown => DaemonStep::AwaitSupervisor,
        DaemonStep::AwaitSupervisor => if control_plane_ended {
            DaemonStep::StopEventLog
        } else {
            DaemonStep::AwaitControlPlane
        },
        DaemonStep::AwaitControlPlane => DaemonStep::StopEventLog,
        DaemonStep::StopEventLog => DaemonStep::ReleaseLock,
        _ => DaemonStep::Exit,
    }
}

/// What is said when a step of starting fails. A missing directory has no error
/// of its own.
pub open spec fn start_failure_text(step: DaemonStep, error: Seq<char>) -> Seq<char> {
    match step {
        DaemonStep::FindRuntimeDir =>
            "bamepd: configured Worker UDS path has no parent directory"@,
        DaemonStep::ValidateRuntimeDir =>
            "bamepd: untrusted Worker control-boundary runtime directory: "@ + error,
        DaemonStep::AcquireLock =>
            "bamepd: failed to acquire the Worker control-boundary ownership lock: "@ + error,
        DaemonStep::BindSocket => "bamepd: failed to bind Worker UDS listener: "@ + error,
        _ => "bamepd: failed to connect to PostgreSQL: "@ + error,
    }
}

/// What is said when serving ends.
pub open spec fn serving_end_text(end: ServingEnd) -> Seq<char> {
    match end {
        ServingEnd::ShutdownRequested => "bamepd: shutdown requested"@,
        ServingEnd::ControlPlaneStopped =>
            "bamepd: Worker control plane stopped unexpectedly with no shutdown requested"@,
        ServingEnd::ControlPlaneFailed(error) => "bamepd: Worker control plane failed: "@ + error@,
        ServingEnd::ControlPlanePanicked(error) =>
            "bamepd: Worker control plane task panicked: "@ + error@,
    }
}

fn joined(before: &str, after: &str) -> (r: String)
    ensures
        r@ == before@ + after@,
{
    let mut text = String::new();
    text.append(before);
    text.append(after);
    assert(text@ =~= before@ + after@);
    text
}

impl Daemon {
    pub fn new() -> (r: Daemon)
        ensures
            r == (Daemon {
                step: DaemonStep::FindRuntimeDir,
                start_failed: false,
                control_plane_ended: false,
            }),
    {
        Daemon {
            step: DaemonStep::FindRuntimeDir,
            start_failed: false,
            control_plane_ended: false,
        }
    }

    /// Takes the outcome of a step of starting. A failure is said and ends the
    /// daemon at once.
    pub fn started(&mut self, outcome: Result<(), String>) -> (r: Option<String>)
        requires
            is_start(old(self).step),
        ensures
            match outcome {
                Ok(_) => r is None && *final(self) == (Daemon {
                    step: after_start(old(self).step),
                    ..*old(self)
                }),
                Err(error) => {
                    &&& r matches Some(text)
                    &&& text@ == start_failure_text(old(self).step, error@)
                    &&& *final(self) == (Daemon {
                        step: DaemonStep::Exit,
                        start_failed: true,
                        ..*old(self)
                    })
                },
            },
    {
        match outcome {
            Ok(_) => {
                self.step = match self.step {
                    DaemonStep::FindRuntimeDir => DaemonStep::ValidateRuntimeDir,
                    DaemonStep::ValidateRuntimeDir => DaemonStep::AcquireLock,
                    DaemonStep::AcquireLock => DaemonStep::BindSocket,
                    DaemonStep::BindSocket => DaemonStep::ConnectDatabase,
                    _ => DaemonStep::StartServing,
                };
                None
            },
            Err(error) => {
                let text = match self.step {
                    DaemonStep::FindRuntimeDir =>
                        "bamepd: configured Worker UDS path has no parent directory".to_owned(),
                    DaemonStep::ValidateRuntimeDir => joined(
                        "bamepd: untrusted Worker control-boundary runtime directory: ",
                        error.as_str(),
                    ),
                    DaemonStep::AcquireLock => joined(
                        "bamepd: failed to acquire the Worker control-boundary ownership lock: ",
                        error.as_str(),
                    ),
                    DaemonStep::BindSocket => joined(
                        "bamepd: failed to bind Worker UDS listener: ",
                        error.as_str(),
                    ),
                    _ => joined("bamepd: failed to connect to PostgreSQL: ", error.as_str()),
                };
                self.step = DaemonStep::Exit;
                self.start_failed = true;
                Some(text)
            },
        }
    }

    /// Goes from starting to serving.
    pub fn serving(&mut self)
        requires
            old(self).step is StartServing,
        ensures
            *final(self) == (Daemon { step: DaemonStep::Serve, ..*old(self) }),
    {
        self.step = DaemonStep::Serve;
    }

    /// Takes why serving ended, and says it. The daemon stops either way.
    pub fn serving_ended(&mut self, end: ServingEnd) -> (r: String)
        requires
            old(self).step is Serve,
        ensures
            r@ == serving_end_text(end),
            *final(self) == (Daemon {
                step: DaemonStep::RequestShutdown,
                control_plane_ended: !(end is ShutdownRequested),
                ..*old(self)
            }),
    {
        self.step = DaemonStep::RequestShutdown;
        self.control_plane_ended = !matches!(end, ServingEnd::ShutdownRequested);
        match end {
            ServingEnd::ShutdownRequested => "bamepd: shutdown requested".to_owned(),
            ServingEnd::ControlPlaneStopped =>
                "bamepd: Worker control plane stopped unexpectedly with no shutdown requested".to_owned(),
            ServingEnd::ControlPlaneFailed(error) => joined(
                "bamepd: Worker control plane failed: ",
                error.as_str(),
            ),
            ServingEnd::ControlPlanePanicked(error) => joined(
                "bamepd: Worker control plane task panicked: ",
                error.as_str(),
            ),
        }
    }

    /// Takes a step of stopping as done, whatever it came to.
    pub fn stopped(&mut self)
        requires
            is_stop(old(self).step),
        ensures
            *final(self) == (Daemon {
                step: after_stop(old(self).step, old(self).control_plane_ended),
                ..*old(self)
            }),
    {
        self.step = match self.step {
            DaemonStep::RequestShutdown => DaemonStep::AwaitSupervisor,
            DaemonStep::AwaitSupervisor => if self.control_plane_ended {
                DaemonStep::StopEventLog
            } else {
                DaemonStep::AwaitControlPlane
            },
            DaemonStep::AwaitControlPlane => DaemonStep::StopEventLog,
            DaemonStep::StopEventLog => DaemonStep::ReleaseLock,
            _ => DaemonStep::Exit,
        };
    }

    /// What the process exits with: a daemon whose control plane ended by itself
    /// has failed, like one that did not start.
    pub fn exit_code(&self) -> (r: i32)
        ensures
            r == (if self.start_failed || self.control_plane_ended {
                1i32
            } else {
                0
            }),
    {
        if self.start_failed || self.control_plane_ended {
            1
        } else {
            0
        }
    }
}

/// Whether the lock is held when a step is due.
pub open spec fn lock_held(step: DaemonStep) -> bool {
    !(step is FindRuntimeDir || step is ValidateRuntimeDir || step is AcquireLock || step is Exit)
}

/// Whether the socket may be bound when a step is due.
pub open spec fn socket_in_use(step: DaemonStep) -> bool {
    lock_held(step) && !(step is BindSocket || step is ReleaseLock)
}

/// The socket is in use only under the lock, and by the time that the lock is
/// let go, everything that used the socket has been waited for.
pub proof fn lock_outlives_the_socket(step: DaemonStep, control_plane_ended: bool)
    ensures
        socket_in_use(step) ==> lock_held(step),
        is_start(step) && lock_held(after_start(step)) && !lock_held(step) ==> step is AcquireLock,
        is_start(step) && socket_in_use(after_start(step)) && !socket_in_use(step) ==> step
            is BindSocket,
        is_stop(step) && lock_held(step) && !lock_held(after_stop(step, control_plane_ended))
            ==> step is ReleaseLock && !socket_in_use(step),
{
}

/// How far from its end a step of stopping is.
pub open spec fn steps_left(step: DaemonStep) -> int {
    match step {
        DaemonStep::RequestShutdown => 5,
        DaemonStep::AwaitSupervisor => 4,
        DaemonStep::AwaitControlPlane => 3,
        DaemonStep::StopEventLog => 2,
        DaemonStep::ReleaseLock => 1,
        _ => 0,
    }
}

/// Stopping always comes to its end, with the lock let go in the last step.
pub proof fn stopping_comes_to_an_end(step: DaemonStep, control_plane_ended: bool)
    requires
        is_stop(step),
    ensures
        steps_left(after_stop(step, control_plane_ended)) < steps_left(step),
        after_stop(step, control_plane_ended) is Exit <==> step is ReleaseLock,
{
}

/// Starting goes on one step at a time: the directory is found, then trusted, then
/// locked, then the socket is bound, then the database is connected to, then it serves.
/// A step that fails is said by what it is, and ends the daemon.
pub proof fn starting_goes_in_order(
    daemon: &mut Daemon,
    outcome: Result<(), String>,
    r: Option<String>,
)
    requires
        call_ensures(Daemon::started, (daemon, outcome), r),
        old(daemon).step is FindRuntimeDir || old(daemon).step is ValidateRuntimeDir || old(
            daemon,
        ).step is AcquireLock || old(daemon).step is BindSocket || old(daemon).step
            is ConnectDatabase,
    ensures
        r is Some <==> outcome is Err,
        final(daemon).control_plane_ended == old(daemon).control_plane_ended,
        outcome is Ok ==> {
            &&& final(daemon).start_failed == old(daemon).start_failed
            &&& final(daemon).step is ValidateRuntimeDir <==> old(daemon).step is FindRuntimeDir
            &&& final(daemon).step is AcquireLock <==> old(daemon).step is ValidateRuntimeDir
            &&& final(daemon).step is BindSocket <==> old(daemon).step is AcquireLock
            &&& final(daemon).step is ConnectDatabase <==> old(daemon).step is BindSocket
            &&& final(daemon).step is StartServing <==> old(daemon).step is ConnectDatabase
        },
        outcome matches Err(error) ==> {
            &&& final(daemon).step is Exit
            &&& final(daemon).start_failed
            &&& old(daemon).step is FindRuntimeDir ==> r->Some_0@
                == "bamepd: configured Worker UDS path has no parent directory"@
            &&& old(daemon).step is ValidateRuntimeDir ==> r->Some_0@
                == "bamepd: untrusted Worker control-boundary runtime directory: "@ + error@
            &&& old(daemon).step is AcquireLock ==> r->Some_0@
                == "bamepd: failed to acquire the Worker control-boundary ownership lock: "@
                + error@
            &&& old(daemon).step is BindSocket ==> r->Some_0@
                == "bamepd: failed to bind Worker UDS listener: "@ + error@
            &&& old(daemon).step is ConnectDatabase ==> r->Some_0@
                == "bamepd: failed to connect to PostgreSQL: "@ + error@
        },
{
}

/// A daemon that serves waits for what ends it.
pub proof fn serving_changes_nothing_else(daemon: &mut Daemon)
    requires
        call_ensures(Daemon::serving, (daemon,), ()),
    ensures
        final(daemon).step is Serve,
        final(daemon).start_failed == old(daemon).start_failed,
        final(daemon).control_plane_ended == old(daemon).control_plane_ended,
{
}

/// Serving ends with the request to shut everything down, and is said by its reason;
/// unless that was asked for, the control plane ended by itself.
pub proof fn serving_ends_by_its_reason(daemon: &mut Daemon, end: ServingEnd, r: String)
    requires
        call_ensures(Daemon::serving_ended, (daemon, end), r),
    ensures
        final(daemon).step is RequestShutdown,
        final(daemon).control_plane_ended <==> end !is ShutdownRequested,
        final(daemon).start_failed == old(daemon).start_failed,
        end is ShutdownRequested ==> r@ == "bamepd: shutdown requested"@,
        end is ControlPlaneStopped ==> r@
            == "bamepd: Worker control plane stopped unexpectedly with no shutdown requested"@,
        end matches ServingEnd::ControlPlaneFailed(error) ==> r@
            == "bamepd: Worker control plane failed: "@ + error@,
        end matches ServingEnd::ControlPlanePanicked(error) ==> r@
            == "bamepd: Worker control plane task panicked: "@ + error@,
{
}

/// Stopping goes on one step at a time: the supervisor is waited for, then the control
/// plane unless it ended by itself, then the log is stopped, and the lock is let go
/// last.
pub proof fn stopping_goes_in_order(daemon: &mut Daemon)
    requires
        call_ensures(Daemon::stopped, (daemon,), ()),
        old(daemon).step is RequestShutdown || old(daemon).step is AwaitSupervisor || old(
            daemon,
        ).step is AwaitControlPlane || old(daemon).step is StopEventLog || old(daemon).step
            is ReleaseLock,
    ensures
        final(daemon).start_failed == old(daemon).start_failed,
        final(daemon).control_plane_ended == old(daemon).control_plane_ended,
        final(daemon).step is AwaitSupervisor <==> old(daemon).step is RequestShutdown,
        final(daemon).step is AwaitControlPlane <==> old(daemon).step is AwaitSupervisor && !old(
            daemon,
        ).control_plane_ended,
        final(daemon).step is StopEventLog <==> old(daemon).step is AwaitControlPlane || (old(
            daemon,
        ).step is AwaitSupervisor && old(daemon).control_plane_ended),
        final(daemon).step is ReleaseLock <==> old(daemon).step is StopEventLog,
        final(daemon).step is Exit <==> old(daemon).step is ReleaseLock,
{
}

/// The process succeeds exactly where it started and was asked to stop.
pub proof fn process_succeeds_when_asked_to_stop(daemon: Daemon, r: i32)
    requires
        call_ensures(Daemon::exit_code, (&daemon,), r),
    ensures
        r == 0 <==> !daemon.start_failed && !daemon.control_plane_ended,
        r == 0 || r == 1,
{
}

/// A daemon begins by finding its directory, with nothing behind it.
pub proof fn daemon_begins_with_nothing_behind_it(r: Daemon)
    requires
        call_ensures(Daemon::new, (), r),
    ensures
        r.step is FindRuntimeDir,
        !r.start_failed,
        !r.control_plane_ended,
{
}

} // verus!
