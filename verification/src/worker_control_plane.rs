//! The Worker control plane's socket: taking it into use, accepting workers on
//! it, and leaving it behind.

use vstd::prelude::*;
use crate::resume_discovery::RESUME_PAGE_MAX_HELD_CHUNKS;
use crate::text::{self, decimal};
use crate::worker_runtime_ownership::{IoFault, RuntimeDirError, RuntimeDirErrorView};

verus! {

/// So many failures to accept in a row end the listener.
pub const MAX_CONSECUTIVE_ACCEPT_ERRORS: u32 = 10;

/// The wait after a failure to accept, in milliseconds.
pub const ACCEPT_ERROR_BACKOFF_MILLIS: u64 = 50;

/// The mode of the socket: read and write for its owner, nothing for others.
pub const SOCKET_MODE: u32 = 0o600;

/// Why the control plane could not be set up, or ended.
#[derive(Debug)]
pub enum WorkerControlPlaneError {
    PrepareDirectory { path: String, source: IoFault },
    UnsafeParentDirectory { path: String, reason: String },
    RefusingToRemoveNonSocket { path: String },
    SocketAlreadyActive { path: String },
    InspectExisting { path: String, source: IoFault },
    RemoveStaleSocket { path: String, source: IoFault },
    Bind { path: String, source: IoFault },
    SetPermissions { path: String, source: IoFault },
    AcceptFailed { source: IoFault },
    UnsupportedPlatform,
}

/// [`WorkerControlPlaneError`] by the text it holds.
pub enum WorkerControlPlaneErrorView {
    PrepareDirectory { path: Seq<char>, source: Seq<char> },
    UnsafeParentDirectory { path: Seq<char>, reason: Seq<char> },
    RefusingToRemoveNonSocket { path: Seq<char> },
    SocketAlreadyActive { path: Seq<char> },
    InspectExisting { path: Seq<char>, source: Seq<char> },
    RemoveStaleSocket { path: Seq<char>, source: Seq<char> },
    Bind { path: Seq<char>, source: Seq<char> },
    SetPermissions { path: Seq<char>, source: Seq<char> },
    AcceptFailed { source: Seq<char> },
    UnsupportedPlatform,
}

impl View for WorkerControlPlaneError {
    type V = WorkerControlPlaneErrorView;

    open spec fn view(&self) -> WorkerControlPlaneErrorView {
        match self {
            WorkerControlPlaneError::PrepareDirectory { path, source } =>
                WorkerControlPlaneErrorView::PrepareDirectory {
                path: path@,
                source: source.message@,
            },
            WorkerControlPlaneError::UnsafeParentDirectory { path, reason } =>
                WorkerControlPlaneErrorView::UnsafeParentDirectory {
                path: path@,
                reason: reason@,
            },
            WorkerControlPlaneError::RefusingToRemoveNonSocket { path } =>
                WorkerControlPlaneErrorView::RefusingToRemoveNonSocket { path: path@ },
            WorkerControlPlaneError::SocketAlreadyActive { path } =>
                WorkerControlPlaneErrorView::SocketAlreadyActive { path: path@ },
            WorkerControlPlaneError::InspectExisting { path, source } =>
                WorkerControlPlaneErrorView::InspectExisting {
                path: path@,
                source: source.message@,
            },
            WorkerControlPlaneError::RemoveStaleSocket { path, source } =>
                WorkerControlPlaneErrorView::RemoveStaleSocket {
                path: path@,
                source: source.message@,
            },
            WorkerControlPlaneError::Bind { path, source } => WorkerControlPlaneErrorView::Bind {
                path: path@,
                source: source.message@,
            },
            WorkerControlPlaneError::SetPermissions { path, source } =>
                WorkerControlPlaneErrorView::SetPermissions {
                path: path@,
                source: source.message@,
            },
            WorkerControlPlaneError::AcceptFailed { source } =>
                WorkerControlPlaneErrorView::AcceptFailed { source: source.message@ },
            WorkerControlPlaneError::UnsupportedPlatform =>
                WorkerControlPlaneErrorView::UnsupportedPlatform,
        }
    }
}

impl WorkerControlPlaneErrorView {
    /// The error's wording.
    pub open spec fn text(self) -> Seq<char> {
        match self {
            WorkerControlPlaneErrorView::PrepareDirectory { path, .. } =>
                "failed to prepare the UDS socket directory at "@ + path,
            WorkerControlPlaneErrorView::UnsafeParentDirectory { path, reason } =>
                "refusing to use unsafe pre-existing parent directory "@ + path + ": "@ + reason,
            WorkerControlPlaneErrorView::RefusingToRemoveNonSocket { path } =>
                "refusing to remove non-socket path "@ + path
                + ": an unrelated file already exists there"@,
            WorkerControlPlaneErrorView::SocketAlreadyActive { path } => "refusing to replace "@
                + path + ": a live Worker control-plane listener already owns it"@,
            WorkerControlPlaneErrorView::InspectExisting { path, .. } =>
                "failed to inspect existing path "@ + path,
            WorkerControlPlaneErrorView::RemoveStaleSocket { path, .. } =>
                "failed to remove stale socket at "@ + path,
            WorkerControlPlaneErrorView::Bind { path, .. } => "failed to bind UDS listener at "@
                + path,
            WorkerControlPlaneErrorView::SetPermissions { path, .. } =>
                "failed to set socket permissions at "@ + path,
            WorkerControlPlaneErrorView::AcceptFailed { .. } =>
                "Worker control-plane listener failed persistently"@,
            WorkerControlPlaneErrorView::UnsupportedPlatform =>
                "Unix Domain Sockets are not supported on this platform"@,
        }
    }
}

fn worded(before: &str, path: &str, after: &str) -> (r: String)
    ensures
        r@ == before@ + path@ + after@,
{
    let mut message = String::new();
    message.append(before);
    message.append(path);
    message.append(after);
    assert(message@ =~= before@ + path@ + after@);
    message
}

impl WorkerControlPlaneError {
    /// The error's wording.
    pub fn message(&self) -> (r: String)
        ensures
            r@ == self@.text(),
    {
        proof {
            reveal_strlit("");
        }
        let message = match self {
            WorkerControlPlaneError::PrepareDirectory { path, .. } => worded(
                "failed to prepare the UDS socket directory at ",
                path.as_str(),
                "",
            ),
            WorkerControlPlaneError::UnsafeParentDirectory { path, reason } => {
                let mut message = worded(
                    "refusing to use unsafe pre-existing parent directory ",
                    path.as_str(),
                    ": ",
                );
                message.append(reason.as_str());
                message
            },
            WorkerControlPlaneError::RefusingToRemoveNonSocket { path } => worded(
                "refusing to remove non-socket path ",
                path.as_str(),
                ": an unrelated file already exists there",
            ),
            WorkerControlPlaneError::SocketAlreadyActive { path } => worded(
                "refusing to replace ",
                path.as_str(),
                ": a live Worker control-plane listener already owns it",
            ),
            WorkerControlPlaneError::InspectExisting { path, .. } => worded(
                "failed to inspect existing path ",
                path.as_str(),
                "",
            ),
            WorkerControlPlaneError::RemoveStaleSocket { path, .. } => worded(
                "failed to remove stale socket at ",
                path.as_str(),
                "",
            ),
            WorkerControlPlaneError::Bind { path, .. } => worded(
                "failed to bind UDS listener at ",
                path.as_str(),
                "",
            ),
            WorkerControlPlaneError::SetPermissions { path, .. } => worded(
                "failed to set socket permissions at ",
                path.as_str(),
                "",
            ),
            WorkerControlPlaneError::AcceptFailed { .. } => worded(
                "Worker control-plane listener failed persistently",
                "",
                "",
            ),
            WorkerControlPlaneError::UnsupportedPlatform => worded(
                "Unix Domain Sockets are not supported on this platform",
                "",
                "",
            ),
        };
        assert(message@ =~= self@.text());
        message
    }
}

/// What a distrusted runtime directory means for the socket inside it.
pub open spec fn of_runtime_dir(error: RuntimeDirErrorView) -> WorkerControlPlaneErrorView {
    match error {
        RuntimeDirErrorView::RelativePath { path } =>
            WorkerControlPlaneErrorView::UnsafeParentDirectory {
            path,
            reason: "path must be absolute for the trusted runtime-directory boundary"@,
        },
        RuntimeDirErrorView::Symlink { path } =>
            WorkerControlPlaneErrorView::UnsafeParentDirectory {
            path,
            reason: "parent path is a symlink, not a real directory"@,
        },
        RuntimeDirErrorView::NotADirectory { path } =>
            WorkerControlPlaneErrorView::UnsafeParentDirectory {
            path,
            reason: "parent path is not a directory"@,
        },
        RuntimeDirErrorView::InsecureMode { path } =>
            WorkerControlPlaneErrorView::UnsafeParentDirectory {
            path,
            reason:
                "parent directory grants group/other permissions; expected owner-only (0700)"@,
        },
        RuntimeDirErrorView::WrongOwner { path, expected, actual } =>
            WorkerControlPlaneErrorView::UnsafeParentDirectory {
            path,
            reason: "parent directory is owned by uid "@ + text::decimal_text(actual as nat)
                + ", not the effective uid "@ + text::decimal_text(expected as nat)
                + " running bamepd"@,
        },
        RuntimeDirErrorView::UnsafeAncestor { path, reason } =>
            WorkerControlPlaneErrorView::UnsafeParentDirectory { path, reason },
        RuntimeDirErrorView::Create { path, source } =>
            WorkerControlPlaneErrorView::PrepareDirectory { path, source },
        RuntimeDirErrorView::Inspect { path, source } =>
            WorkerControlPlaneErrorView::InspectExisting { path, source },
    }
}

impl From<RuntimeDirError> for WorkerControlPlaneError {
    fn from(error: RuntimeDirError) -> (r: Self)
        ensures
            r@ == of_runtime_dir(error@),
    {
        match error {
            RuntimeDirError::RelativePath { path } =>
                WorkerControlPlaneError::UnsafeParentDirectory {
                path,
                reason: "path must be absolute for the trusted runtime-directory boundary".to_owned(),
            },
            RuntimeDirError::Symlink { path } => WorkerControlPlaneError::UnsafeParentDirectory {
                path,
                reason: "parent path is a symlink, not a real directory".to_owned(),
            },
            RuntimeDirError::NotADirectory { path } =>
                WorkerControlPlaneError::UnsafeParentDirectory {
                path,
                reason: "parent path is not a directory".to_owned(),
            },
            RuntimeDirError::InsecureMode { path } =>
                WorkerControlPlaneError::UnsafeParentDirectory {
                path,
                reason: "parent directory grants group/other permissions; expected owner-only (0700)".to_owned(),
            },
            RuntimeDirError::WrongOwner { path, expected, actual } => {
                let mut reason = String::new();
                reason.append("parent directory is owned by uid ");
                reason.append(decimal(actual as u64).as_str());
                reason.append(", not the effective uid ");
                reason.append(decimal(expected as u64).as_str());
                reason.append(" running bamepd");
                assert(reason@ =~= "parent directory is owned by uid "@ + text::decimal_text(
                    actual as nat,
                ) + ", not the effective uid "@ + text::decimal_text(expected as nat)
                    + " running bamepd"@);
                WorkerControlPlaneError::UnsafeParentDirectory { path, reason }
            },
            RuntimeDirError::UnsafeAncestor { path, reason } =>
                WorkerControlPlaneError::UnsafeParentDirectory { path, reason },
            RuntimeDirError::Create { path, source } => WorkerControlPlaneError::PrepareDirectory {
                path,
                source,
            },
            RuntimeDirError::Inspect { path, source } => WorkerControlPlaneError::InspectExisting {
                path,
                source,
            },
        }
    }
}

/// Says nothing beyond the contract of `from`, which speaks of the texts.
impl vstd::std_specs::convert::FromSpecImpl<RuntimeDirError> for WorkerControlPlaneError {
    open spec fn obeys_from_spec() -> bool {
        false
    }

    open spec fn from_spec(error: RuntimeDirError) -> Self {
        vstd::pervasive::arbitrary()
    }
}

/// What stands at the socket's path already, symbolic links not followed.
#[derive(Debug)]
pub enum ExistingEntry {
    Socket,
    /// Anything else: a file, a directory, a symbolic link.
    Other,
    Missing,
    Failed(IoFault),
}

/// What connecting to a socket came to.
#[derive(Debug)]
pub enum ConnectProbe {
    Connected,
    Refused,
    NotFound,
    Failed(IoFault),
}

/// What is to be done next on the way to a listening socket.
#[derive(Clone, Copy, Debug, PartialEq, Eq, Structural)]
pub enum BindStep {
    /// Connect to the socket that stands there.
    Probe,
    /// Remove the socket that stands there.
    RemoveStale,
    /// Listen, and set [`SOCKET_MODE`].
    Listen,
}

/// Decides about what stands at the path: a socket is tried, anything else is
/// left alone and refused.
pub fn inspect_existing(path: &str, existing: ExistingEntry) -> (r: Result<
    BindStep,
    WorkerControlPlaneError,
>)
    ensures
        match existing {
            ExistingEntry::Socket => r == Ok::<BindStep, WorkerControlPlaneError>(BindStep::Probe),
            ExistingEntry::Missing => r == Ok::<BindStep, WorkerControlPlaneError>(
                BindStep::Listen,
            ),
            ExistingEntry::Other => r matches Err(error) && error@
                == (WorkerControlPlaneErrorView::RefusingToRemoveNonSocket { path: path@ }),
            ExistingEntry::Failed(source) => r matches Err(error) && error@
                == (WorkerControlPlaneErrorView::InspectExisting {
                path: path@,
                source: source.message@,
            }),
        },
{
    match existing {
        ExistingEntry::Socket => Ok(BindStep::Probe),
        ExistingEntry::Missing => Ok(BindStep::Listen),
        ExistingEntry::Other => Err(
            WorkerControlPlaneError::RefusingToRemoveNonSocket { path: path.to_owned() },
        ),
        ExistingEntry::Failed(source) => Err(
            WorkerControlPlaneError::InspectExisting { path: path.to_owned(), source },
        ),
    }
}

/// Whether somebody listens on the socket. Only a refused connection, or a path
/// that vanished, shows that nobody does; any other failure shows nothing.
pub fn socket_is_live(path: &str, probe: ConnectProbe) -> (r: Result<bool, WorkerControlPlaneError>)
    ensures
        match probe {
            ConnectProbe::Connected => r == Ok::<bool, WorkerControlPlaneError>(true),
            ConnectProbe::Refused | ConnectProbe::NotFound => r == Ok::<
                bool,
                WorkerControlPlaneError,
            >(false),
            ConnectProbe::Failed(source) => r matches Err(error) && error@
                == (WorkerControlPlaneErrorView::InspectExisting {
                path: path@,
                source: source.message@,
            }),
        },
{
    match probe {
        ConnectProbe::Connected => Ok(true),
        ConnectProbe::Refused | ConnectProbe::NotFound => Ok(false),
        ConnectProbe::Failed(source) => Err(
            WorkerControlPlaneError::InspectExisting { path: path.to_owned(), source },
        ),
    }
}

/// Decides about a socket that was tried: a live one stays with its owner.
pub fn probed(path: &str, probe: ConnectProbe) -> (r: Result<BindStep, WorkerControlPlaneError>)
    ensures
        match probe {
            ConnectProbe::Connected => r matches Err(error) && error@
                == (WorkerControlPlaneErrorView::SocketAlreadyActive { path: path@ }),
            ConnectProbe::Refused | ConnectProbe::NotFound => r == Ok::<
                BindStep,
                WorkerControlPlaneError,
            >(BindStep::RemoveStale),
            ConnectProbe::Failed(source) => r matches Err(error) && error@
                == (WorkerControlPlaneErrorView::InspectExisting {
                path: path@,
                source: source.message@,
            }),
        },
{
    match socket_is_live(path, probe) {
        Ok(true) => Err(WorkerControlPlaneError::SocketAlreadyActive { path: path.to_owned() }),
        Ok(false) => Ok(BindStep::RemoveStale),
        Err(error) => Err(error),
    }
}

/// Goes on after a stale socket was removed, or could not be.
pub fn stale_removed(path: &str, removed: Result<(), IoFault>) -> (r: Result<
    BindStep,
    WorkerControlPlaneError,
>)
    ensures
        match removed {
            Ok(_) => r == Ok::<BindStep, WorkerControlPlaneError>(BindStep::Listen),
            Err(source) => r matches Err(error) && error@
                == (WorkerControlPlaneErrorView::RemoveStaleSocket {
                path: path@,
                source: source.message@,
            }),
        },
{
    match removed {
        Ok(_) => Ok(BindStep::Listen),
        Err(source) => Err(
            WorkerControlPlaneError::RemoveStaleSocket { path: path.to_owned(), source },
        ),
    }
}

/// Which object of which file system a socket is.
#[derive(Clone, Copy, Debug, PartialEq, Eq, Structural)]
pub struct SocketIdentity {
    pub dev: u64,
    pub ino: u64,
}

/// What stands at a path, as far as leaving it behind is concerned.
#[derive(Clone, Copy, Debug, PartialEq, Eq, Structural)]
pub struct SocketEntry {
    pub is_socket: bool,
    pub identity: SocketIdentity,
}

/// A socket in use. `L` is the listener.
#[derive(Debug)]
pub struct WorkerControlPlane<L> {
    pub listener: L,
    pub socket_path: String,
    pub socket_identity: SocketIdentity,
    pub resume_page_size: usize,
}

impl<L> WorkerControlPlane<L> {
    /// Pages have room for at least one chunk.
    pub open spec fn well_formed(&self) -> bool {
        self.resume_page_size >= 1
    }

    /// Takes the socket into use: it was listened on, then `restrict` sets its
    /// mode, then `identify` looks at what came to stand there. The first of them
    /// to fail is the error, and nothing is done after it.
    pub fn bind<S: FnOnce() -> Result<(), IoFault>, D: FnOnce() -> Result<SocketIdentity, IoFault>>(
        path: &str,
        listened: Result<L, IoFault>,
        restrict: S,
        identify: D,
    ) -> (r: Result<Self, WorkerControlPlaneError>)
        requires
            call_requires(restrict, ()),
            call_requires(identify, ()),
        ensures
            match listened {
                Err(source) => r matches Err(error) && error@
                    == (WorkerControlPlaneErrorView::Bind {
                    path: path@,
                    source: source.message@,
                }),
                Ok(listener) => exists|restricted: Result<(), IoFault>| #[trigger]
                    call_ensures(restrict, (), restricted) && match restricted {
                        Err(source) => r matches Err(error) && error@
                            == (WorkerControlPlaneErrorView::SetPermissions {
                            path: path@,
                            source: source.message@,
                        }),
                        Ok(_) => exists|identified: Result<SocketIdentity, IoFault>| #[trigger]
                            call_ensures(identify, (), identified) && match identified {
                                Err(source) => r matches Err(error) && error@
                                    == (WorkerControlPlaneErrorView::InspectExisting {
                                    path: path@,
                                    source: source.message@,
                                }),
                                Ok(identity) => {
                                    &&& r matches Ok(plane)
                                    &&& plane.listener == listener
                                    &&& plane.socket_path@ == path@
                                    &&& plane.socket_identity == identity
                                    &&& plane.resume_page_size == RESUME_PAGE_MAX_HELD_CHUNKS
                                    &&& plane.well_formed()
                                },
                            },
                    },
            },
    {
        let listener = match listened {
            Ok(listener) => listener,
            Err(source) => {
                return Err(WorkerControlPlaneError::Bind { path: path.to_owned(), source });
            },
        };
        match restrict() {
            Ok(_) => {},
            Err(source) => {
                return Err(
                    WorkerControlPlaneError::SetPermissions { path: path.to_owned(), source },
                );
            },
        }
        match identify() {
            Ok(socket_identity) => Ok(
                WorkerControlPlane {
                    listener,
                    socket_path: path.to_owned(),
                    socket_identity,
                    resume_page_size: RESUME_PAGE_MAX_HELD_CHUNKS,
                },
            ),
            Err(source) => Err(
                WorkerControlPlaneError::InspectExisting { path: path.to_owned(), source },
            ),
        }
    }

    /// Sets how many held chunks one page carries; at least one.
    pub fn with_resume_page_size(self, page_size: usize) -> (r: Self)
        ensures
            r == (WorkerControlPlane {
                resume_page_size: if page_size >= 1 { page_size } else { 1 },
                ..self
            }),
            r.well_formed(),
    {
        let resume_page_size: usize = if page_size >= 1 {
            page_size
        } else {
            1
        };
        WorkerControlPlane {
            listener: self.listener,
            socket_path: self.socket_path,
            socket_identity: self.socket_identity,
            resume_page_size,
        }
    }

    /// Whether the path is to be removed on the way out: only while the very
    /// socket that was bound still stands there.
    pub fn cleanup_own_socket(&self, found: Option<SocketEntry>) -> (r: bool)
        ensures
            r == (found == Some(
                SocketEntry { is_socket: true, identity: self.socket_identity },
            )),
    {
        match found {
            Some(entry) => entry.is_socket && entry.identity == self.socket_identity,
            None => false,
        }
    }
}

/// A path is removed only where a socket stands at it that nobody listens on: a
/// file of another kind, a live socket, and a socket of which nothing is known
/// all stay.
pub proof fn only_a_dead_socket_is_removed(
    path: &str,
    existing: ExistingEntry,
    probe: ConnectProbe,
    inspected: Result<BindStep, WorkerControlPlaneError>,
    tried: Result<BindStep, WorkerControlPlaneError>,
)
    requires
        call_ensures(inspect_existing, (path, existing), inspected),
        call_ensures(probed, (path, probe), tried),
    ensures
        inspected != Ok::<BindStep, WorkerControlPlaneError>(BindStep::RemoveStale),
        tried == Ok::<BindStep, WorkerControlPlaneError>(BindStep::RemoveStale) ==> probe
            is Refused || probe is NotFound,
        inspected == Ok::<BindStep, WorkerControlPlaneError>(BindStep::Probe) ==> existing
            is Socket,
{
}

/// Whether so many failures to accept in a row end the listener.
pub fn accept_failure_is_terminal(consecutive_failures: u32) -> (r: bool)
    ensures
        r == (consecutive_failures >= MAX_CONSECUTIVE_ACCEPT_ERRORS),
{
    consecutive_failures >= MAX_CONSECUTIVE_ACCEPT_ERRORS
}

/// What the accepting loop can meet with.
#[derive(Debug)]
pub enum AcceptEvent {
    Accepted,
    AcceptFailed(IoFault),
    /// The request to stop changed to this.
    ShutdownChanged(bool),
    /// A connection's handler ended.
    HandlerEnded { panicked: bool },
}

/// What the accepting loop does about it.
#[derive(Debug)]
pub enum AcceptAction {
    /// Hand the connection to a handler of its own.
    Spawn,
    /// Wait so long, then accept again.
    Backoff { millis: u64 },
    /// Nothing; go on.
    Continue,
    /// Say that a handler panicked, and go on.
    ReportPanic,
    /// Leave the loop.
    Stop(Result<(), WorkerControlPlaneError>),
}

/// The accepting loop: how many failures came in a row.
#[derive(Clone, Copy, Debug, PartialEq, Eq, Structural)]
pub struct AcceptLoop {
    pub consecutive_accept_errors: u32,
}

impl AcceptLoop {
    /// Fewer failures than end the listener.
    pub open spec fn well_formed(&self) -> bool {
        self.consecutive_accept_errors < MAX_CONSECUTIVE_ACCEPT_ERRORS
    }

    pub fn new() -> (r: AcceptLoop)
        ensures
            r.consecutive_accept_errors == 0,
            r.well_formed(),
    {
        AcceptLoop { consecutive_accept_errors: 0 }
    }

    /// Takes one event.
    pub fn step(&mut self, event: AcceptEvent) -> (r: AcceptAction)
        requires
            old(self).well_formed(),
        ensures
            final(self).consecutive_accept_errors == errors_after(
                old(self).consecutive_accept_errors as int,
                event,
            ),
            !(r is Stop) ==> final(self).well_formed(),
            match event {
                AcceptEvent::Accepted => r is Spawn,
                AcceptEvent::AcceptFailed(source) => if final(self).consecutive_accept_errors
                    >= MAX_CONSECUTIVE_ACCEPT_ERRORS {
                    r == AcceptAction::Stop(Err(WorkerControlPlaneError::AcceptFailed { source }))
                } else {
                    r == (AcceptAction::Backoff { millis: ACCEPT_ERROR_BACKOFF_MILLIS })
                },
                AcceptEvent::ShutdownChanged(stop) => if stop {
                    r == AcceptAction::Stop(Ok(()))
                } else {
                    r is Continue
                },
                AcceptEvent::HandlerEnded { panicked } => if panicked {
                    r is ReportPanic
                } else {
                    r is Continue
                },
            },
    {
        match event {
            AcceptEvent::Accepted => {
                self.consecutive_accept_errors = 0;
                AcceptAction::Spawn
            },
            AcceptEvent::AcceptFailed(source) => {
                self.consecutive_accept_errors = self.consecutive_accept_errors + 1;
                if accept_failure_is_terminal(self.consecutive_accept_errors) {
                    return AcceptAction::Stop(Err(WorkerControlPlaneError::AcceptFailed { source }));
                }
                AcceptAction::Backoff { millis: ACCEPT_ERROR_BACKOFF_MILLIS }
            },
            AcceptEvent::ShutdownChanged(stop) => if stop {
                AcceptAction::Stop(Ok(()))
            } else {
                AcceptAction::Continue
            },
            AcceptEvent::HandlerEnded { panicked } => if panicked {
                AcceptAction::ReportPanic
            } else {
                AcceptAction::Continue
            },
        }
    }

    /// Whether the handlers that still run are to be aborted when the loop was
    /// left: only where the listener failed, since nothing then tells them to
    /// stop. Either way they are waited for, and then the socket is cleaned up.
    pub fn aborts_handlers(outcome: &Result<(), WorkerControlPlaneError>) -> (r: bool)
        ensures
            r == (outcome is Err),
    {
        match outcome {
            Ok(_) => false,
            Err(_) => true,
        }
    }
}

/// The failures in a row after an event, where `errors` came before it. Only an
/// accepted connection forgets them.
pub open spec fn errors_after(errors: int, event: AcceptEvent) -> int {
    match event {
        AcceptEvent::Accepted => 0,
        AcceptEvent::AcceptFailed(_) => errors + 1,
        _ => errors,
    }
}

/// The failures in a row after a run of events, from the start.
pub open spec fn errors_after_all(events: Seq<AcceptEvent>) -> int
    decreases events.len(),
{
    if events.len() == 0 {
        0
    } else {
        errors_after(errors_after_all(events.drop_last()), events.last())
    }
}

/// How many of the events are failures to accept.
pub open spec fn failures(events: Seq<AcceptEvent>) -> int
    decreases events.len(),
{
    if events.len() == 0 {
        0
    } else {
        failures(events.drop_last()) + (if events.last() is AcceptFailed {
            1int
        } else {
            0
        })
    }
}

/// Failures that came before an accepted connection do not count any more.
pub proof fn acceptance_forgets_earlier_failures(
    earlier: Seq<AcceptEvent>,
    later: Seq<AcceptEvent>,
)
    ensures
        errors_after_all(earlier.push(AcceptEvent::Accepted) + later) == errors_after_all(later),
    decreases later.len(),
{
    let accepted = earlier.push(AcceptEvent::Accepted);
    if later.len() == 0 {
        assert(accepted + later =~= accepted);
    } else {
        acceptance_forgets_earlier_failures(earlier, later.drop_last());
        assert((accepted + later).drop_last() =~= accepted + later.drop_last());
    }
}

/// The count is never more than the failures there were: a listener that met
/// with fewer of them than the limit goes on.
pub proof fn fewer_failures_leave_the_listener_on(events: Seq<AcceptEvent>)
    ensures
        0 <= errors_after_all(events) <= failures(events),
    decreases events.len(),
{
    if events.len() > 0 {
        fewer_failures_leave_the_listener_on(events.drop_last());
    }
}

/// What stands at the socket's path decides: a socket is tried, nothing is listened on,
/// anything else is left alone.
pub proof fn existing_entry_decides(
    path: &str,
    existing: ExistingEntry,
    r: Result<BindStep, WorkerControlPlaneError>,
)
    requires
        call_ensures(inspect_existing, (path, existing), r),
    ensures
        r is Ok <==> existing is Socket || existing is Missing,
        existing is Socket ==> r->Ok_0 is Probe,
        existing is Missing ==> r->Ok_0 is Listen,
        existing is Other ==> (r->Err_0 matches WorkerControlPlaneError::RefusingToRemoveNonSocket {
            path: at,
        } && at@ == path@),
        existing matches ExistingEntry::Failed(fault) ==> (r->Err_0
            matches WorkerControlPlaneError::InspectExisting { path: at, source } && at@ == path@
            && source.message@ == fault.message@),
{
}

/// A socket is live where somebody answers, and dead where the connection is refused or
/// the path is gone; a dead one is removed, a live one is left to its owner, and any
/// other failure shows nothing.
pub proof fn probe_tells_live_from_dead(
    path: &str,
    probe: ConnectProbe,
    live: Result<bool, WorkerControlPlaneError>,
    r: Result<BindStep, WorkerControlPlaneError>,
)
    requires
        call_ensures(socket_is_live, (path, probe), live),
        call_ensures(probed, (path, probe), r),
    ensures
        probe is Connected <==> live == Ok::<bool, WorkerControlPlaneError>(true),
        probe is Refused || probe is NotFound <==> live == Ok::<bool, WorkerControlPlaneError>(
            false,
        ),
        r is Ok <==> probe is Refused || probe is NotFound,
        r matches Ok(step) ==> step is RemoveStale,
        probe is Connected ==> (r->Err_0 matches WorkerControlPlaneError::SocketAlreadyActive {
            path: at,
        } && at@ == path@),
        probe matches ConnectProbe::Failed(fault) ==> (r->Err_0
            matches WorkerControlPlaneError::InspectExisting { path: at, source } && at@ == path@
            && source.message@ == fault.message@) && (live
            matches Err(WorkerControlPlaneError::InspectExisting { path: at, source }) && at@
            == path@ && source.message@ == fault.message@),
{
}

/// A socket is listened on once the stale one was removed.
pub proof fn listening_follows_the_removal(
    path: &str,
    removed: Result<(), IoFault>,
    r: Result<BindStep, WorkerControlPlaneError>,
)
    requires
        call_ensures(stale_removed, (path, removed), r),
    ensures
        r is Ok <==> removed is Ok,
        r matches Ok(step) ==> step is Listen,
        removed matches Err(fault) ==> (r->Err_0
            matches WorkerControlPlaneError::RemoveStaleSocket { path: at, source } && at@ == path@
            && source.message@ == fault.message@),
{
}

/// A socket is in use exactly where it was listened on, then restricted, then
/// identified; it is known by that identity, and its pages carry the most they may.
pub proof fn socket_is_in_use_once_it_is_private<
    L,
    S: FnOnce() -> Result<(), IoFault>,
    D: FnOnce() -> Result<SocketIdentity, IoFault>,
>(
    path: &str,
    listened: Result<L, IoFault>,
    restrict: S,
    identify: D,
    r: Result<WorkerControlPlane<L>, WorkerControlPlaneError>,
)
    requires
        call_ensures(
            WorkerControlPlane::<L>::bind::<S, D>,
            (path, listened, restrict, identify),
            r,
        ),
    ensures
        listened matches Err(fault) ==> r is Err && (r->Err_0 matches WorkerControlPlaneError::Bind {
            path: at,
            source,
        } && at@ == path@ && source.message@ == fault.message@),
        r matches Ok(plane) ==> {
            &&& listened is Ok && plane.listener == listened->Ok_0
            &&& exists|restricted: Result<(), IoFault>| #[trigger]
                call_ensures(restrict, (), restricted) && restricted is Ok
            &&& call_ensures(identify, (), Ok(plane.socket_identity))
            &&& plane.socket_path@ == path@
            &&& plane.resume_page_size == 8192
        },
        r is Err && listened is Ok ==> (exists|fault: IoFault| #[trigger]
            call_ensures(restrict, (), Err(fault)) && (r->Err_0
                matches WorkerControlPlaneError::SetPermissions { path: at, source } && at@ == path@
                && source.message@ == fault.message@)) || (exists|fault: IoFault| #[trigger]
            call_ensures(identify, (), Err(fault)) && (r->Err_0
                matches WorkerControlPlaneError::InspectExisting { path: at, source } && at@
                == path@ && source.message@ == fault.message@)),
{
}

/// A page has room for as many chunks as asked for, and for one at least; nothing else
/// changes.
pub proof fn page_has_room_for_one<L>(
    plane: WorkerControlPlane<L>,
    page_size: usize,
    r: WorkerControlPlane<L>,
)
    requires
        call_ensures(WorkerControlPlane::<L>::with_resume_page_size, (plane, page_size), r),
    ensures
        page_size >= 1 ==> r.resume_page_size == page_size,
        page_size == 0 ==> r.resume_page_size == 1,
        r.listener == plane.listener,
        r.socket_path == plane.socket_path,
        r.socket_identity == plane.socket_identity,
{
}

/// The path is removed on the way out exactly where the very socket that was bound still
/// stands there.
pub proof fn only_its_own_socket_is_removed<L>(
    plane: WorkerControlPlane<L>,
    found: Option<SocketEntry>,
    r: bool,
)
    requires
        call_ensures(WorkerControlPlane::<L>::cleanup_own_socket, (&plane, found), r),
    ensures
        r <==> found is Some && found->Some_0.is_socket && found->Some_0.identity.dev
            == plane.socket_identity.dev && found->Some_0.identity.ino
            == plane.socket_identity.ino,
{
}

/// Ten failures in a row end the listener, and fewer do not.
pub proof fn ten_failures_end_the_listener(consecutive_failures: u32, r: bool)
    requires
        call_ensures(accept_failure_is_terminal, (consecutive_failures,), r),
    ensures
        r <==> consecutive_failures >= 10,
{
}

/// A connection is handed on and forgets the failures before it; a failure is counted
/// and waited on, or ends the loop as the tenth in a row; nothing else counts.
pub proof fn accepting_goes_by_what_came(
    accepting: &mut AcceptLoop,
    event: AcceptEvent,
    r: AcceptAction,
)
    requires
        call_ensures(AcceptLoop::step, (accepting, event), r),
    ensures
        event is Accepted <==> r is Spawn,
        event is Accepted ==> final(accepting).consecutive_accept_errors == 0,
        event is AcceptFailed ==> final(accepting).consecutive_accept_errors == old(
            accepting,
        ).consecutive_accept_errors + 1,
        event !is Accepted && event !is AcceptFailed ==> final(accepting).consecutive_accept_errors
            == old(accepting).consecutive_accept_errors,
        event matches AcceptEvent::AcceptFailed(fault) ==> (old(accepting).consecutive_accept_errors
            >= 9 ==> (r matches AcceptAction::Stop(outcome) && outcome is Err && outcome->Err_0
            == (WorkerControlPlaneError::AcceptFailed { source: fault }))) && (old(
            accepting,
        ).consecutive_accept_errors < 9 ==> r == (AcceptAction::Backoff { millis: 50 })),
        event matches AcceptEvent::ShutdownChanged(stop) ==> (stop ==> (r
            matches AcceptAction::Stop(outcome) && outcome is Ok)) && (!stop ==> r is Continue),
        event matches AcceptEvent::HandlerEnded { panicked } ==> (panicked ==> r is ReportPanic)
            && (!panicked ==> r is Continue),
{
}

/// Handlers are aborted only where the listener failed.
pub proof fn handlers_are_aborted_after_a_failure(
    outcome: Result<(), WorkerControlPlaneError>,
    r: bool,
)
    requires
        call_ensures(AcceptLoop::aborts_handlers, (&outcome,), r),
    ensures
        r <==> outcome is Err,
{
}

/// The socket is for its owner alone, who may read and write it.
pub proof fn socket_is_for_its_owner_alone()
    ensures
        SOCKET_MODE == 0o600,
{
}

/// What is wrong with the runtime directory is told of the socket by what it is.
pub proof fn directory_error_is_told_by_what_it_is(
    error: RuntimeDirError,
    r: WorkerControlPlaneError,
)
    requires
        call_ensures(<WorkerControlPlaneError as From<RuntimeDirError>>::from, (error,), r),
    ensures
        error matches RuntimeDirError::RelativePath { path } ==> (r
            matches WorkerControlPlaneError::UnsafeParentDirectory { path: at, reason } && at@
            == path@ && reason@
            == "path must be absolute for the trusted runtime-directory boundary"@),
        error matches RuntimeDirError::Symlink { path } ==> (r
            matches WorkerControlPlaneError::UnsafeParentDirectory { path: at, reason } && at@
            == path@ && reason@ == "parent path is a symlink, not a real directory"@),
        error matches RuntimeDirError::NotADirectory { path } ==> (r
            matches WorkerControlPlaneError::UnsafeParentDirectory { path: at, reason } && at@
            == path@ && reason@ == "parent path is not a directory"@),
        error matches RuntimeDirError::InsecureMode { path } ==> (r
            matches WorkerControlPlaneError::UnsafeParentDirectory { path: at, reason } && at@
            == path@ && reason@
            == "parent directory grants group/other permissions; expected owner-only (0700)"@),
        error matches RuntimeDirError::WrongOwner { path, expected, actual } ==> (r
            matches WorkerControlPlaneError::UnsafeParentDirectory { path: at, reason } && at@
            == path@ && reason@ == "parent directory is owned by uid "@ + text::decimal_text(
            actual as nat,
        ) + ", not the effective uid "@ + text::decimal_text(expected as nat) + " running bamepd"@),
        error matches RuntimeDirError::UnsafeAncestor { path, reason: why } ==> (r
            matches WorkerControlPlaneError::UnsafeParentDirectory { path: at, reason } && at@
            == path@ && reason@ == why@),
        error matches RuntimeDirError::Create { path, source: fault } ==> (r
            matches WorkerControlPlaneError::PrepareDirectory { path: at, source } && at@ == path@
            && source.message@ == fault.message@),
        error matches RuntimeDirError::Inspect { path, source: fault } ==> (r
            matches WorkerControlPlaneError::InspectExisting { path: at, source } && at@ == path@
            && source.message@ == fault.message@),
{
}

/// What goes wrong with the socket is worded by what it is, and names the path.
pub proof fn socket_errors_are_worded_by_what_they_are(error: WorkerControlPlaneError, r: String)
    requires
        call_ensures(WorkerControlPlaneError::message, (&error,), r),
    ensures
        error matches WorkerControlPlaneError::PrepareDirectory { path, source } ==> r@
            == "failed to prepare the UDS socket directory at "@ + path@,
        error matches WorkerControlPlaneError::UnsafeParentDirectory { path, reason } ==> r@
            == "refusing to use unsafe pre-existing parent directory "@ + path@ + ": "@ + reason@,
        error matches WorkerControlPlaneError::RefusingToRemoveNonSocket { path } ==> r@
            == "refusing to remove non-socket path "@ + path@
            + ": an unrelated file already exists there"@,
        error matches WorkerControlPlaneError::SocketAlreadyActive { path } ==> r@
            == "refusing to replace "@ + path@
            + ": a live Worker control-plane listener already owns it"@,
        error matches WorkerControlPlaneError::InspectExisting { path, source } ==> r@
            == "failed to inspect existing path "@ + path@,
        error matches WorkerControlPlaneError::RemoveStaleSocket { path, source } ==> r@
            == "failed to remove stale socket at "@ + path@,
        error matches WorkerControlPlaneError::Bind { path, source } ==> r@
            == "failed to bind UDS listener at "@ + path@,
        error matches WorkerControlPlaneError::SetPermissions { path, source } ==> r@
            == "failed to set socket permissions at "@ + path@,
        error is AcceptFailed ==> r@ == "Worker control-plane listener failed persistently"@,
        error is UnsupportedPlatform ==> r@
            == "Unix Domain Sockets are not supported on this platform"@,
{
}

} // verus!
