//! Trust in the directory that holds the Worker control socket, and the lock
//! that makes one daemon its owner.
//!
//! Whoever may delete or replace a component of the directory's path could hand
//! a second daemon a different directory of the same name. So the directory
//! itself and every directory above it are held to rules about kind, mode and
//! owner before anything is created in it.

use vstd::prelude::*;
use crate::text::{self, decimal, same_text};

verus! {

/// The name of the lock file inside the runtime directory.
pub const LOCK_FILE_NAME: &'static str = "bamepd.lock";

/// A failure that the operating system reported, in its own words.
#[derive(Debug)]
pub struct IoFault {
    pub message: String,
}

/// What a path turned out to name, symbolic links not followed.
#[derive(Clone, Copy, Debug, PartialEq, Eq, Structural)]
pub enum EntryKind {
    Symlink,
    Directory,
    Other,
}

/// What is known of a directory entry, symbolic links not followed.
#[derive(Clone, Copy, Debug, PartialEq, Eq, Structural)]
pub struct EntryFacts {
    pub kind: EntryKind,
    pub mode: u32,
    pub owner_uid: u32,
}

/// One directory above the runtime directory, and what inspecting it gave.
#[derive(Debug)]
pub struct Ancestor {
    pub path: String,
    pub inspected: Result<EntryFacts, IoFault>,
}

/// What inspecting the runtime directory's own path gave.
#[derive(Debug)]
pub enum TargetInspection {
    Found(EntryFacts),
    Missing,
    Failed(IoFault),
}

/// Why a runtime directory is not trusted.
#[derive(Debug)]
pub enum RuntimeDirError {
    RelativePath { path: String },
    Symlink { path: String },
    NotADirectory { path: String },
    InsecureMode { path: String },
    WrongOwner { path: String, expected: u32, actual: u32 },
    UnsafeAncestor { path: String, reason: String },
    Create { path: String, source: IoFault },
    Inspect { path: String, source: IoFault },
}

/// [`RuntimeDirError`] by the text it holds.
pub enum RuntimeDirErrorView {
    RelativePath { path: Seq<char> },
    Symlink { path: Seq<char> },
    NotADirectory { path: Seq<char> },
    InsecureMode { path: Seq<char> },
    WrongOwner { path: Seq<char>, expected: u32, actual: u32 },
    UnsafeAncestor { path: Seq<char>, reason: Seq<char> },
    Create { path: Seq<char>, source: Seq<char> },
    Inspect { path: Seq<char>, source: Seq<char> },
}

impl View for RuntimeDirError {
    type V = RuntimeDirErrorView;

    open spec fn view(&self) -> RuntimeDirErrorView {
        match self {
            RuntimeDirError::RelativePath { path } => RuntimeDirErrorView::RelativePath {
                path: path@,
            },
            RuntimeDirError::Symlink { path } => RuntimeDirErrorView::Symlink { path: path@ },
            RuntimeDirError::NotADirectory { path } => RuntimeDirErrorView::NotADirectory {
                path: path@,
            },
            RuntimeDirError::InsecureMode { path } => RuntimeDirErrorView::InsecureMode {
                path: path@,
            },
            RuntimeDirError::WrongOwner { path, expected, actual } =>
                RuntimeDirErrorView::WrongOwner {
                path: path@,
                expected: *expected,
                actual: *actual,
            },
            RuntimeDirError::UnsafeAncestor { path, reason } =>
                RuntimeDirErrorView::UnsafeAncestor { path: path@, reason: reason@ },
            RuntimeDirError::Create { path, source } => RuntimeDirErrorView::Create {
                path: path@,
                source: source.message@,
            },
            RuntimeDirError::Inspect { path, source } => RuntimeDirErrorView::Inspect {
                path: path@,
                source: source.message@,
            },
        }
    }
}

/// The mode grants nothing to group or other.
pub fn mode_is_owner_only(mode: u32) -> (r: bool)
    ensures
        r == owner_only(mode),
{
    mode & 0o077 == 0
}

/// None of the six permission bits of group and other is set.
pub open spec fn owner_only(mode: u32) -> bool {
    mode & 0o077 == 0
}

/// Group or other may write.
pub open spec fn shared_write(mode: u32) -> bool {
    mode & 0o022 != 0
}

/// Entries may be removed by their owners only.
pub open spec fn sticky(mode: u32) -> bool {
    mode & 0o1000 != 0
}

/// No unrelated principal can replace an entry of such a directory: it belongs
/// to root or to the daemon, and where others may write, the sticky bit is set.
pub open spec fn trusted_ancestor(mode: u32, owner_uid: u32, effective_uid: u32) -> bool {
    &&& owner_uid == 0 || owner_uid == effective_uid
    &&& shared_write(mode) ==> sticky(mode)
}

/// Whether no unrelated principal can replace an entry of a directory with this
/// mode and owner.
pub fn ancestor_is_trusted(mode: u32, owner_uid: u32, effective_uid: u32) -> (r: bool)
    ensures
        r == trusted_ancestor(mode, owner_uid, effective_uid),
{
    let owned_by_root_or_self = owner_uid == 0 || owner_uid == effective_uid;
    let group_or_other_writable = mode & 0o022 != 0;
    let has_sticky_bit = mode & 0o1000 != 0;
    owned_by_root_or_self && (!group_or_other_writable || has_sticky_bit)
}

/// A directory that the daemon owns and nobody else may touch is trusted as an
/// ancestor too.
pub proof fn own_private_directory_is_trusted(mode: u32, effective_uid: u32)
    requires
        owner_only(mode),
    ensures
        trusted_ancestor(mode, effective_uid, effective_uid),
{
    assert(mode & 0o022 == 0) by (bit_vector)
        requires
            mode & 0o077 == 0,
    ;
}

/// What is wrong with an entry as the runtime directory itself, if anything.
/// Kind is looked at first, then mode, then owner.
pub open spec fn shape_error(path: Seq<char>, entry: EntryFacts, effective_uid: u32) -> Option<
    RuntimeDirErrorView,
> {
    if entry.kind is Symlink {
        Some(RuntimeDirErrorView::Symlink { path })
    } else if entry.kind is Other {
        Some(RuntimeDirErrorView::NotADirectory { path })
    } else if !owner_only(entry.mode) {
        Some(RuntimeDirErrorView::InsecureMode { path })
    } else if entry.owner_uid != effective_uid {
        Some(
            RuntimeDirErrorView::WrongOwner {
                path,
                expected: effective_uid,
                actual: entry.owner_uid,
            },
        )
    } else {
        None
    }
}

fn validate_shape(path: &str, entry: EntryFacts, effective_uid: u32) -> (r: Result<
    (),
    RuntimeDirError,
>)
    ensures
        r is Ok <==> shape_error(path@, entry, effective_uid) is None,
        r matches Err(error) ==> shape_error(path@, entry, effective_uid) == Some(error@),
{
    match entry.kind {
        EntryKind::Symlink => {
            return Err(RuntimeDirError::Symlink { path: path.to_owned() });
        },
        EntryKind::Other => {
            return Err(RuntimeDirError::NotADirectory { path: path.to_owned() });
        },
        EntryKind::Directory => {},
    }
    if !mode_is_owner_only(entry.mode) {
        return Err(RuntimeDirError::InsecureMode { path: path.to_owned() });
    }
    if entry.owner_uid != effective_uid {
        return Err(
            RuntimeDirError::WrongOwner {
                path: path.to_owned(),
                expected: effective_uid,
                actual: entry.owner_uid,
            },
        );
    }
    Ok(())
}

/// What is wrong with one directory above the runtime directory, if anything.
pub open spec fn ancestor_error(ancestor: Ancestor, effective_uid: u32) -> Option<
    RuntimeDirErrorView,
> {
    let path = ancestor.path@;
    if path == ""@ {
        None
    } else {
        match ancestor.inspected {
            Err(fault) => Some(
                RuntimeDirErrorView::Inspect { path, source: fault.message@ },
            ),
            Ok(entry) => if entry.kind is Symlink {
                Some(
                    RuntimeDirErrorView::UnsafeAncestor {
                        path,
                        reason: "ancestor path is a symlink, not a real directory"@,
                    },
                )
            } else if entry.kind is Other {
                Some(
                    RuntimeDirErrorView::UnsafeAncestor {
                        path,
                        reason: "ancestor path is not a directory"@,
                    },
                )
            } else if !trusted_ancestor(entry.mode, entry.owner_uid, effective_uid) {
                Some(
                    RuntimeDirErrorView::UnsafeAncestor {
                        path,
                        reason:
                            "ancestor directory can be replaced by an untrusted principal (owned by neither root nor the effective uid running bamepd, or group/other-writable without the sticky bit)"@,
                    },
                )
            } else {
                None
            },
        }
    }
}

fn check_ancestor(ancestor: &Ancestor, effective_uid: u32) -> (r: Result<(), RuntimeDirError>)
    ensures
        r is Ok <==> ancestor_error(*ancestor, effective_uid) is None,
        r matches Err(error) ==> ancestor_error(*ancestor, effective_uid) == Some(error@),
{
    if same_text(ancestor.path.as_str(), "") {
        return Ok(());
    }
    match &ancestor.inspected {
        Err(source) => Err(
            RuntimeDirError::Inspect {
                path: ancestor.path.clone(),
                source: IoFault { message: source.message.clone() },
            },
        ),
        Ok(entry) => match entry.kind {
            EntryKind::Symlink => Err(
                RuntimeDirError::UnsafeAncestor {
                    path: ancestor.path.clone(),
                    reason: "ancestor path is a symlink, not a real directory".to_owned(),
                },
            ),
            EntryKind::Other => Err(
                RuntimeDirError::UnsafeAncestor {
                    path: ancestor.path.clone(),
                    reason: "ancestor path is not a directory".to_owned(),
                },
            ),
            EntryKind::Directory => {
                if ancestor_is_trusted(entry.mode, entry.owner_uid, effective_uid) {
                    Ok(())
                } else {
                    Err(
                        RuntimeDirError::UnsafeAncestor {
                            path: ancestor.path.clone(),
                            reason:
                                "ancestor directory can be replaced by an untrusted principal (owned by neither root nor the effective uid running bamepd, or group/other-writable without the sticky bit)".to_owned(),
                        },
                    )
                }
            },
        },
    }
}

/// The first of `ancestors` that is not trusted, from position `from` on.
pub open spec fn first_ancestor_error(
    ancestors: Seq<Ancestor>,
    effective_uid: u32,
    from: int,
) -> Option<RuntimeDirErrorView>
    decreases ancestors.len() - from,
{
    if from < 0 || from >= ancestors.len() {
        None
    } else {
        match ancestor_error(ancestors[from], effective_uid) {
            Some(error) => Some(error),
            None => first_ancestor_error(ancestors, effective_uid, from + 1),
        }
    }
}

/// Checks the whole chain of directories above the runtime directory, nearest
/// first, and reports the first that is not trusted.
fn ensure_trusted_ancestor(ancestors: &Vec<Ancestor>, effective_uid: u32) -> (r: Result<
    (),
    RuntimeDirError,
>)
    ensures
        r is Ok <==> first_ancestor_error(ancestors@, effective_uid, 0) is None,
        r matches Err(error) ==> first_ancestor_error(ancestors@, effective_uid, 0) == Some(
            error@,
        ),
{
    let mut i: usize = 0;
    while i < ancestors.len()
        invariant
            i <= ancestors@.len(),
            first_ancestor_error(ancestors@, effective_uid, 0) == first_ancestor_error(
                ancestors@,
                effective_uid,
                i as int,
            ),
        decreases ancestors@.len() - i,
    {
        match check_ancestor(&ancestors[i], effective_uid) {
            Ok(()) => {},
            Err(error) => {
                return Err(error);
            },
        }
        i = i + 1;
    }
    Ok(())
}

/// The chain is trusted exactly when every directory in it is: no trusted
/// directory below makes up for an untrusted one above.
pub proof fn chain_is_trusted_when_every_ancestor_is(ancestors: Seq<Ancestor>, effective_uid: u32)
    ensures
        first_ancestor_error(ancestors, effective_uid, 0) is None <==> (forall|i: int|
            0 <= i < ancestors.len() ==> ancestor_error(#[trigger] ancestors[i], effective_uid)
                is None),
{
    chain_from_is_trusted_when_every_ancestor_is(ancestors, effective_uid, 0);
}

proof fn chain_from_is_trusted_when_every_ancestor_is(
    ancestors: Seq<Ancestor>,
    effective_uid: u32,
    from: int,
)
    requires
        0 <= from <= ancestors.len(),
    ensures
        first_ancestor_error(ancestors, effective_uid, from) is None <==> (forall|i: int|
            from <= i < ancestors.len() ==> ancestor_error(#[trigger] ancestors[i], effective_uid)
                is None),
    decreases ancestors.len() - from,
{
    if from < ancestors.len() {
        chain_from_is_trusted_when_every_ancestor_is(ancestors, effective_uid, from + 1);
        if ancestor_error(ancestors[from], effective_uid) is Some {
            assert(!(forall|i: int|
                from <= i < ancestors.len() ==> ancestor_error(
                    #[trigger] ancestors[i],
                    effective_uid,
                ) is None));
        }
    }
}

/// A runtime directory that was found, or made, trustworthy.
#[derive(Debug)]
pub struct TrustedRuntimeDir {
    path: String,
}

/// A runtime directory on its way to being trusted: the path is absolute, and
/// its ancestors are still to be looked at.
#[derive(Debug)]
pub struct RuntimeDirRequest {
    path: String,
}

/// A runtime directory on its way to being trusted: the ancestors are trusted,
/// and the path itself is still to be looked at.
#[derive(Debug)]
pub struct RuntimeDirCandidate {
    path: String,
}

/// A runtime directory that does not exist yet. It is to be made with one
/// `mkdir`, for its owner alone.
#[derive(Debug)]
pub struct FreshRuntimeDir {
    path: String,
}

/// What follows from looking at the runtime directory's own path.
#[derive(Debug)]
pub enum RuntimeDirNext {
    Ready(TrustedRuntimeDir),
    Create(FreshRuntimeDir),
}

/// The mode that a new runtime directory gets.
pub const FRESH_RUNTIME_DIR_MODE: u32 = 0o700;

impl TrustedRuntimeDir {
    /// The directory's path.
    pub closed spec fn path_text(&self) -> Seq<char> {
        self.path@
    }

    pub fn path(&self) -> (r: &str)
        ensures
            r@ == self.path_text(),
    {
        self.path.as_str()
    }

    /// Starts the validation of `path`. A relative path is refused before
    /// anything is looked at.
    pub fn validate_or_create(path: &str) -> (r: Result<RuntimeDirRequest, RuntimeDirError>)
        ensures
            match r {
                Ok(request) => is_absolute(path@) && request.path_text() == path@,
                Err(error) => !is_absolute(path@) && error@ == (
                RuntimeDirErrorView::RelativePath { path: path@ }),
            },
    {
        if path.unicode_len() > 0 && path.get_char(0) == '/' {
            Ok(RuntimeDirRequest { path: path.to_owned() })
        } else {
            Err(RuntimeDirError::RelativePath { path: path.to_owned() })
        }
    }
}

/// The path starts at the root.
pub open spec fn is_absolute(path: Seq<char>) -> bool {
    path.len() > 0 && path[0] == '/'
}

impl RuntimeDirRequest {
    pub closed spec fn path_text(&self) -> Seq<char> {
        self.path@
    }

    /// Holds the directories above the path to the rules; `ancestors` lists
    /// them, nearest first.
    pub fn with_ancestors(self, ancestors: &Vec<Ancestor>, effective_uid: u32) -> (r: Result<
        RuntimeDirCandidate,
        RuntimeDirError,
    >)
        ensures
            match r {
                Ok(candidate) => {
                    &&& first_ancestor_error(ancestors@, effective_uid, 0) is None
                    &&& candidate.path_text() == self.path_text()
                },
                Err(error) => first_ancestor_error(ancestors@, effective_uid, 0) == Some(error@),
            },
    {
        match ensure_trusted_ancestor(ancestors, effective_uid) {
            Ok(()) => Ok(RuntimeDirCandidate { path: self.path }),
            Err(error) => Err(error),
        }
    }
}

impl RuntimeDirCandidate {
    pub closed spec fn path_text(&self) -> Seq<char> {
        self.path@
    }

    /// Holds what stands at the path to the rules. An existing directory is
    /// accepted as it is or not at all; a missing one is to be created.
    pub fn with_target(self, target: TargetInspection, effective_uid: u32) -> (r: Result<
        RuntimeDirNext,
        RuntimeDirError,
    >)
        ensures
            match target {
                TargetInspection::Found(entry) => match r {
                    Ok(next) => {
                        &&& shape_error(self.path_text(), entry, effective_uid) is None
                        &&& next matches RuntimeDirNext::Ready(dir)
                        &&& dir.path_text() == self.path_text()
                    },
                    Err(error) => shape_error(self.path_text(), entry, effective_uid) == Some(
                        error@,
                    ),
                },
                TargetInspection::Missing => {
                    &&& r matches Ok(RuntimeDirNext::Create(fresh))
                    &&& fresh.path_text() == self.path_text()
                },
                TargetInspection::Failed(source) => {
                    &&& r matches Err(error)
                    &&& error@ == (RuntimeDirErrorView::Inspect {
                        path: self.path_text(),
                        source: source.message@,
                    })
                },
            },
    {
        match target {
            TargetInspection::Found(entry) => match validate_shape(
                self.path.as_str(),
                entry,
                effective_uid,
            ) {
                Ok(()) => Ok(RuntimeDirNext::Ready(TrustedRuntimeDir { path: self.path })),
                Err(error) => Err(error),
            },
            TargetInspection::Missing => Ok(
                RuntimeDirNext::Create(FreshRuntimeDir { path: self.path }),
            ),
            TargetInspection::Failed(source) => Err(
                RuntimeDirError::Inspect { path: self.path, source },
            ),
        }
    }
}

impl FreshRuntimeDir {
    pub closed spec fn path_text(&self) -> Seq<char> {
        self.path@
    }

    /// Concludes the creation: the directory is trusted once it was made and
    /// given [`FRESH_RUNTIME_DIR_MODE`].
    pub fn created(self, made: Result<(), IoFault>) -> (r: Result<
        TrustedRuntimeDir,
        RuntimeDirError,
    >)
        ensures
            match made {
                Ok(()) => r matches Ok(dir) && dir.path_text() == self.path_text(),
                Err(source) => r matches Err(error) && error@ == (RuntimeDirErrorView::Create {
                    path: self.path_text(),
                    source: source.message@,
                }),
            },
    {
        match made {
            Ok(()) => Ok(TrustedRuntimeDir { path: self.path }),
            Err(source) => Err(RuntimeDirError::Create { path: self.path, source }),
        }
    }
}

/// A directory made for its owner alone has the shape that an existing one must
/// have.
pub proof fn fresh_directory_has_the_required_shape(path: Seq<char>, effective_uid: u32)
    ensures
        shape_error(
            path,
            EntryFacts {
                kind: EntryKind::Directory,
                mode: FRESH_RUNTIME_DIR_MODE,
                owner_uid: effective_uid,
            },
            effective_uid,
        ) is None,
{
    assert(0o700u32 & 0o077 == 0) by (bit_vector);
}

/// Why the ownership lock was not acquired.
#[derive(Debug)]
pub enum LockError {
    AlreadyOwned { path: String },
    Open { path: String, source: IoFault },
    Acquire { path: String, source: IoFault },
}

/// [`LockError`] by the text it holds.
pub enum LockErrorView {
    AlreadyOwned { path: Seq<char> },
    Open { path: Seq<char>, source: Seq<char> },
    Acquire { path: Seq<char>, source: Seq<char> },
}

impl View for LockError {
    type V = LockErrorView;

    open spec fn view(&self) -> LockErrorView {
        match self {
            LockError::AlreadyOwned { path } => LockErrorView::AlreadyOwned { path: path@ },
            LockError::Open { path, source } => LockErrorView::Open {
                path: path@,
                source: source.message@,
            },
            LockError::Acquire { path, source } => LockErrorView::Acquire {
                path: path@,
                source: source.message@,
            },
        }
    }
}

/// How the non-blocking attempt to lock the lock file went. `F` is the open file,
/// which holds the lock for as long as it is kept.
#[derive(Debug)]
pub enum LockAttempt<F> {
    OpenFailed(IoFault),
    Locked(F),
    WouldBlock,
    LockFailed(IoFault),
}

/// `name` inside the directory `dir`.
pub open spec fn path_in(dir: Seq<char>, name: Seq<char>) -> Seq<char> {
    if dir.len() > 0 && dir.last() != '/' {
        dir + "/"@ + name
    } else {
        dir + name
    }
}

/// The path of the lock file inside `runtime_dir`.
pub fn lock_path(runtime_dir: &TrustedRuntimeDir) -> (r: String)
    ensures
        r@ == path_in(runtime_dir.path_text(), LOCK_FILE_NAME@),
{
    let mut path = runtime_dir.path.clone();
    let len: usize = path.as_str().unicode_len();
    if len > 0 && path.as_str().get_char(len - 1) != '/' {
        path.append("/");
    }
    path.append(LOCK_FILE_NAME);
    path
}

/// The ownership of a runtime directory, held for as long as the open file is.
#[derive(Debug)]
pub struct RuntimeOwnershipLock<F> {
    file: F,
    lock_path: String,
}

impl<F> RuntimeOwnershipLock<F> {
    pub closed spec fn file(&self) -> F {
        self.file
    }

    pub closed spec fn path_text(&self) -> Seq<char> {
        self.lock_path@
    }

    /// Decides whether this daemon is the owner. Someone else's lock means that
    /// a live daemon owns the directory already; nobody waits for it.
    pub fn acquire(runtime_dir: &TrustedRuntimeDir, attempt: LockAttempt<F>) -> (r: Result<
        RuntimeOwnershipLock<F>,
        LockError,
    >)
        ensures
            ({
                let path = path_in(runtime_dir.path_text(), LOCK_FILE_NAME@);
                match attempt {
                    LockAttempt::Locked(file) => r matches Ok(lock) && lock.file() == file
                        && lock.path_text() == path,
                    LockAttempt::WouldBlock => r matches Err(error) && error@
                        == (LockErrorView::AlreadyOwned { path }),
                    LockAttempt::OpenFailed(source) => r matches Err(error) && error@
                        == (LockErrorView::Open { path, source: source.message@ }),
                    LockAttempt::LockFailed(source) => r matches Err(error) && error@
                        == (LockErrorView::Acquire { path, source: source.message@ }),
                }
            }),
    {
        let lock_path = lock_path(runtime_dir);
        match attempt {
            LockAttempt::Locked(file) => Ok(RuntimeOwnershipLock { file, lock_path }),
            LockAttempt::WouldBlock => Err(LockError::AlreadyOwned { path: lock_path }),
            LockAttempt::OpenFailed(source) => Err(LockError::Open { path: lock_path, source }),
            LockAttempt::LockFailed(source) => Err(
                LockError::Acquire { path: lock_path, source },
            ),
        }
    }

    /// The path of the lock file.
    pub fn path(&self) -> (r: &str)
        ensures
            r@ == self.path_text(),
    {
        self.lock_path.as_str()
    }

    /// Lets the ownership go: the file is handed back, to be closed.
    pub fn release(self) -> (r: F)
        ensures
            r == self.file(),
    {
        self.file
    }
}

impl RuntimeDirErrorView {
    /// The error's wording.
    pub open spec fn text(self) -> Seq<char> {
        match self {
            RuntimeDirErrorView::RelativePath { path } => path
                + " must be an absolute path for the trusted runtime-directory boundary"@,
            RuntimeDirErrorView::Symlink { path } => path + " is a symlink, not a real directory"@,
            RuntimeDirErrorView::NotADirectory { path } => path + " is not a directory"@,
            RuntimeDirErrorView::InsecureMode { path } => path
                + " grants group/other permissions; expected owner-only (0700)"@,
            RuntimeDirErrorView::WrongOwner { path, expected, actual } => path
                + " is owned by uid "@ + text::decimal_text(actual as nat)
                + ", not the effective uid "@ + text::decimal_text(expected as nat)
                + " running bamepd"@,
            RuntimeDirErrorView::UnsafeAncestor { path, reason } =>
                "refusing untrusted ancestor directory "@ + path + ": "@ + reason,
            RuntimeDirErrorView::Create { path, .. } =>
                "failed to create trusted runtime directory "@ + path,
            RuntimeDirErrorView::Inspect { path, .. } => "failed to inspect "@ + path,
        }
    }
}

fn with_text(first: &str, second: &str) -> (r: String)
    ensures
        r@ == first@ + second@,
{
    let mut text = first.to_owned();
    text.append(second);
    text
}

impl RuntimeDirError {
    /// The error's wording.
    pub fn message(&self) -> (r: String)
        ensures
            r@ == self@.text(),
    {
        match self {
            RuntimeDirError::RelativePath { path } => with_text(
                path.as_str(),
                " must be an absolute path for the trusted runtime-directory boundary",
            ),
            RuntimeDirError::Symlink { path } => with_text(
                path.as_str(),
                " is a symlink, not a real directory",
            ),
            RuntimeDirError::NotADirectory { path } => with_text(
                path.as_str(),
                " is not a directory",
            ),
            RuntimeDirError::InsecureMode { path } => with_text(
                path.as_str(),
                " grants group/other permissions; expected owner-only (0700)",
            ),
            RuntimeDirError::WrongOwner { path, expected, actual } => {
                let mut message = with_text(path.as_str(), " is owned by uid ");
                message.append(decimal(*actual as u64).as_str());
                message.append(", not the effective uid ");
                message.append(decimal(*expected as u64).as_str());
                message.append(" running bamepd");
                message
            },
            RuntimeDirError::UnsafeAncestor { path, reason } => {
                let mut message = with_text(
                    "refusing untrusted ancestor directory ",
                    path.as_str(),
                );
                message.append(": ");
                message.append(reason.as_str());
                message
            },
            RuntimeDirError::Create { path, .. } => with_text(
                "failed to create trusted runtime directory ",
                path.as_str(),
            ),
            RuntimeDirError::Inspect { path, .. } => with_text(
                "failed to inspect ",
                path.as_str(),
            ),
        }
    }
}

impl LockErrorView {
    /// The error's wording.
    pub open spec fn text(self) -> Seq<char> {
        match self {
            LockErrorView::AlreadyOwned { path } =>
                "another live bamepd instance already owns the Worker control boundary lock at "@
                + path,
            LockErrorView::Open { path, .. } => "failed to open the ownership lock file "@ + path,
            LockErrorView::Acquire { path, .. } => "failed to acquire the ownership lock at "@
                + path,
        }
    }
}

impl LockError {
    /// The error's wording.
    pub fn message(&self) -> (r: String)
        ensures
            r@ == self@.text(),
    {
        match self {
            LockError::AlreadyOwned { path } => with_text(
                "another live bamepd instance already owns the Worker control boundary lock at ",
                path.as_str(),
            ),
            LockError::Open { path, .. } => with_text(
                "failed to open the ownership lock file ",
                path.as_str(),
            ),
            LockError::Acquire { path, .. } => with_text(
                "failed to acquire the ownership lock at ",
                path.as_str(),
            ),
        }
    }
}

/// A mode is the owner's alone exactly where none of the six bits of group and other is
/// set.
pub proof fn owner_only_means_no_bit_for_others(mode: u32, r: bool)
    requires
        call_ensures(mode_is_owner_only, (mode,), r),
    ensures
        r <==> mode & 0o040 == 0 && mode & 0o020 == 0 && mode & 0o010 == 0 && mode & 0o004 == 0
            && mode & 0o002 == 0 && mode & 0o001 == 0,
{
    assert(mode & 0o077 == 0 <==> mode & 0o040 == 0 && mode & 0o020 == 0 && mode & 0o010 == 0
        && mode & 0o004 == 0 && mode & 0o002 == 0 && mode & 0o001 == 0) by (bit_vector);
}

/// A directory above is trusted exactly where it is root's or the daemon's, and neither
/// group nor other may write to it unless the sticky bit is set.
pub proof fn ancestor_is_trusted_by_owner_and_bits(
    mode: u32,
    owner_uid: u32,
    effective_uid: u32,
    r: bool,
)
    requires
        call_ensures(ancestor_is_trusted, (mode, owner_uid, effective_uid), r),
    ensures
        r <==> (owner_uid == 0 || owner_uid == effective_uid) && ((mode & 0o020 == 0 && mode & 0o002
            == 0) || mode & 0o1000 != 0),
{
    assert(mode & 0o022 == 0 <==> mode & 0o020 == 0 && mode & 0o002 == 0) by (bit_vector);
}

/// Only an absolute path is looked into, and under its own name.
pub proof fn only_an_absolute_path_is_looked_into(
    path: &str,
    r: Result<RuntimeDirRequest, RuntimeDirError>,
)
    requires
        call_ensures(TrustedRuntimeDir::validate_or_create, (path,), r),
    ensures
        r is Ok <==> path@.len() > 0 && path@[0] == '/',
        r matches Err(error) ==> (error matches RuntimeDirError::RelativePath { path: at } && at@
            == path@),
{
}

/// Where one directory of the chain is not trusted, the first such one is told.
proof fn first_untrusted_is_told(ancestors: Seq<Ancestor>, effective_uid: u32, from: int) -> (at:
    int)
    requires
        0 <= from,
        first_ancestor_error(ancestors, effective_uid, from) is Some,
    ensures
        from <= at < ancestors.len(),
        ancestor_error(ancestors[at], effective_uid) == first_ancestor_error(
            ancestors,
            effective_uid,
            from,
        ),
        forall|i: int|
            from <= i < at ==> ancestor_error(#[trigger] ancestors[i], effective_uid) is None,
    decreases ancestors.len() - from,
{
    if ancestor_error(ancestors[from], effective_uid) is Some {
        from
    } else {
        first_untrusted_is_told(ancestors, effective_uid, from + 1)
    }
}

/// The chain above the directory is trusted exactly where each directory in it is a real
/// one, of root or of the daemon, that nobody else may write to unless the sticky bit is
/// set.
pub proof fn every_ancestor_has_to_be_trusted(
    request: RuntimeDirRequest,
    ancestors: Vec<Ancestor>,
    effective_uid: u32,
    r: Result<RuntimeDirCandidate, RuntimeDirError>,
)
    requires
        call_ensures(
            RuntimeDirRequest::with_ancestors,
            (request, &ancestors, effective_uid),
            r,
        ),
    ensures
        r is Ok ==> forall|i: int|
            0 <= i < ancestors@.len() ==> (#[trigger] ancestors@[i]).path@ == ""@ || (
            ancestors@[i].inspected is Ok && ancestors@[i].inspected->Ok_0.kind is Directory && (
            ancestors@[i].inspected->Ok_0.owner_uid == 0 || ancestors@[i].inspected->Ok_0.owner_uid
                == effective_uid) && (ancestors@[i].inspected->Ok_0.mode & 0o022 == 0
                || ancestors@[i].inspected->Ok_0.mode & 0o1000 != 0)),
        r is Err ==> exists|i: int|
            0 <= i < ancestors@.len() && (#[trigger] ancestors@[i]).path@ != ""@ && (
            ancestors@[i].inspected is Err || ancestors@[i].inspected->Ok_0.kind !is Directory || (
            ancestors@[i].inspected->Ok_0.owner_uid != 0 && ancestors@[i].inspected->Ok_0.owner_uid
                != effective_uid) || (ancestors@[i].inspected->Ok_0.mode & 0o022 != 0
                && ancestors@[i].inspected->Ok_0.mode & 0o1000 == 0)) && (r->Err_0
                matches RuntimeDirError::UnsafeAncestor { path, reason } ==> path@
                == ancestors@[i].path@) && (r->Err_0 matches RuntimeDirError::Inspect { path, source }
                ==> path@ == ancestors@[i].path@ && ancestors@[i].inspected is Err
                && source.message@ == ancestors@[i].inspected->Err_0.message@) && (r->Err_0
                is UnsafeAncestor <==> ancestors@[i].inspected is Ok) && (r->Err_0 is Inspect
                <==> ancestors@[i].inspected is Err),
{
    chain_is_trusted_when_every_ancestor_is(ancestors@, effective_uid);
    if r is Err {
        let at = first_untrusted_is_told(ancestors@, effective_uid, 0);
        assert(ancestors@[at].path@ != ""@);
    }
}

/// What stands at the path is trusted as it is exactly where it is a real directory, the
/// owner's alone and the daemon's own; kind is looked at first, then mode, then owner. A
/// missing one is made.
pub proof fn target_is_trusted_as_it_is_or_made(
    candidate: RuntimeDirCandidate,
    target: TargetInspection,
    effective_uid: u32,
    r: Result<RuntimeDirNext, RuntimeDirError>,
)
    requires
        call_ensures(RuntimeDirCandidate::with_target, (candidate, target, effective_uid), r),
    ensures
        target is Missing <==> r is Ok && r->Ok_0 is Create,
        target matches TargetInspection::Found(entry) ==> {
            &&& r is Ok <==> entry.kind is Directory && entry.mode & 0o077 == 0 && entry.owner_uid
                == effective_uid
            &&& entry.kind is Symlink ==> r is Err && r->Err_0 is Symlink
            &&& entry.kind is Other ==> r is Err && r->Err_0 is NotADirectory
            &&& entry.kind is Directory && entry.mode & 0o077 != 0 ==> r is Err && r->Err_0
                is InsecureMode
            &&& entry.kind is Directory && entry.mode & 0o077 == 0 && entry.owner_uid
                != effective_uid ==> r is Err && (r->Err_0 matches RuntimeDirError::WrongOwner {
                path,
                expected,
                actual,
            } && expected == effective_uid && actual == entry.owner_uid)
        },
        target matches TargetInspection::Failed(fault) ==> r is Err && (r->Err_0
            matches RuntimeDirError::Inspect { path, source } && source.message@
            == fault.message@),
{
}

/// A trusted directory is the very path that was asked for, whether it was found or
/// made, and its lock is in it.
pub proof fn trusted_directory_is_the_one_asked_for(
    path: &str,
    request: RuntimeDirRequest,
    ancestors: Vec<Ancestor>,
    effective_uid: u32,
    candidate: RuntimeDirCandidate,
    target: TargetInspection,
    next: RuntimeDirNext,
    made: Result<(), IoFault>,
    created: Result<TrustedRuntimeDir, RuntimeDirError>,
    name: &str,
    lock: String,
)
    requires
        call_ensures(TrustedRuntimeDir::validate_or_create, (path,), Ok(request)),
        call_ensures(
            RuntimeDirRequest::with_ancestors,
            (request, &ancestors, effective_uid),
            Ok(candidate),
        ),
        call_ensures(
            RuntimeDirCandidate::with_target,
            (candidate, target, effective_uid),
            Ok(next),
        ),
        next matches RuntimeDirNext::Create(fresh) ==> call_ensures(
            FreshRuntimeDir::created,
            (fresh, made),
            created,
        ),
        next matches RuntimeDirNext::Ready(dir) ==> call_ensures(
            TrustedRuntimeDir::path,
            (&dir,),
            name,
        ) && call_ensures(lock_path, (&dir,), lock),
        next is Create ==> (created matches Ok(dir) ==> call_ensures(
            TrustedRuntimeDir::path,
            (&dir,),
            name,
        ) && call_ensures(lock_path, (&dir,), lock)),
    ensures
        next is Ready ==> name@ == path@,
        next is Create ==> (created is Ok <==> made is Ok),
        next is Create && made is Ok ==> name@ == path@,
        next is Create && made is Err ==> (created->Err_0 matches RuntimeDirError::Create {
            path: at,
            source,
        } && at@ == path@ && source.message@ == made->Err_0.message@),
        (next is Ready || made is Ok) && path@.last() != '/' ==> lock@ == path@ + "/"@
            + "bamepd.lock"@,
        (next is Ready || made is Ok) && path@.last() == '/' ==> lock@ == path@ + "bamepd.lock"@,
{
}

/// The daemon owns the directory exactly where it locked the lock file, which it keeps
/// open until it lets go; what kept it from it is told, with the lock's path.
pub proof fn ownership_is_the_lock<F>(
    runtime_dir: TrustedRuntimeDir,
    attempt: LockAttempt<F>,
    r: Result<RuntimeOwnershipLock<F>, LockError>,
    path: String,
    released: F,
    name: &str,
)
    requires
        call_ensures(RuntimeOwnershipLock::<F>::acquire, (&runtime_dir, attempt), r),
        call_ensures(lock_path, (&runtime_dir,), path),
        r matches Ok(lock) ==> call_ensures(RuntimeOwnershipLock::<F>::release, (lock,), released)
            && call_ensures(RuntimeOwnershipLock::<F>::path, (&lock,), name),
    ensures
        r is Ok <==> attempt is Locked,
        attempt matches LockAttempt::Locked(file) ==> released == file && name@ == path@,
        attempt is WouldBlock ==> (r->Err_0 matches LockError::AlreadyOwned { path: at } && at@
            == path@),
        attempt matches LockAttempt::OpenFailed(fault) ==> (r->Err_0 matches LockError::Open {
            path: at,
            source,
        } && at@ == path@ && source.message@ == fault.message@),
        attempt matches LockAttempt::LockFailed(fault) ==> (r->Err_0 matches LockError::Acquire {
            path: at,
            source,
        } && at@ == path@ && source.message@ == fault.message@),
{
}

/// What is wrong with a runtime directory is worded by what it is, and names the path.
pub proof fn directory_errors_are_worded_by_what_they_are(error: RuntimeDirError, r: String)
    requires
        call_ensures(RuntimeDirError::message, (&error,), r),
    ensures
        error matches RuntimeDirError::RelativePath { path } ==> r@ == path@
            + " must be an absolute path for the trusted runtime-directory boundary"@,
        error matches RuntimeDirError::Symlink { path } ==> r@ == path@
            + " is a symlink, not a real directory"@,
        error matches RuntimeDirError::NotADirectory { path } ==> r@ == path@
            + " is not a directory"@,
        error matches RuntimeDirError::InsecureMode { path } ==> r@ == path@
            + " grants group/other permissions; expected owner-only (0700)"@,
        error matches RuntimeDirError::WrongOwner { path, expected, actual } ==> r@ == path@
            + " is owned by uid "@ + text::decimal_text(actual as nat)
            + ", not the effective uid "@ + text::decimal_text(expected as nat)
            + " running bamepd"@,
        error matches RuntimeDirError::UnsafeAncestor { path, reason } ==> r@
            == "refusing untrusted ancestor directory "@ + path@ + ": "@ + reason@,
        error matches RuntimeDirError::Create { path, source } ==> r@
            == "failed to create trusted runtime directory "@ + path@,
        error matches RuntimeDirError::Inspect { path, source } ==> r@ == "failed to inspect "@
            + path@,
{
}

/// What kept the daemon from the lock is worded by what it is, and names the path.
pub proof fn lock_errors_are_worded_by_what_they_are(error: LockError, r: String)
    requires
        call_ensures(LockError::message, (&error,), r),
    ensures
        error matches LockError::AlreadyOwned { path } ==> r@
            == "another live bamepd instance already owns the Worker control boundary lock at "@
            + path@,
        error matches LockError::Open { path, source } ==> r@
            == "failed to open the ownership lock file "@ + path@,
        error matches LockError::Acquire { path, source } ==> r@
            == "failed to acquire the ownership lock at "@ + path@,
{
}

/// Of the directories above the runtime directory the first that is not trusted is
/// told, by its path and by what is wrong with it.
pub proof fn first_untrusted_ancestor_is_told(
    request: RuntimeDirRequest,
    ancestors: Vec<Ancestor>,
    effective_uid: u32,
    nth: int,
    r: Result<RuntimeDirCandidate, RuntimeDirError>,
)
    requires
        call_ensures(
            RuntimeDirRequest::with_ancestors,
            (request, &ancestors, effective_uid),
            r,
        ),
        0 <= nth < ancestors@.len(),
        ancestors@[nth].path@ != ""@,
        forall|i: int|
            0 <= i < nth ==> (#[trigger] ancestors@[i]).path@ == ""@ || (ancestors@[i].inspected
                matches Ok(entry) && entry.kind is Directory && (entry.owner_uid == 0
                || entry.owner_uid == effective_uid) && (entry.mode & 0o022 == 0 || entry.mode
                & 0o1000 != 0)),
    ensures
        ancestors@[nth].inspected matches Err(fault) ==> r is Err && (r->Err_0
            matches RuntimeDirError::Inspect { path, source } && path@ == ancestors@[nth].path@
            && source.message@ == fault.message@),
        ancestors@[nth].inspected matches Ok(entry) && entry.kind is Symlink ==> r is Err && (
        r->Err_0 matches RuntimeDirError::UnsafeAncestor { path, reason } && path@
            == ancestors@[nth].path@ && reason@
            == "ancestor path is a symlink, not a real directory"@),
        ancestors@[nth].inspected matches Ok(entry) && entry.kind is Other ==> r is Err && (
        r->Err_0 matches RuntimeDirError::UnsafeAncestor { path, reason } && path@
            == ancestors@[nth].path@ && reason@ == "ancestor path is not a directory"@),
        ancestors@[nth].inspected matches Ok(entry) && entry.kind is Directory && ((entry.owner_uid
            != 0 && entry.owner_uid != effective_uid) || (entry.mode & 0o022 != 0 && entry.mode
            & 0o1000 == 0)) ==> r is Err && (r->Err_0 matches RuntimeDirError::UnsafeAncestor {
            path,
            reason,
        } && path@ == ancestors@[nth].path@ && reason@
            == "ancestor directory can be replaced by an untrusted principal (owned by neither root nor the effective uid running bamepd, or group/other-writable without the sticky bit)"@),
{
    assert forall|i: int| 0 <= i < nth implies ancestor_error(
        #[trigger] ancestors@[i],
        effective_uid,
    ) is None by {}
    chain_is_trusted_when_every_ancestor_is(ancestors@, effective_uid);
    if ancestor_error(ancestors@[nth], effective_uid) is Some {
        let at = first_untrusted_is_told(ancestors@, effective_uid, 0);
        assert(at == nth);
    }
}

/// A path that is refused is told as the one that was asked for, whatever is wrong with
/// it.
pub proof fn refused_path_is_told(
    path: &str,
    requested: Result<RuntimeDirRequest, RuntimeDirError>,
    ancestors: Vec<Ancestor>,
    candidate: RuntimeDirCandidate,
    target: TargetInspection,
    effective_uid: u32,
    r: Result<RuntimeDirNext, RuntimeDirError>,
)
    requires
        call_ensures(TrustedRuntimeDir::validate_or_create, (path,), requested),
        requested matches Ok(request) ==> call_ensures(
            RuntimeDirRequest::with_ancestors,
            (request, &ancestors, effective_uid),
            Ok(candidate),
        ) && call_ensures(RuntimeDirCandidate::with_target, (candidate, target, effective_uid), r),
    ensures
        requested matches Err(error) ==> (error matches RuntimeDirError::RelativePath { path: at }
            && at@ == path@),
        requested is Ok ==> (r matches Err(error) ==> match error {
            RuntimeDirError::Symlink { path: at } => at@ == path@,
            RuntimeDirError::NotADirectory { path: at } => at@ == path@,
            RuntimeDirError::InsecureMode { path: at } => at@ == path@,
            RuntimeDirError::WrongOwner { path: at, .. } => at@ == path@,
            RuntimeDirError::Inspect { path: at, .. } => at@ == path@,
            _ => false,
        }),
{
}

} // verus!
