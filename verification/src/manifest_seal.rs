//! Sealing a manifest: one request that is authorized and committed together.
//!
//! The capability and its proof are looked at first. Whatever can change in the
//! meantime is looked at under the transfer's lock, in the same transaction that
//! sets the seal.

use vstd::prelude::*;
use std::sync::Arc;
use crate::authorization::{
    self, is_durably_authorized, AuthorizationDurableState, AuthorizationOperation,
    CapabilityBinding, RuledProof, WorkerAuthorizationQueryInput,
};
use crate::clock::{deadline_from_millis, SystemClock, Timestamp};
use crate::errors::{ApplicationError, RepositoryError};
use crate::ids::{ArtifactId, TransferId};
use crate::model::{
    Artifact, ArtifactState, ChunkManifest, CredentialChain, CredentialDimension, Digest,
    DigestAlgorithm,
};

verus! {

/// What a request to seal carries.
#[derive(Debug)]
pub struct ManifestSealInput {
    pub token: String,
    pub transfer_id: u128,
    pub proof_id: String,
    pub issued_at_millis: u64,
    pub signature: String,
    pub chunk_count: u64,
    pub artifact_digest: String,
}

/// What is durable about a sealed manifest.
#[derive(Debug)]
pub struct SealedFacts {
    pub artifact_id: ArtifactId,
    pub digest_algorithm: DigestAlgorithm,
    pub chunk_size: u32,
    pub chunk_count: u64,
    pub expected_artifact_digest: String,
}

/// What became of a seal.
#[derive(Debug)]
pub enum ManifestSealCommit {
    Sealed(SealedFacts),
    /// The very seal was set before, and verification is still to come.
    AlreadyPending(SealedFacts),
    RejectedIncomplete,
    RejectedAlreadySealed,
    Denied,
    /// Nothing at all.
    FailClosed,
}

/// What is to be done about a seal.
#[derive(Debug)]
pub enum ManifestSealDecided {
    Seal { chunk_count: u32, artifact_digest: Digest },
    AlreadyPending,
    RejectIncomplete,
    RejectAlreadySealed,
    Denied,
    FailClosed,
}

/// How the manifest took a seal.
#[derive(Debug)]
pub enum SealOutcome {
    Sealed(ChunkManifest),
    AlreadySealed,
}

/// Why the manifest did not take a seal.
#[derive(Clone, Copy, Debug, PartialEq, Eq, Structural)]
pub enum SealError {
    IncompleteChunkSet,
    NonContiguousIndices,
    ConflictingReseal,
    InvalidDigestLength,
}

/// Why an artifact did not move to another state.
#[derive(Clone, Copy, Debug, PartialEq, Eq, Structural)]
pub enum ArtifactTransitionError {
    NotIncomplete,
    NotPendingVerification,
    ManifestNotSealed,
    ManifestMismatch,
    IncompleteChunks,
}

/// The first step of a seal.
#[derive(Debug)]
pub enum ManifestSealStep {
    /// To be decided under the transfer's lock.
    Commit(SealRequest),
    Done(ManifestSealCommit),
}

/// Why a seal was not committed.
#[derive(Debug)]
pub enum CommitManifestSealError {
    TransferNotFound(TransferId),
    Repository(RepositoryError),
}

/// What the durable record says to a seal before its proof is marked as used.
#[derive(Debug)]
pub enum SealCheck {
    /// In order; the proof's first use is to be recorded now.
    CheckReplay { digest: Digest },
    Denied,
    FailClosed,
}

/// Holds a seal against the durable record. `fits` is the ruling on whether a
/// seal fits the artifact's state; `digest` is the declared digest, where it
/// could be read by the manifest's algorithm. Only a seal that passes goes on to
/// the replay check, so that neither a denied nor a malformed one uses up its
/// proof.
pub fn check_manifest_seal(
    binding: &CapabilityBinding,
    state: &AuthorizationDurableState,
    credential: CredentialDimension,
    fits: bool,
    digest: Option<Digest>,
) -> (r: SealCheck)
    ensures
        if !authorization::durably_authorized(*binding, *state, credential) || !fits {
            r is Denied
        } else {
            match digest {
                None => r is FailClosed,
                Some(digest) => r == (SealCheck::CheckReplay { digest }),
            }
        },
{
    if !is_durably_authorized(binding, state, credential) {
        return SealCheck::Denied;
    }
    if !fits {
        return SealCheck::Denied;
    }
    match digest {
        Some(digest) => SealCheck::CheckReplay { digest },
        None => SealCheck::FailClosed,
    }
}

/// What an artifact that is still incomplete makes of the manifest's answer, and
/// of the artifact's own answer once the manifest could be sealed.
pub open spec fn fresh_seal_follows<
    B: FnOnce(&Artifact, &ChunkManifest, &Vec<u32>) -> Result<Artifact, ArtifactTransitionError>,
>(
    decided: ManifestSealDecided,
    state: AuthorizationDurableState,
    chunk_count: u32,
    digest: Digest,
    sealed: Result<SealOutcome, SealError>,
    begin: B,
) -> bool {
    match sealed {
        Ok(SealOutcome::Sealed(manifest)) => exists|begun: Result<
            Artifact,
            ArtifactTransitionError,
        >| #[trigger]
            call_ensures(begin, (&state.artifact, &manifest, &state.held_chunk_indices), begun)
                && match begun {
                Ok(_) => decided == (ManifestSealDecided::Seal {
                    chunk_count,
                    artifact_digest: digest,
                }),
                Err(ArtifactTransitionError::IncompleteChunks) => decided is RejectIncomplete,
                Err(_) => decided is FailClosed,
            },
        Err(SealError::IncompleteChunkSet) | Err(SealError::NonContiguousIndices) => decided
            is RejectIncomplete,
        Ok(SealOutcome::AlreadySealed) | Err(_) => decided is FailClosed,
    }
}

/// What an artifact that awaits verification makes of the manifest's answer: the
/// same seal again is confirmed, another one is rejected.
pub open spec fn repeated_seal_follows(
    decided: ManifestSealDecided,
    sealed: Result<SealOutcome, SealError>,
) -> bool {
    match sealed {
        Ok(SealOutcome::AlreadySealed) => decided is AlreadyPending,
        Err(SealError::ConflictingReseal) => decided is RejectAlreadySealed,
        Ok(SealOutcome::Sealed(_)) | Err(_) => decided is FailClosed,
    }
}

/// What becomes of a seal whose proof was not used before. The manifest is asked
/// only where its seal and the artifact's state belong together.
pub open spec fn seal_follows<
    S: FnOnce(&ChunkManifest, u32, &Digest) -> Result<SealOutcome, SealError>,
    B: FnOnce(&Artifact, &ChunkManifest, &Vec<u32>) -> Result<Artifact, ArtifactTransitionError>,
>(
    decided: ManifestSealDecided,
    state: AuthorizationDurableState,
    chunk_count: u32,
    digest: Digest,
    seal: S,
    begin: B,
) -> bool {
    match state.artifact.state {
        ArtifactState::Incomplete => if state.manifest.sealed {
            decided is FailClosed
        } else {
            exists|sealed: Result<SealOutcome, SealError>| #[trigger]
                call_ensures(seal, (&state.manifest, chunk_count, &digest), sealed)
                    && fresh_seal_follows(decided, state, chunk_count, digest, sealed, begin)
        },
        ArtifactState::PendingVerification => if !state.manifest.sealed {
            decided is FailClosed
        } else {
            exists|sealed: Result<SealOutcome, SealError>| #[trigger]
                call_ensures(seal, (&state.manifest, chunk_count, &digest), sealed)
                    && repeated_seal_follows(decided, sealed)
        },
        ArtifactState::Verified | ArtifactState::Failed => decided is Denied,
    }
}

/// Decides about a seal that passed every check, once its proof's first use was
/// recorded or found to be none. `seal` asks the manifest to take the seal;
/// `begin` asks the artifact to move on to verification with the sealed manifest
/// and the chunks that are held.
pub fn conclude_manifest_seal<
    S: FnOnce(&ChunkManifest, u32, &Digest) -> Result<SealOutcome, SealError>,
    B: FnOnce(&Artifact, &ChunkManifest, &Vec<u32>) -> Result<Artifact, ArtifactTransitionError>,
>(
    state: &AuthorizationDurableState,
    chunk_count: u32,
    digest: Digest,
    first_use: bool,
    seal: S,
    begin: B,
) -> (r: ManifestSealDecided)
    requires
        call_requires(seal, (&state.manifest, chunk_count, &digest)),
        forall|manifest: ChunkManifest| #[trigger]
            call_requires(begin, (&state.artifact, &manifest, &state.held_chunk_indices)),
    ensures
        !first_use ==> r is Denied,
        first_use ==> seal_follows(r, *state, chunk_count, digest, seal, begin),
{
    if !first_use {
        return ManifestSealDecided::Denied;
    }
    match state.artifact.state {
        ArtifactState::Incomplete => {
            if state.manifest.sealed {
                return ManifestSealDecided::FailClosed;
            }
            let sealed = seal(&state.manifest, chunk_count, &digest);
            match sealed {
                Ok(SealOutcome::Sealed(manifest)) => {
                    let begun = begin(&state.artifact, &manifest, &state.held_chunk_indices);
                    match begun {
                        Ok(_) => ManifestSealDecided::Seal { chunk_count, artifact_digest: digest },
                        Err(ArtifactTransitionError::IncompleteChunks) =>
                            ManifestSealDecided::RejectIncomplete,
                        Err(_) => ManifestSealDecided::FailClosed,
                    }
                },
                Err(SealError::IncompleteChunkSet) | Err(SealError::NonContiguousIndices) =>
                    ManifestSealDecided::RejectIncomplete,
                Ok(SealOutcome::AlreadySealed) | Err(_) => ManifestSealDecided::FailClosed,
            }
        },
        ArtifactState::PendingVerification => {
            if !state.manifest.sealed {
                return ManifestSealDecided::FailClosed;
            }
            let sealed = seal(&state.manifest, chunk_count, &digest);
            match sealed {
                Ok(SealOutcome::AlreadySealed) => ManifestSealDecided::AlreadyPending,
                Err(SealError::ConflictingReseal) => ManifestSealDecided::RejectAlreadySealed,
                Ok(SealOutcome::Sealed(_)) | Err(_) => ManifestSealDecided::FailClosed,
            }
        },
        ArtifactState::Verified | ArtifactState::Failed => ManifestSealDecided::Denied,
    }
}

/// What is ruled on for a seal's capability and proof: a seal, of no chunk in
/// particular.
pub fn seal_query_input(input: &ManifestSealInput) -> (r: WorkerAuthorizationQueryInput)
    ensures
        r.token@ == input.token@,
        r.operation is SealManifest,
        r.transfer_id == input.transfer_id,
        r.chunk_index is None,
        r.proof_id@ == input.proof_id@,
        r.issued_at_millis == input.issued_at_millis,
        r.signature@ == input.signature@,
{
    WorkerAuthorizationQueryInput {
        token: input.token.clone(),
        operation: AuthorizationOperation::SealManifest,
        transfer_id: input.transfer_id,
        chunk_index: None,
        proof_id: input.proof_id.clone(),
        issued_at_millis: input.issued_at_millis,
        signature: input.signature.clone(),
    }
}

/// What is decided about a seal under the transfer's lock, by the rulings on the
/// credential, on whether a seal fits, and on the declared digest. Only a seal that
/// is authorized and well formed has its proof recorded as used: under the proof's
/// identity, at this moment, and for as long as `deadline` says.
pub open spec fn seal_decided<
    L: FnOnce(u64) -> i128,
    U: FnOnce(&Vec<u8>, Timestamp, Timestamp) -> bool,
    S: FnOnce(&ChunkManifest, u32, &Digest) -> Result<SealOutcome, SealError>,
    B: FnOnce(&Artifact, &ChunkManifest, &Vec<u32>) -> Result<Artifact, ArtifactTransitionError>,
>(
    decided: ManifestSealDecided,
    request: SealRequest,
    state: AuthorizationDurableState,
    now: Timestamp,
    credential: CredentialDimension,
    fits: bool,
    digest: Option<Digest>,
    deadline: L,
    first_use: U,
    seal: S,
    begin: B,
) -> bool {
    if !authorization::durably_authorized(request.binding, state, credential) || !fits {
        decided is Denied
    } else {
        match digest {
            None => decided is FailClosed,
            Some(declared) => exists|millis: i128, valid_until: Timestamp, first: bool|
                authorization::is_deadline(valid_until, millis) && #[trigger] call_ensures(
                    deadline,
                    (request.issued_at_millis,),
                    millis,
                ) && #[trigger] call_ensures(
                    first_use,
                    (&request.proof_id, now, valid_until),
                    first,
                ) && (if first {
                    seal_follows(decided, state, request.chunk_count, declared, seal, begin)
                } else {
                    decided is Denied
                }),
        }
    }
}

/// A seal whose capability and proof hold, on its way to the transfer's lock.
#[derive(Debug)]
pub struct SealRequest {
    pub binding: CapabilityBinding,
    pub proof_id: Vec<u8>,
    pub issued_at_millis: u64,
    pub chunk_count: u32,
    /// The declared digest of the whole, as it was sent.
    pub artifact_digest: String,
}

/// Decides about a seal under the transfer's lock. `dimension` rules on the
/// endpoint's locked credential at this moment; `current` on whether a seal fits
/// the locked artifact and manifest; `read` reads the declared digest by the
/// manifest's own algorithm. `first_use` records the proof as used and says whether
/// it was not used before; it may be asked only about a seal that is authorized and
/// well formed, so a refused one leaves its proof unused.
pub fn decide_manifest_seal<
    D: FnOnce(&CredentialChain, Timestamp) -> CredentialDimension,
    O: FnOnce(AuthorizationOperation, ArtifactState, bool, bool) -> bool,
    G: FnOnce(DigestAlgorithm, &String) -> Option<Digest>,
    L: FnOnce(u64) -> i128,
    U: FnOnce(&Vec<u8>, Timestamp, Timestamp) -> bool,
    S: FnOnce(&ChunkManifest, u32, &Digest) -> Result<SealOutcome, SealError>,
    B: FnOnce(&Artifact, &ChunkManifest, &Vec<u32>) -> Result<Artifact, ArtifactTransitionError>,
>(
    request: &SealRequest,
    state: &AuthorizationDurableState,
    now: Timestamp,
    dimension: D,
    current: O,
    read: G,
    deadline: L,
    first_use: U,
    seal: S,
    begin: B,
) -> (r: ManifestSealDecided)
    requires
        call_requires(dimension, (&state.endpoint.credential, now)),
        call_requires(
            current,
            (
                AuthorizationOperation::SealManifest,
                state.artifact.state,
                state.manifest.sealed,
                false,
            ),
        ),
        call_requires(read, (state.manifest.digest_algorithm, &request.artifact_digest)),
        call_requires(deadline, (request.issued_at_millis,)),
        forall|
            credential: CredentialDimension,
            fits: bool,
            digest: Option<Digest>,
            valid_until: Timestamp,
        |
            #![trigger
                call_ensures(dimension, (&state.endpoint.credential, now), credential),
                call_ensures(
                    current,
                    (
                        AuthorizationOperation::SealManifest,
                        state.artifact.state,
                        state.manifest.sealed,
                        false,
                    ),
                    fits,
                ),
                call_ensures(
                    read,
                    (state.manifest.digest_algorithm, &request.artifact_digest),
                    digest,
                ),
                call_requires(first_use, (&request.proof_id, now, valid_until))]
            call_ensures(dimension, (&state.endpoint.credential, now), credential) && call_ensures(
                current,
                (
                    AuthorizationOperation::SealManifest,
                    state.artifact.state,
                    state.manifest.sealed,
                    false,
                ),
                fits,
            ) && call_ensures(
                read,
                (state.manifest.digest_algorithm, &request.artifact_digest),
                digest,
            ) && authorization::durably_authorized(request.binding, *state, credential) && fits
                && digest is Some ==> call_requires(
                first_use,
                (&request.proof_id, now, valid_until),
            ),
        forall|declared: Digest| #[trigger]
            call_requires(seal, (&state.manifest, request.chunk_count, &declared)),
        forall|manifest: ChunkManifest| #[trigger]
            call_requires(begin, (&state.artifact, &manifest, &state.held_chunk_indices)),
    ensures
        exists|credential: CredentialDimension, fits: bool, digest: Option<Digest>|
            #![trigger
                call_ensures(dimension, (&state.endpoint.credential, now), credential),
                call_ensures(
                    current,
                    (
                        AuthorizationOperation::SealManifest,
                        state.artifact.state,
                        state.manifest.sealed,
                        false,
                    ),
                    fits,
                ),
                call_ensures(
                    read,
                    (state.manifest.digest_algorithm, &request.artifact_digest),
                    digest,
                )]
            call_ensures(dimension, (&state.endpoint.credential, now), credential) && call_ensures(
                current,
                (
                    AuthorizationOperation::SealManifest,
                    state.artifact.state,
                    state.manifest.sealed,
                    false,
                ),
                fits,
            ) && call_ensures(
                read,
                (state.manifest.digest_algorithm, &request.artifact_digest),
                digest,
            ) && seal_decided(
                r,
                *request,
                *state,
                now,
                credential,
                fits,
                digest,
                deadline,
                first_use,
                seal,
                begin,
            ),
{
    let credential = dimension(&state.endpoint.credential, now);
    let fits = current(
        AuthorizationOperation::SealManifest,
        state.artifact.state,
        state.manifest.sealed,
        false,
    );
    let digest = read(state.manifest.digest_algorithm, &request.artifact_digest);
    match check_manifest_seal(&request.binding, state, credential, fits, digest) {
        SealCheck::Denied => ManifestSealDecided::Denied,
        SealCheck::FailClosed => ManifestSealDecided::FailClosed,
        SealCheck::CheckReplay { digest: declared } => {
            let millis = deadline(request.issued_at_millis);
            let valid_until = deadline_from_millis(millis);
            let first = first_use(&request.proof_id, now, valid_until);
            conclude_manifest_seal(state, request.chunk_count, declared, first, seal, begin)
        },
    }
}

/// Seals manifests.
pub struct ManifestSealService<R, S, P, C> {
    pub repo: Arc<R>,
    pub capabilities: Arc<S>,
    pub replay: Arc<P>,
    pub clock: Arc<C>,
}

impl<R, S, P> ManifestSealService<R, S, P, SystemClock> {
    /// With the real clock.
    pub fn new(repo: Arc<R>, capabilities: Arc<S>, replay: Arc<P>) -> (r: Self)
        ensures
            r.repo == repo,
            r.capabilities == capabilities,
            r.replay == replay,
    {
        ManifestSealService { repo, capabilities, replay, clock: Arc::new(SystemClock) }
    }
}

impl<R, S, P, C> ManifestSealService<R, S, P, C> {
    pub fn with_clock(self, clock: Arc<C>) -> (r: Self)
        ensures
            r == (ManifestSealService { clock, ..self }),
    {
        ManifestSealService {
            repo: self.repo,
            capabilities: self.capabilities,
            replay: self.replay,
            clock,
        }
    }

    /// Starts a seal. A capability or proof that does not hold is denied before
    /// anything durable is read; a chunk count outside the manifest's index space
    /// fails closed, and only for those who hold a capability.
    pub fn begin_manifest_seal(input: ManifestSealInput, ruled: RuledProof) -> (r:
        ManifestSealStep)
        ensures
            match (ruled.found, ruled.proof_id) {
                (Some(binding), Some(proof_id)) => if !ruled.rulings.hold() {
                    r == ManifestSealStep::Done(ManifestSealCommit::Denied)
                } else if input.chunk_count > u32::MAX {
                    r == ManifestSealStep::Done(ManifestSealCommit::FailClosed)
                } else {
                    r == ManifestSealStep::Commit(
                        SealRequest {
                            binding,
                            proof_id,
                            issued_at_millis: input.issued_at_millis,
                            chunk_count: input.chunk_count as u32,
                            artifact_digest: input.artifact_digest,
                        },
                    )
                },
                _ => r == ManifestSealStep::Done(ManifestSealCommit::Denied),
            },
    {
        match ruled.accepted() {
            Some((binding, proof_id)) => {
                if input.chunk_count > u32::MAX as u64 {
                    ManifestSealStep::Done(ManifestSealCommit::FailClosed)
                } else {
                    ManifestSealStep::Commit(
                        SealRequest {
                            binding,
                            proof_id,
                            issued_at_millis: input.issued_at_millis,
                            chunk_count: input.chunk_count as u32,
                            artifact_digest: input.artifact_digest,
                        },
                    )
                }
            },
            None => ManifestSealStep::Done(ManifestSealCommit::Denied),
        }
    }

    /// Ends a seal. A transfer that is gone is denied like any other that is not
    /// the capability's.
    pub fn commit_manifest_seal(
        committed: Result<ManifestSealCommit, CommitManifestSealError>,
    ) -> (r: Result<ManifestSealCommit, ApplicationError>)
        ensures
            match committed {
                Ok(commit) => r == Ok::<ManifestSealCommit, ApplicationError>(commit),
                Err(CommitManifestSealError::TransferNotFound(_)) => r == Ok::<
                    ManifestSealCommit,
                    ApplicationError,
                >(ManifestSealCommit::Denied),
                Err(CommitManifestSealError::Repository(fault)) => r == Err::<
                    ManifestSealCommit,
                    ApplicationError,
                >(ApplicationError::Repository(fault)),
            },
    {
        match committed {
            Ok(commit) => Ok(commit),
            Err(CommitManifestSealError::TransferNotFound(_)) => Ok(ManifestSealCommit::Denied),
            Err(CommitManifestSealError::Repository(fault)) => Err(
                ApplicationError::Repository(fault),
            ),
        }
    }
}

/// A seal is set only on an artifact that is incomplete and not yet sealed: a
/// seal once set is never rewritten.
pub proof fn seal_is_set_once<
    S: FnOnce(&ChunkManifest, u32, &Digest) -> Result<SealOutcome, SealError>,
    B: FnOnce(&Artifact, &ChunkManifest, &Vec<u32>) -> Result<Artifact, ArtifactTransitionError>,
>(
    decided: ManifestSealDecided,
    state: AuthorizationDurableState,
    chunk_count: u32,
    digest: Digest,
    seal: S,
    begin: B,
)
    requires
        seal_follows(decided, state, chunk_count, digest, seal, begin),
        decided is Seal,
    ensures
        state.artifact.state is Incomplete,
        !state.manifest.sealed,
        decided == (ManifestSealDecided::Seal { chunk_count, artifact_digest: digest }),
{
}

/// A seal is confirmed as pending only where one is set and verification is
/// still to come; it changes nothing.
pub proof fn pending_confirmation_needs_a_seal<
    S: FnOnce(&ChunkManifest, u32, &Digest) -> Result<SealOutcome, SealError>,
    B: FnOnce(&Artifact, &ChunkManifest, &Vec<u32>) -> Result<Artifact, ArtifactTransitionError>,
>(
    decided: ManifestSealDecided,
    state: AuthorizationDurableState,
    chunk_count: u32,
    digest: Digest,
    seal: S,
    begin: B,
)
    requires
        seal_follows(decided, state, chunk_count, digest, seal, begin),
        decided is AlreadyPending || decided is RejectAlreadySealed,
    ensures
        state.artifact.state is PendingVerification,
        state.manifest.sealed,
{
}

/// A seal is checked for replay exactly where the durable record authorizes it, a seal
/// fits the artifact and the declared digest could be read; one that is authorized and
/// fits but cannot be read fails closed, and any other is denied.
pub proof fn only_an_authorized_seal_is_checked_for_replay(
    binding: CapabilityBinding,
    state: AuthorizationDurableState,
    credential: CredentialDimension,
    fits: bool,
    digest: Option<Digest>,
    r: SealCheck,
)
    requires
        call_ensures(check_manifest_seal, (&binding, &state, credential, fits, digest), r),
    ensures
        r !is Denied <==> {
            &&& state.transfer.endpoint_id == binding.endpoint_id
            &&& state.transfer.artifact_id == binding.artifact_id
            &&& state.transfer.direction == binding.direction
            &&& state.attempt is Some
            &&& state.attempt->Some_0.id == binding.attempt_id
            &&& state.attempt->Some_0.state is InProgress
            &&& credential is CredentialActive
            &&& fits
        },
        r matches SealCheck::CheckReplay { digest: declared } ==> digest == Some(declared),
        r is FailClosed ==> digest is None,
{
}

/// A seal whose proof was used before is denied, and so is one of an artifact that was
/// verified or has failed.
pub proof fn replayed_or_late_seal_is_denied<
    S: FnOnce(&ChunkManifest, u32, &Digest) -> Result<SealOutcome, SealError>,
    B: FnOnce(&Artifact, &ChunkManifest, &Vec<u32>) -> Result<Artifact, ArtifactTransitionError>,
>(
    state: AuthorizationDurableState,
    chunk_count: u32,
    digest: Digest,
    first_use: bool,
    seal: S,
    begin: B,
    r: ManifestSealDecided,
)
    requires
        call_ensures(
            conclude_manifest_seal::<S, B>,
            (&state, chunk_count, digest, first_use, seal, begin),
            r,
        ),
    ensures
        r is Denied <==> !first_use || state.artifact.state is Verified || state.artifact.state
            is Failed,
        first_use && state.artifact.state is Incomplete && state.manifest.sealed ==> r
            is FailClosed,
        first_use && state.artifact.state is PendingVerification && !state.manifest.sealed ==> r
            is FailClosed,
{
}

/// A first seal is set, with the count and the digest that were declared, exactly where
/// the manifest takes it and the artifact goes on to verification with the sealed
/// manifest and the chunks that are held. Missing chunks are told; anything else fails
/// closed.
pub proof fn first_seal_is_set_as_declared<
    S: FnOnce(&ChunkManifest, u32, &Digest) -> Result<SealOutcome, SealError>,
    B: FnOnce(&Artifact, &ChunkManifest, &Vec<u32>) -> Result<Artifact, ArtifactTransitionError>,
>(
    state: AuthorizationDurableState,
    chunk_count: u32,
    digest: Digest,
    seal: S,
    begin: B,
    r: ManifestSealDecided,
)
    requires
        call_ensures(
            conclude_manifest_seal::<S, B>,
            (&state, chunk_count, digest, true, seal, begin),
            r,
        ),
        state.artifact.state is Incomplete,
        !state.manifest.sealed,
    ensures
        r matches ManifestSealDecided::Seal { chunk_count: count, artifact_digest } ==> count
            == chunk_count && artifact_digest == digest,
        exists|sealed: Result<SealOutcome, SealError>| #[trigger]
            call_ensures(seal, (&state.manifest, chunk_count, &digest), sealed) && {
                &&& sealed matches Ok(SealOutcome::AlreadySealed) ==> r is FailClosed
                &&& sealed matches Err(SealError::IncompleteChunkSet) ==> r is RejectIncomplete
                &&& sealed matches Err(SealError::NonContiguousIndices) ==> r is RejectIncomplete
                &&& sealed matches Err(SealError::ConflictingReseal) ==> r is FailClosed
                &&& sealed matches Err(SealError::InvalidDigestLength) ==> r is FailClosed
                &&& sealed matches Ok(SealOutcome::Sealed(manifest)) ==> exists|
                    begun: Result<Artifact, ArtifactTransitionError>,
                | #[trigger]
                    call_ensures(
                        begin,
                        (&state.artifact, &manifest, &state.held_chunk_indices),
                        begun,
                    ) && (begun is Ok <==> r is Seal) && (begun == Err::<
                        Artifact,
                        ArtifactTransitionError,
                    >(ArtifactTransitionError::IncompleteChunks) <==> r is RejectIncomplete) && (
                    begun is Err && begun != Err::<Artifact, ArtifactTransitionError>(
                        ArtifactTransitionError::IncompleteChunks,
                    ) <==> r is FailClosed)
            },
{
}

/// A seal of an artifact that awaits verification sets nothing: the manifest confirms
/// the same seal and rejects another.
pub proof fn second_seal_sets_nothing<
    S: FnOnce(&ChunkManifest, u32, &Digest) -> Result<SealOutcome, SealError>,
    B: FnOnce(&Artifact, &ChunkManifest, &Vec<u32>) -> Result<Artifact, ArtifactTransitionError>,
>(
    state: AuthorizationDurableState,
    chunk_count: u32,
    digest: Digest,
    seal: S,
    begin: B,
    r: ManifestSealDecided,
)
    requires
        call_ensures(
            conclude_manifest_seal::<S, B>,
            (&state, chunk_count, digest, true, seal, begin),
            r,
        ),
        state.artifact.state is PendingVerification,
        state.manifest.sealed,
    ensures
        r !is Seal && r !is RejectIncomplete && r !is Denied,
        exists|sealed: Result<SealOutcome, SealError>| #[trigger]
            call_ensures(seal, (&state.manifest, chunk_count, &digest), sealed) && (r
                is AlreadyPending <==> (sealed matches Ok(outcome) && outcome is AlreadySealed)) && (
            r is RejectAlreadySealed <==> (sealed matches Err(error) && error
                is ConflictingReseal)),
{
}

/// What is ruled on for a seal is a seal of the request's own transfer, of no chunk,
/// with the request's own token, proof and signature.
pub proof fn seal_is_ruled_on_as_sent(input: ManifestSealInput, r: WorkerAuthorizationQueryInput)
    requires
        call_ensures(seal_query_input, (&input,), r),
    ensures
        r.operation is SealManifest,
        r.token@ == input.token@,
        r.transfer_id == input.transfer_id,
        r.chunk_index is None,
        r.proof_id@ == input.proof_id@,
        r.issued_at_millis == input.issued_at_millis,
        r.signature@ == input.signature@,
{
}

/// A seal is set only where the durable record authorizes the capability with an active
/// credential, a seal fits the artifact, and the proof was recorded for the first time,
/// under its own identity, as of this moment and for as long as it could be fresh; with
/// the count that was declared and the digest that was read from what was declared.
pub proof fn seal_is_set_only_when_authorized<
    D: FnOnce(&CredentialChain, Timestamp) -> CredentialDimension,
    O: FnOnce(AuthorizationOperation, ArtifactState, bool, bool) -> bool,
    G: FnOnce(DigestAlgorithm, &String) -> Option<Digest>,
    L: FnOnce(u64) -> i128,
    U: FnOnce(&Vec<u8>, Timestamp, Timestamp) -> bool,
    S: FnOnce(&ChunkManifest, u32, &Digest) -> Result<SealOutcome, SealError>,
    B: FnOnce(&Artifact, &ChunkManifest, &Vec<u32>) -> Result<Artifact, ArtifactTransitionError>,
>(
    request: SealRequest,
    state: AuthorizationDurableState,
    now: Timestamp,
    dimension: D,
    current: O,
    read: G,
    deadline: L,
    first_use: U,
    seal: S,
    begin: B,
    r: ManifestSealDecided,
)
    requires
        call_ensures(
            decide_manifest_seal::<D, O, G, L, U, S, B>,
            (
                &request,
                &state,
                now,
                dimension,
                current,
                read,
                deadline,
                first_use,
                seal,
                begin,
            ),
            r,
        ),
    ensures
        r matches ManifestSealDecided::Seal { chunk_count, artifact_digest } ==> {
            &&& state.transfer.endpoint_id == request.binding.endpoint_id
            &&& state.transfer.artifact_id == request.binding.artifact_id
            &&& state.transfer.direction == request.binding.direction
            &&& state.attempt is Some
            &&& state.attempt->Some_0.id == request.binding.attempt_id
            &&& state.attempt->Some_0.state is InProgress
            &&& state.artifact.state is Incomplete
            &&& !state.manifest.sealed
            &&& chunk_count == request.chunk_count
            &&& call_ensures(
                dimension,
                (&state.endpoint.credential, now),
                CredentialDimension::CredentialActive,
            )
            &&& call_ensures(
                current,
                (
                    AuthorizationOperation::SealManifest,
                    state.artifact.state,
                    state.manifest.sealed,
                    false,
                ),
                true,
            )
            &&& call_ensures(
                read,
                (state.manifest.digest_algorithm, &request.artifact_digest),
                Some(artifact_digest),
            )
            &&& exists|millis: i128, until: Timestamp| #[trigger]
                call_ensures(deadline, (request.issued_at_millis,), millis)
                    && #[trigger] call_ensures(first_use, (&request.proof_id, now, until), true)
                    && (if -8_334_601_228_800_000 <= millis
                        < 8_210_266_876_800_000 {
                        until.seconds * 1_000_000_000 + until.nanos == millis * 1_000_000
                    } else {
                        until.seconds == 8_210_266_876_799 && until.nanos == 999_999_999
                    })
        },
        r is AlreadyPending || r is RejectAlreadySealed || r is RejectIncomplete ==> {
            &&& state.transfer.endpoint_id == request.binding.endpoint_id
            &&& state.transfer.artifact_id == request.binding.artifact_id
            &&& state.transfer.direction == request.binding.direction
            &&& state.attempt is Some
            &&& state.attempt->Some_0.id == request.binding.attempt_id
            &&& state.attempt->Some_0.state is InProgress
            &&& exists|millis: i128, until: Timestamp| #[trigger]
                call_ensures(deadline, (request.issued_at_millis,), millis)
                    && #[trigger] call_ensures(first_use, (&request.proof_id, now, until), true)
                    && (if -8_334_601_228_800_000 <= millis
                        < 8_210_266_876_800_000 {
                        until.seconds * 1_000_000_000 + until.nanos == millis * 1_000_000
                    } else {
                        until.seconds == 8_210_266_876_799 && until.nanos == 999_999_999
                    })
        },
{
}

/// A seal that the durable record does not authorize, or whose proof was used before,
/// is denied.
pub proof fn unauthorized_seal_is_denied<
    D: FnOnce(&CredentialChain, Timestamp) -> CredentialDimension,
    O: FnOnce(AuthorizationOperation, ArtifactState, bool, bool) -> bool,
    G: FnOnce(DigestAlgorithm, &String) -> Option<Digest>,
    L: FnOnce(u64) -> i128,
    U: FnOnce(&Vec<u8>, Timestamp, Timestamp) -> bool,
    S: FnOnce(&ChunkManifest, u32, &Digest) -> Result<SealOutcome, SealError>,
    B: FnOnce(&Artifact, &ChunkManifest, &Vec<u32>) -> Result<Artifact, ArtifactTransitionError>,
>(
    request: SealRequest,
    state: AuthorizationDurableState,
    now: Timestamp,
    dimension: D,
    current: O,
    read: G,
    deadline: L,
    first_use: U,
    seal: S,
    begin: B,
    r: ManifestSealDecided,
)
    requires
        call_ensures(
            decide_manifest_seal::<D, O, G, L, U, S, B>,
            (
                &request,
                &state,
                now,
                dimension,
                current,
                read,
                deadline,
                first_use,
                seal,
                begin,
            ),
            r,
        ),
        state.transfer.endpoint_id != request.binding.endpoint_id || state.transfer.artifact_id
            != request.binding.artifact_id || state.transfer.direction != request.binding.direction
            || state.attempt is None || state.attempt->Some_0.id != request.binding.attempt_id
            || state.attempt->Some_0.state !is InProgress || (forall|
            credential: CredentialDimension,
        | #[trigger]
            call_ensures(dimension, (&state.endpoint.credential, now), credential) ==> credential
                !is CredentialActive),
    ensures
        r is Denied,
{
}

/// A seal with a proof that was used before is not set, whatever else holds of it.
pub proof fn replayed_seal_is_not_set<
    D: FnOnce(&CredentialChain, Timestamp) -> CredentialDimension,
    O: FnOnce(AuthorizationOperation, ArtifactState, bool, bool) -> bool,
    G: FnOnce(DigestAlgorithm, &String) -> Option<Digest>,
    L: FnOnce(u64) -> i128,
    U: FnOnce(&Vec<u8>, Timestamp, Timestamp) -> bool,
    S: FnOnce(&ChunkManifest, u32, &Digest) -> Result<SealOutcome, SealError>,
    B: FnOnce(&Artifact, &ChunkManifest, &Vec<u32>) -> Result<Artifact, ArtifactTransitionError>,
>(
    request: SealRequest,
    state: AuthorizationDurableState,
    now: Timestamp,
    dimension: D,
    current: O,
    read: G,
    deadline: L,
    first_use: U,
    seal: S,
    begin: B,
    r: ManifestSealDecided,
)
    requires
        call_ensures(
            decide_manifest_seal::<D, O, G, L, U, S, B>,
            (
                &request,
                &state,
                now,
                dimension,
                current,
                read,
                deadline,
                first_use,
                seal,
                begin,
            ),
            r,
        ),
        forall|until: Timestamp, first: bool| #[trigger]
            call_ensures(first_use, (&request.proof_id, now, until), first) ==> !first,
    ensures
        r is Denied || r is FailClosed,
{
}

/// A seal goes to the transfer's lock exactly where there is a capability, its proof has
/// an identity and all six rulings hold, with the count, the digest and the moment that
/// were sent. A count beyond the manifest's index space fails closed; without a
/// capability that holds it is denied whatever the count.
pub proof fn seal_goes_to_the_lock_as_sent<R, S, P, C>(
    input: ManifestSealInput,
    ruled: RuledProof,
    r: ManifestSealStep,
)
    requires
        call_ensures(ManifestSealService::<R, S, P, C>::begin_manifest_seal, (input, ruled), r),
    ensures
        r !is Commit ==> (r matches ManifestSealStep::Done(commit) && (commit is Denied || commit
            is FailClosed)),
        (r matches ManifestSealStep::Done(commit) && commit is Denied) <==> !(ruled.found is Some
            && ruled.proof_id is Some && ruled.rulings.capability_current
            && ruled.rulings.capability_matches && ruled.rulings.proof_id_readable
            && ruled.rulings.signature_readable && ruled.rulings.proof_fresh
            && ruled.rulings.signature_valid),
        (r matches ManifestSealStep::Done(commit) && commit is FailClosed) ==> input.chunk_count
            > 0xffff_ffff,
        r matches ManifestSealStep::Commit(request) ==> {
            &&& request.chunk_count == input.chunk_count
            &&& request.issued_at_millis == input.issued_at_millis
            &&& request.artifact_digest@ == input.artifact_digest@
            &&& ruled.found == Some(request.binding)
            &&& ruled.proof_id == Some(request.proof_id)
        },
{
}

/// A seal ends as it was committed; a transfer that is gone is denied, and a fault of
/// the storage is told.
pub proof fn seal_is_told_as_committed<R, S, P, C>(
    committed: Result<ManifestSealCommit, CommitManifestSealError>,
    r: Result<ManifestSealCommit, ApplicationError>,
)
    requires
        call_ensures(ManifestSealService::<R, S, P, C>::commit_manifest_seal, (committed,), r),
    ensures
        committed matches Ok(commit) ==> r is Ok && r->Ok_0 == commit,
        committed matches Err(CommitManifestSealError::TransferNotFound(_)) ==> r is Ok
            && r->Ok_0 is Denied,
        committed matches Err(CommitManifestSealError::Repository(fault)) ==> r is Err && r->Err_0
            == ApplicationError::Repository(fault),
{
}

} // verus!
