//! The verification of a whole artifact against its sealed manifest.

use vstd::prelude::*;
use std::sync::Arc;
use crate::bytes::same_bytes;
use crate::errors::{ApplicationError, RepositoryError};
use crate::ids::{ArtifactId, TransferId};
use crate::manifest_seal::ArtifactTransitionError;
use crate::model::{Artifact, ArtifactState, Digest, DigestAlgorithm, TransferLockedFacts};
use crate::text::same_text;

verus! {

/// The sealed identity that a verification was handed out for, and the digest
/// that a worker computed.
#[derive(Debug)]
pub struct ArtifactVerificationInput {
    pub transfer_id: u128,
    pub artifact_id: u128,
    pub chunk_count: u64,
    pub bound_expected_artifact_digest: String,
    pub computed_artifact_digest: String,
}

/// What is to be done about a verification.
#[derive(Debug)]
pub enum ArtifactVerificationDecided {
    Commit(Artifact),
    FailClosed,
}

/// What became of a verification. A digest that does not match is a verification
/// like any other; its artifact has failed.
#[derive(Clone, Copy, Debug, PartialEq, Eq, Structural)]
pub enum ArtifactVerificationCommit {
    Committed { verified: bool },
    FailClosed,
}

/// Why a verification was not committed.
#[derive(Debug)]
pub enum CommitArtifactVerificationError {
    TransferNotFound(TransferId),
    Repository(RepositoryError),
}

/// The durable record still holds exactly the sealed identity that the
/// verification was handed out for, and still awaits it.
pub open spec fn sealed_identity_holds(
    facts: TransferLockedFacts,
    input: ArtifactVerificationInput,
) -> bool {
    &&& facts.artifact.id == ArtifactId(input.artifact_id)
    &&& facts.transfer.artifact_id == ArtifactId(input.artifact_id)
    &&& facts.artifact.state is PendingVerification
    &&& facts.manifest.sealed
    &&& facts.manifest.chunk_count matches Some(count)
    &&& count == input.chunk_count
    &&& facts.manifest.artifact_digest matches Some(expected)
    &&& expected.wire@ == input.bound_expected_artifact_digest@
}

/// What follows from the artifact's own answer.
pub open spec fn completion_follows(
    decided: ArtifactVerificationDecided,
    completed: Result<Artifact, ArtifactTransitionError>,
) -> bool {
    match completed {
        Ok(updated) => decided == ArtifactVerificationDecided::Commit(updated),
        Err(_) => decided is FailClosed,
    }
}

/// Turns the artifact's own answer into what is to be done.
pub fn conclude_completion(completed: Result<Artifact, ArtifactTransitionError>) -> (r:
    ArtifactVerificationDecided)
    ensures
        completion_follows(r, completed),
{
    match completed {
        Ok(updated) => ArtifactVerificationDecided::Commit(updated),
        Err(_) => ArtifactVerificationDecided::FailClosed,
    }
}

/// Decides about a verification, under the transfer's lock.
///
/// `read_digest` reads the computed digest by the manifest's algorithm;
/// `complete` asks the artifact to move on, given whether that digest is the
/// durable one. The digest that the verification was handed out with is held
/// against the record, but the record's own digest decides.
pub fn decide_artifact_verification<
    P: FnOnce(DigestAlgorithm, &String) -> Option<Digest>,
    C: FnOnce(&Artifact, bool) -> Result<Artifact, ArtifactTransitionError>,
>(facts: &TransferLockedFacts, input: &ArtifactVerificationInput, read_digest: P, complete: C) -> (r:
    ArtifactVerificationDecided)
    requires
        call_requires(
            read_digest,
            (facts.manifest.digest_algorithm, &input.computed_artifact_digest),
        ),
        forall|matches: bool| #[trigger] call_requires(complete, (&facts.artifact, matches)),
    ensures
        !sealed_identity_holds(*facts, *input) ==> r is FailClosed,
        sealed_identity_holds(*facts, *input) ==> exists|computed: Option<Digest>| #[trigger]
            call_ensures(
                read_digest,
                (facts.manifest.digest_algorithm, &input.computed_artifact_digest),
                computed,
            ) && match computed {
                None => r is FailClosed,
                Some(computed) => exists|completed: Result<Artifact, ArtifactTransitionError>|
                    call_ensures(
                        complete,
                        (
                            &facts.artifact,
                            computed.bytes@ == facts.manifest.artifact_digest->Some_0.bytes@,
                        ),
                        completed,
                    ) && #[trigger] completion_follows(r, completed),
            },
{
    let bound_artifact_id = ArtifactId(input.artifact_id);
    if facts.artifact.id != bound_artifact_id || facts.transfer.artifact_id != bound_artifact_id
        || !matches!(facts.artifact.state, ArtifactState::PendingVerification)
        || !facts.manifest.sealed {
        return ArtifactVerificationDecided::FailClosed;
    }
    match facts.manifest.chunk_count {
        Some(count) => {
            if count as u64 != input.chunk_count {
                return ArtifactVerificationDecided::FailClosed;
            }
        },
        None => {
            return ArtifactVerificationDecided::FailClosed;
        },
    }
    let expected = match &facts.manifest.artifact_digest {
        Some(expected) => expected,
        None => {
            return ArtifactVerificationDecided::FailClosed;
        },
    };
    if !same_text(expected.wire.as_str(), input.bound_expected_artifact_digest.as_str()) {
        return ArtifactVerificationDecided::FailClosed;
    }
    let computed = match read_digest(
        facts.manifest.digest_algorithm,
        &input.computed_artifact_digest,
    ) {
        Some(computed) => computed,
        None => {
            return ArtifactVerificationDecided::FailClosed;
        },
    };
    let digest_matches = same_bytes(&computed.bytes, &expected.bytes);
    let completed = complete(&facts.artifact, digest_matches);
    conclude_completion(completed)
}

/// Verifies artifacts.
pub struct ArtifactVerificationService<R> {
    pub repo: Arc<R>,
}

impl<R> ArtifactVerificationService<R> {
    pub fn new(repo: Arc<R>) -> (r: Self)
        ensures
            r.repo == repo,
    {
        ArtifactVerificationService { repo }
    }

    /// Ends a verification. A transfer that is gone fails closed.
    pub fn commit_artifact_verification(
        committed: Result<ArtifactVerificationCommit, CommitArtifactVerificationError>,
    ) -> (r: Result<ArtifactVerificationCommit, ApplicationError>)
        ensures
            match committed {
                Ok(commit) => r == Ok::<ArtifactVerificationCommit, ApplicationError>(commit),
                Err(CommitArtifactVerificationError::TransferNotFound(_)) => r == Ok::<
                    ArtifactVerificationCommit,
                    ApplicationError,
                >(ArtifactVerificationCommit::FailClosed),
                Err(CommitArtifactVerificationError::Repository(fault)) => r == Err::<
                    ArtifactVerificationCommit,
                    ApplicationError,
                >(ApplicationError::Repository(fault)),
            },
    {
        match committed {
            Ok(commit) => Ok(commit),
            Err(CommitArtifactVerificationError::TransferNotFound(_)) => Ok(
                ArtifactVerificationCommit::FailClosed,
            ),
            Err(CommitArtifactVerificationError::Repository(fault)) => Err(
                ApplicationError::Repository(fault),
            ),
        }
    }
}

/// A verification is committed only while the record awaits it and still holds the very
/// artifact, number of chunks and digest that it was handed out for. The artifact is
/// then completed by whether the digest that was computed is the record's own.
pub proof fn verification_is_committed_for_what_it_was_handed_out<
    P: FnOnce(DigestAlgorithm, &String) -> Option<Digest>,
    C: FnOnce(&Artifact, bool) -> Result<Artifact, ArtifactTransitionError>,
>(
    facts: TransferLockedFacts,
    input: ArtifactVerificationInput,
    read_digest: P,
    complete: C,
    r: ArtifactVerificationDecided,
)
    requires
        call_ensures(
            decide_artifact_verification::<P, C>,
            (&facts, &input, read_digest, complete),
            r,
        ),
    ensures
        r matches ArtifactVerificationDecided::Commit(updated) ==> {
            &&& facts.artifact.id.0 == input.artifact_id
            &&& facts.transfer.artifact_id.0 == input.artifact_id
            &&& facts.artifact.state is PendingVerification
            &&& facts.manifest.sealed
            &&& facts.manifest.chunk_count is Some
            &&& facts.manifest.chunk_count->Some_0 == input.chunk_count
            &&& facts.manifest.artifact_digest is Some
            &&& facts.manifest.artifact_digest->Some_0.wire@
                == input.bound_expected_artifact_digest@
            &&& exists|computed: Digest| #[trigger]
                call_ensures(
                    read_digest,
                    (facts.manifest.digest_algorithm, &input.computed_artifact_digest),
                    Some(computed),
                ) && call_ensures(
                    complete,
                    (
                        &facts.artifact,
                        computed.bytes@ == facts.manifest.artifact_digest->Some_0.bytes@,
                    ),
                    Ok(updated),
                )
        },
{
}

/// A verification that the record awaits, with a digest that can be read, is decided as
/// the artifact takes it: what it comes to is committed, and its refusal fails closed.
pub proof fn awaited_verification_is_decided_by_the_artifact<
    P: FnOnce(DigestAlgorithm, &String) -> Option<Digest>,
    C: FnOnce(&Artifact, bool) -> Result<Artifact, ArtifactTransitionError>,
>(
    facts: TransferLockedFacts,
    input: ArtifactVerificationInput,
    read_digest: P,
    complete: C,
    r: ArtifactVerificationDecided,
)
    requires
        call_ensures(
            decide_artifact_verification::<P, C>,
            (&facts, &input, read_digest, complete),
            r,
        ),
        facts.artifact.id.0 == input.artifact_id,
        facts.transfer.artifact_id.0 == input.artifact_id,
        facts.artifact.state is PendingVerification,
        facts.manifest.sealed,
        facts.manifest.chunk_count is Some,
        facts.manifest.chunk_count->Some_0 == input.chunk_count,
        facts.manifest.artifact_digest is Some,
        facts.manifest.artifact_digest->Some_0.wire@ == input.bound_expected_artifact_digest@,
        forall|computed: Option<Digest>| #[trigger]
            call_ensures(
                read_digest,
                (facts.manifest.digest_algorithm, &input.computed_artifact_digest),
                computed,
            ) ==> computed is Some,
    ensures
        exists|matching: bool, completed: Result<Artifact, ArtifactTransitionError>| #[trigger]
            call_ensures(complete, (&facts.artifact, matching), completed) && (completed
                matches Ok(updated) ==> r == ArtifactVerificationDecided::Commit(updated)) && (
            completed is Err ==> r is FailClosed),
{
    let computed = choose|computed: Option<Digest>| #[trigger]
        call_ensures(
            read_digest,
            (facts.manifest.digest_algorithm, &input.computed_artifact_digest),
            computed,
        ) && match computed {
            None => r is FailClosed,
            Some(computed) => exists|completed: Result<Artifact, ArtifactTransitionError>|
                call_ensures(
                    complete,
                    (
                        &facts.artifact,
                        computed.bytes@ == facts.manifest.artifact_digest->Some_0.bytes@,
                    ),
                    completed,
                ) && #[trigger] completion_follows(r, completed),
        };
    let matching = computed->Some_0.bytes@ == facts.manifest.artifact_digest->Some_0.bytes@;
    let completed = choose|completed: Result<Artifact, ArtifactTransitionError>|
        call_ensures(complete, (&facts.artifact, matching), completed)
            && #[trigger] completion_follows(r, completed);
    assert(call_ensures(complete, (&facts.artifact, matching), completed));
}

/// The artifact's own answer is committed, and its refusal fails closed.
pub proof fn completion_is_concluded(
    completed: Result<Artifact, ArtifactTransitionError>,
    r: ArtifactVerificationDecided,
)
    requires
        call_ensures(conclude_completion, (completed,), r),
    ensures
        r is Commit <==> completed is Ok,
        r matches ArtifactVerificationDecided::Commit(updated) ==> completed->Ok_0 == updated,
{
}

/// A verification ends as it was committed; a transfer that is gone fails closed, and a
/// fault of the storage is told.
pub proof fn verification_is_told_as_committed<R>(
    committed: Result<ArtifactVerificationCommit, CommitArtifactVerificationError>,
    r: Result<ArtifactVerificationCommit, ApplicationError>,
)
    requires
        call_ensures(
            ArtifactVerificationService::<R>::commit_artifact_verification,
            (committed,),
            r,
        ),
    ensures
        committed matches Ok(commit) ==> r is Ok && r->Ok_0 == commit,
        committed matches Err(CommitArtifactVerificationError::TransferNotFound(_)) ==> r is Ok
            && r->Ok_0 is FailClosed,
        committed matches Err(CommitArtifactVerificationError::Repository(fault)) ==> r is Err
            && r->Err_0 == ApplicationError::Repository(fault),
{
}

} // verus!
