//! Transfers before and while data moves: what the rules are asked about each
//! change to their durable record, and what is told about it.
//!
//! The service has no rules of its own. Each change asks one rule, under the
//! transfer's lock, about what is durable at that moment and what the caller
//! brought; the rule's answer stands.

use vstd::prelude::*;
use std::sync::Arc;
use crate::chunk_acceptance::ChunkRecordOutcome;
use crate::errors::{
    AcceptChunkError, ApplicationError, ArtifactTransitionRepoError, BindAttemptError,
    CreateTransferError, RecordChunkError, RepositoryError, SealManifestError,
};
use crate::ids::{EndpointId, JobId, JobStepId};
use crate::manifest_seal::SealOutcome;
use crate::model::{
    Artifact, Attempt, ChunkManifest, DigestAlgorithm, Transfer, TransferDirection,
    TransferLockedFacts,
};

verus! {

/// The error for a transfer that was not persisted.
pub open spec fn creation_refusal(error: CreateTransferError) -> ApplicationError {
    match error {
        CreateTransferError::EndpointNotFound(id) => ApplicationError::EndpointNotFound(id),
        CreateTransferError::JobNotFound(id) => ApplicationError::JobNotFound(id),
        CreateTransferError::JobEndpointMismatch(job, endpoint) =>
            ApplicationError::JobEndpointMismatch(job, endpoint),
        CreateTransferError::JobStepNotFound(step, job) => ApplicationError::JobStepNotFound(
            step,
            job,
        ),
        CreateTransferError::Repository(fault) => ApplicationError::Repository(fault),
    }
}

/// What a new transfer is to be.
#[derive(Debug)]
pub struct NewTransfer {
    pub endpoint_id: EndpointId,
    pub job_id: JobId,
    pub job_step_id: JobStepId,
    pub direction: TransferDirection,
    pub digest_algorithm: DigestAlgorithm,
    pub chunk_size: u32,
    pub source_provenance: String,
}

/// Keeps the record of transfers.
pub struct TransferService<T> {
    pub repo: Arc<T>,
}

impl<T> TransferService<T> {
    pub fn new(repo: Arc<T>) -> (r: Self)
        ensures
            r.repo == repo,
    {
        TransferService { repo }
    }

    /// The transfer that is to be persisted, as the rule makes it of what was asked
    /// for.
    pub fn construct_transfer_context<
        V,
        F: FnOnce(
            EndpointId,
            JobId,
            JobStepId,
            TransferDirection,
            DigestAlgorithm,
            u32,
            String,
        ) -> V,
    >(request: NewTransfer, rule: F) -> (r: V)
        requires
            call_requires(
                rule,
                (
                    request.endpoint_id,
                    request.job_id,
                    request.job_step_id,
                    request.direction,
                    request.digest_algorithm,
                    request.chunk_size,
                    request.source_provenance,
                ),
            ),
        ensures
            call_ensures(
                rule,
                (
                    request.endpoint_id,
                    request.job_id,
                    request.job_step_id,
                    request.direction,
                    request.digest_algorithm,
                    request.chunk_size,
                    request.source_provenance,
                ),
                r,
            ),
    {
        rule(
            request.endpoint_id,
            request.job_id,
            request.job_step_id,
            request.direction,
            request.digest_algorithm,
            request.chunk_size,
            request.source_provenance,
        )
    }

    /// What is told about a new transfer: the transfer itself, once it is persisted.
    pub fn create_transfer_context<V>(
        context: V,
        persisted: Result<(), CreateTransferError>,
    ) -> (r: Result<V, ApplicationError>)
        ensures
            match persisted {
                Ok(()) => r == Ok::<V, ApplicationError>(context),
                Err(error) => r == Err::<V, ApplicationError>(creation_refusal(error)),
            },
    {
        match persisted {
            Ok(()) => Ok(context),
            Err(error) => Err(ApplicationError::from(error)),
        }
    }

    /// What is told about a transfer that was looked for.
    pub fn find_transfer_context<V>(
        found: Result<Option<V>, RepositoryError>,
    ) -> (r: Result<Option<V>, ApplicationError>)
        ensures
            match found {
                Ok(context) => r == Ok::<Option<V>, ApplicationError>(context),
                Err(fault) => r == Err::<Option<V>, ApplicationError>(
                    ApplicationError::Repository(fault),
                ),
            },
    {
        match found {
            Ok(context) => Ok(context),
            Err(fault) => Err(ApplicationError::Repository(fault)),
        }
    }

    /// Decides about an expected chunk: the locked manifest is asked to take exactly
    /// what was brought.
    pub fn decide_expected_chunk<
        E,
        F: FnOnce(&ChunkManifest, u32, u32, Vec<u8>) -> Result<ChunkRecordOutcome, E>,
    >(facts: &TransferLockedFacts, index: u32, size: u32, digest: Vec<u8>, rule: F) -> (r: Result<ChunkRecordOutcome, E>)
        requires
            call_requires(rule, (&facts.manifest, index, size, digest)),
        ensures
            call_ensures(rule, (&facts.manifest, index, size, digest), r),
    {
        rule(&facts.manifest, index, size, digest)
    }

    /// What is told about an expected chunk.
    pub fn record_expected_chunk<V>(
        recorded: Result<V, RecordChunkError>,
    ) -> (r: Result<V, ApplicationError>)
        ensures
            match recorded {
                Ok(value) => r == Ok::<V, ApplicationError>(value),
                Err(RecordChunkError::TransferNotFound(id)) => r == Err::<V, ApplicationError>(
                    ApplicationError::TransferNotFound(id),
                ),
                Err(RecordChunkError::Domain(fault)) => r == Err::<V, ApplicationError>(
                    ApplicationError::ChunkRecord(fault),
                ),
                Err(RecordChunkError::Repository(fault)) => r == Err::<V, ApplicationError>(
                    ApplicationError::Repository(fault),
                ),
            },
    {
        match recorded {
            Ok(value) => Ok(value),
            Err(error) => Err(ApplicationError::from(error)),
        }
    }

    /// Decides about a chunk that was verified: its digest is held against what the
    /// locked manifest expects at that index.
    pub fn decide_verified_chunk<
        E,
        F: FnOnce(&ChunkManifest, u32, &Vec<u8>) -> Result<(), E>,
    >(facts: &TransferLockedFacts, index: u32, digest: &Vec<u8>, rule: F) -> (r: Result<(), E>)
        requires
            call_requires(rule, (&facts.manifest, index, digest)),
        ensures
            call_ensures(rule, (&facts.manifest, index, digest), r),
    {
        rule(&facts.manifest, index, digest)
    }

    /// What is told about a chunk that was verified.
    pub fn accept_verified_chunk<V>(
        accepted: Result<V, AcceptChunkError>,
    ) -> (r: Result<V, ApplicationError>)
        ensures
            match accepted {
                Ok(value) => r == Ok::<V, ApplicationError>(value),
                Err(AcceptChunkError::TransferNotFound(id)) => r == Err::<V, ApplicationError>(
                    ApplicationError::TransferNotFound(id),
                ),
                Err(AcceptChunkError::Domain(fault)) => r == Err::<V, ApplicationError>(
                    ApplicationError::ChunkAccept(fault),
                ),
                Err(AcceptChunkError::Repository(fault)) => r == Err::<V, ApplicationError>(
                    ApplicationError::Repository(fault),
                ),
            },
    {
        match accepted {
            Ok(value) => Ok(value),
            Err(error) => Err(ApplicationError::from(error)),
        }
    }

    /// Decides about a seal: the locked manifest is asked to take exactly this count
    /// and this digest.
    pub fn decide_seal<
        E,
        F: FnOnce(&ChunkManifest, u32, Vec<u8>) -> Result<SealOutcome, E>,
    >(facts: &TransferLockedFacts, chunk_count: u32, digest: Vec<u8>, rule: F) -> (r: Result<SealOutcome, E>)
        requires
            call_requires(rule, (&facts.manifest, chunk_count, digest)),
        ensures
            call_ensures(rule, (&facts.manifest, chunk_count, digest), r),
    {
        rule(&facts.manifest, chunk_count, digest)
    }

    /// What is told about a manifest that was to be sealed.
    pub fn seal_manifest<V>(
        sealed: Result<V, SealManifestError>,
    ) -> (r: Result<V, ApplicationError>)
        ensures
            match sealed {
                Ok(value) => r == Ok::<V, ApplicationError>(value),
                Err(SealManifestError::TransferNotFound(id)) => r == Err::<V, ApplicationError>(
                    ApplicationError::TransferNotFound(id),
                ),
                Err(SealManifestError::Domain(fault)) => r == Err::<V, ApplicationError>(
                    ApplicationError::Seal(fault),
                ),
                Err(SealManifestError::Repository(fault)) => r == Err::<V, ApplicationError>(
                    ApplicationError::Repository(fault),
                ),
            },
    {
        match sealed {
            Ok(value) => Ok(value),
            Err(error) => Err(ApplicationError::from(error)),
        }
    }

    /// Decides whether an artifact goes on to verification: by its own state, its
    /// manifest and the chunks that are held, all of them locked.
    pub fn decide_verification_start<
        E,
        F: FnOnce(&Artifact, &ChunkManifest, &Vec<u32>) -> Result<Artifact, E>,
    >(facts: &TransferLockedFacts, rule: F) -> (r: Result<Artifact, E>)
        requires
            call_requires(rule, (&facts.artifact, &facts.manifest, &facts.held_chunk_indices)),
        ensures
            call_ensures(rule, (&facts.artifact, &facts.manifest, &facts.held_chunk_indices), r),
    {
        rule(&facts.artifact, &facts.manifest, &facts.held_chunk_indices)
    }

    /// What is told about an artifact whose verification was to begin.
    pub fn begin_artifact_verification<V>(
        begun: Result<V, ArtifactTransitionRepoError>,
    ) -> (r: Result<V, ApplicationError>)
        ensures
            match begun {
                Ok(value) => r == Ok::<V, ApplicationError>(value),
                Err(ArtifactTransitionRepoError::TransferNotFound(id)) => r == Err::<V, ApplicationError>(
                    ApplicationError::TransferNotFound(id),
                ),
                Err(ArtifactTransitionRepoError::Domain(fault)) => r == Err::<V, ApplicationError>(
                    ApplicationError::ArtifactTransition(fault),
                ),
                Err(ArtifactTransitionRepoError::Repository(fault)) => r == Err::<V, ApplicationError>(
                    ApplicationError::Repository(fault),
                ),
            },
    {
        match begun {
            Ok(value) => Ok(value),
            Err(error) => Err(ApplicationError::from(error)),
        }
    }

    /// Decides how a verification ends: by the locked artifact and whether the digest
    /// of the whole matched.
    pub fn decide_verification_end<
        E,
        F: FnOnce(&Artifact, bool) -> Result<Artifact, E>,
    >(facts: &TransferLockedFacts, digest_matches: bool, rule: F) -> (r: Result<Artifact, E>)
        requires
            call_requires(rule, (&facts.artifact, digest_matches)),
        ensures
            call_ensures(rule, (&facts.artifact, digest_matches), r),
    {
        rule(&facts.artifact, digest_matches)
    }

    /// What is told about an artifact whose verification was to end.
    pub fn complete_artifact_verification<V>(
        completed: Result<V, ArtifactTransitionRepoError>,
    ) -> (r: Result<V, ApplicationError>)
        ensures
            match completed {
                Ok(value) => r == Ok::<V, ApplicationError>(value),
                Err(ArtifactTransitionRepoError::TransferNotFound(id)) => r == Err::<V, ApplicationError>(
                    ApplicationError::TransferNotFound(id),
                ),
                Err(ArtifactTransitionRepoError::Domain(fault)) => r == Err::<V, ApplicationError>(
                    ApplicationError::ArtifactTransition(fault),
                ),
                Err(ArtifactTransitionRepoError::Repository(fault)) => r == Err::<V, ApplicationError>(
                    ApplicationError::Repository(fault),
                ),
            },
    {
        match completed {
            Ok(value) => Ok(value),
            Err(error) => Err(ApplicationError::from(error)),
        }
    }

    /// Decides whether the locked artifact fails while it is incomplete.
    pub fn decide_failure<
        E,
        F: FnOnce(&Artifact) -> Result<Artifact, E>,
    >(facts: &TransferLockedFacts, rule: F) -> (r: Result<Artifact, E>)
        requires
            call_requires(rule, (&facts.artifact,)),
        ensures
            call_ensures(rule, (&facts.artifact,), r),
    {
        rule(&facts.artifact)
    }

    /// What is told about an incomplete artifact that was to fail.
    pub fn fail_incomplete_artifact<V>(
        failed: Result<V, ArtifactTransitionRepoError>,
    ) -> (r: Result<V, ApplicationError>)
        ensures
            match failed {
                Ok(value) => r == Ok::<V, ApplicationError>(value),
                Err(ArtifactTransitionRepoError::TransferNotFound(id)) => r == Err::<V, ApplicationError>(
                    ApplicationError::TransferNotFound(id),
                ),
                Err(ArtifactTransitionRepoError::Domain(fault)) => r == Err::<V, ApplicationError>(
                    ApplicationError::ArtifactTransition(fault),
                ),
                Err(ArtifactTransitionRepoError::Repository(fault)) => r == Err::<V, ApplicationError>(
                    ApplicationError::Repository(fault),
                ),
            },
    {
        match failed {
            Ok(value) => Ok(value),
            Err(error) => Err(ApplicationError::from(error)),
        }
    }

    /// Decides whether the locked transfer is bound to this attempt.
    pub fn decide_binding<
        E,
        F: FnOnce(&Transfer, &Attempt) -> Result<Transfer, E>,
    >(facts: &TransferLockedFacts, attempt: &Attempt, rule: F) -> (r: Result<Transfer, E>)
        requires
            call_requires(rule, (&facts.transfer, attempt)),
        ensures
            call_ensures(rule, (&facts.transfer, attempt), r),
    {
        rule(&facts.transfer, attempt)
    }

    /// What is told about a transfer that was to be bound to its attempt.
    pub fn bind_attempt<V>(bound: Result<V, BindAttemptError>) -> (r: Result<V, ApplicationError>)
        ensures
            match bound {
                Ok(value) => r == Ok::<V, ApplicationError>(value),
                Err(BindAttemptError::TransferNotFound(id)) => r == Err::<V, ApplicationError>(
                    ApplicationError::TransferNotFound(id),
                ),
                Err(BindAttemptError::Domain(fault)) => r == Err::<V, ApplicationError>(
                    ApplicationError::TransferBinding(fault),
                ),
                Err(BindAttemptError::Repository(fault)) => r == Err::<V, ApplicationError>(
                    ApplicationError::Repository(fault),
                ),
            },
    {
        match bound {
            Ok(value) => Ok(value),
            Err(error) => Err(ApplicationError::from(error)),
        }
    }
}

/// A transfer is made of exactly what was asked for, each part in its place.
pub proof fn transfer_is_made_as_asked_for<
    T,
    V,
    F: FnOnce(
        EndpointId,
        JobId,
        JobStepId,
        TransferDirection,
        DigestAlgorithm,
        u32,
        String,
    ) -> V,
>(request: NewTransfer, rule: F, r: V)
    requires
        call_ensures(TransferService::<T>::construct_transfer_context::<V, F>, (request, rule), r),
    ensures
        call_ensures(
            rule,
            (
                request.endpoint_id,
                request.job_id,
                request.job_step_id,
                request.direction,
                request.digest_algorithm,
                request.chunk_size,
                request.source_provenance,
            ),
            r,
        ),
{
}

/// A transfer is told as it is exactly where it was persisted, and otherwise by the
/// reason why not.
pub proof fn new_transfer_is_told<T, V>(
    context: V,
    persisted: Result<(), CreateTransferError>,
    r: Result<V, ApplicationError>,
)
    requires
        call_ensures(TransferService::<T>::create_transfer_context::<V>, (context, persisted), r),
    ensures
        persisted is Ok <==> r is Ok,
        r matches Ok(told) ==> told == context,
        persisted matches Err(CreateTransferError::EndpointNotFound(id)) ==> r->Err_0
            == ApplicationError::EndpointNotFound(id),
        persisted matches Err(CreateTransferError::JobNotFound(id)) ==> r->Err_0
            == ApplicationError::JobNotFound(id),
        persisted matches Err(CreateTransferError::JobEndpointMismatch(job, endpoint)) ==> r->Err_0
            == ApplicationError::JobEndpointMismatch(job, endpoint),
        persisted matches Err(CreateTransferError::JobStepNotFound(step, job)) ==> r->Err_0
            == ApplicationError::JobStepNotFound(step, job),
        persisted matches Err(CreateTransferError::Repository(fault)) ==> r->Err_0
            == ApplicationError::Repository(fault),
{
}

/// A transfer that was looked for is told as it was found, or found missing.
pub proof fn found_transfer_is_told<T, V>(
    found: Result<Option<V>, RepositoryError>,
    r: Result<Option<V>, ApplicationError>,
)
    requires
        call_ensures(TransferService::<T>::find_transfer_context::<V>, (found,), r),
    ensures
        found is Ok <==> r is Ok,
        found matches Ok(context) ==> r->Ok_0 == context,
        found matches Err(fault) ==> r->Err_0 == ApplicationError::Repository(fault),
{
}

/// The locked manifest is asked about exactly the chunk, or the seal, that was brought;
/// its answer stands.
pub proof fn manifest_is_asked_about_what_was_brought<
    T,
    E,
    A: FnOnce(&ChunkManifest, u32, u32, Vec<u8>) -> Result<ChunkRecordOutcome, E>,
    B: FnOnce(&ChunkManifest, u32, &Vec<u8>) -> Result<(), E>,
    C: FnOnce(&ChunkManifest, u32, Vec<u8>) -> Result<SealOutcome, E>,
>(
    facts: TransferLockedFacts,
    index: u32,
    size: u32,
    digest: Vec<u8>,
    record: A,
    recorded: Result<ChunkRecordOutcome, E>,
    accept: B,
    accepted: Result<(), E>,
    seal: C,
    sealed: Result<SealOutcome, E>,
)
    requires
        call_ensures(
            TransferService::<T>::decide_expected_chunk::<E, A>,
            (&facts, index, size, digest, record),
            recorded,
        ),
        call_ensures(
            TransferService::<T>::decide_verified_chunk::<E, B>,
            (&facts, index, &digest, accept),
            accepted,
        ),
        call_ensures(
            TransferService::<T>::decide_seal::<E, C>,
            (&facts, size, digest, seal),
            sealed,
        ),
    ensures
        call_ensures(record, (&facts.manifest, index, size, digest), recorded),
        call_ensures(accept, (&facts.manifest, index, &digest), accepted),
        call_ensures(seal, (&facts.manifest, size, digest), sealed),
{
}

/// The locked artifact is asked with the locked manifest and the chunks that are held,
/// and with whether the digest matched; its answer stands.
pub proof fn artifact_is_asked_by_what_is_locked<
    T,
    E,
    A: FnOnce(&Artifact, &ChunkManifest, &Vec<u32>) -> Result<Artifact, E>,
    B: FnOnce(&Artifact, bool) -> Result<Artifact, E>,
    C: FnOnce(&Artifact) -> Result<Artifact, E>,
    D: FnOnce(&Transfer, &Attempt) -> Result<Transfer, E>,
>(
    facts: TransferLockedFacts,
    start: A,
    begun: Result<Artifact, E>,
    digest_matches: bool,
    end: B,
    completed: Result<Artifact, E>,
    fail: C,
    failed: Result<Artifact, E>,
    attempt: Attempt,
    bind: D,
    bound: Result<Transfer, E>,
)
    requires
        call_ensures(
            TransferService::<T>::decide_verification_start::<E, A>,
            (&facts, start),
            begun,
        ),
        call_ensures(
            TransferService::<T>::decide_verification_end::<E, B>,
            (&facts, digest_matches, end),
            completed,
        ),
        call_ensures(TransferService::<T>::decide_failure::<E, C>, (&facts, fail), failed),
        call_ensures(
            TransferService::<T>::decide_binding::<E, D>,
            (&facts, &attempt, bind),
            bound,
        ),
    ensures
        call_ensures(start, (&facts.artifact, &facts.manifest, &facts.held_chunk_indices), begun),
        call_ensures(end, (&facts.artifact, digest_matches), completed),
        call_ensures(fail, (&facts.artifact,), failed),
        call_ensures(bind, (&facts.transfer, &attempt), bound),
{
}

/// What became of an expected chunk is told by its reason.
pub proof fn recorded_chunk_is_told<T, V>(outcome: Result<V, RecordChunkError>, r: Result<V, ApplicationError>)
    requires
        call_ensures(TransferService::<T>::record_expected_chunk::<V>, (outcome,), r),
    ensures
        outcome is Ok <==> r is Ok,
        outcome matches Ok(value) ==> r->Ok_0 == value,
        outcome matches Err(RecordChunkError::TransferNotFound(id)) ==> r->Err_0
            == ApplicationError::TransferNotFound(id),
        outcome matches Err(RecordChunkError::Domain(fault)) ==> r->Err_0 == ApplicationError::ChunkRecord(
            fault,
        ),
        outcome matches Err(RecordChunkError::Repository(fault)) ==> r->Err_0
            == ApplicationError::Repository(fault),
{
}

/// What became of a verified chunk is told by its reason.
pub proof fn accepted_chunk_is_told<T, V>(outcome: Result<V, AcceptChunkError>, r: Result<V, ApplicationError>)
    requires
        call_ensures(TransferService::<T>::accept_verified_chunk::<V>, (outcome,), r),
    ensures
        outcome is Ok <==> r is Ok,
        outcome matches Ok(value) ==> r->Ok_0 == value,
        outcome matches Err(AcceptChunkError::TransferNotFound(id)) ==> r->Err_0
            == ApplicationError::TransferNotFound(id),
        outcome matches Err(AcceptChunkError::Domain(fault)) ==> r->Err_0 == ApplicationError::ChunkAccept(
            fault,
        ),
        outcome matches Err(AcceptChunkError::Repository(fault)) ==> r->Err_0
            == ApplicationError::Repository(fault),
{
}

/// What became of a seal is told by its reason.
pub proof fn seal_is_told<T, V>(outcome: Result<V, SealManifestError>, r: Result<V, ApplicationError>)
    requires
        call_ensures(TransferService::<T>::seal_manifest::<V>, (outcome,), r),
    ensures
        outcome is Ok <==> r is Ok,
        outcome matches Ok(value) ==> r->Ok_0 == value,
        outcome matches Err(SealManifestError::TransferNotFound(id)) ==> r->Err_0
            == ApplicationError::TransferNotFound(id),
        outcome matches Err(SealManifestError::Domain(fault)) ==> r->Err_0 == ApplicationError::Seal(
            fault,
        ),
        outcome matches Err(SealManifestError::Repository(fault)) ==> r->Err_0
            == ApplicationError::Repository(fault),
{
}

/// What became of the beginning of a verification is told by its reason.
pub proof fn begun_verification_is_told<T, V>(outcome: Result<V, ArtifactTransitionRepoError>, r: Result<V, ApplicationError>)
    requires
        call_ensures(TransferService::<T>::begin_artifact_verification::<V>, (outcome,), r),
    ensures
        outcome is Ok <==> r is Ok,
        outcome matches Ok(value) ==> r->Ok_0 == value,
        outcome matches Err(ArtifactTransitionRepoError::TransferNotFound(id)) ==> r->Err_0
            == ApplicationError::TransferNotFound(id),
        outcome matches Err(ArtifactTransitionRepoError::Domain(fault)) ==> r->Err_0 == ApplicationError::ArtifactTransition(
            fault,
        ),
        outcome matches Err(ArtifactTransitionRepoError::Repository(fault)) ==> r->Err_0
            == ApplicationError::Repository(fault),
{
}

/// What became of the end of a verification is told by its reason.
pub proof fn completed_verification_is_told<T, V>(outcome: Result<V, ArtifactTransitionRepoError>, r: Result<V, ApplicationError>)
    requires
        call_ensures(TransferService::<T>::complete_artifact_verification::<V>, (outcome,), r),
    ensures
        outcome is Ok <==> r is Ok,
        outcome matches Ok(value) ==> r->Ok_0 == value,
        outcome matches Err(ArtifactTransitionRepoError::TransferNotFound(id)) ==> r->Err_0
            == ApplicationError::TransferNotFound(id),
        outcome matches Err(ArtifactTransitionRepoError::Domain(fault)) ==> r->Err_0 == ApplicationError::ArtifactTransition(
            fault,
        ),
        outcome matches Err(ArtifactTransitionRepoError::Repository(fault)) ==> r->Err_0
            == ApplicationError::Repository(fault),
{
}

/// What became of an incomplete artifact that was to fail is told by its reason.
pub proof fn failed_artifact_is_told<T, V>(outcome: Result<V, ArtifactTransitionRepoError>, r: Result<V, ApplicationError>)
    requires
        call_ensures(TransferService::<T>::fail_incomplete_artifact::<V>, (outcome,), r),
    ensures
        outcome is Ok <==> r is Ok,
        outcome matches Ok(value) ==> r->Ok_0 == value,
        outcome matches Err(ArtifactTransitionRepoError::TransferNotFound(id)) ==> r->Err_0
            == ApplicationError::TransferNotFound(id),
        outcome matches Err(ArtifactTransitionRepoError::Domain(fault)) ==> r->Err_0 == ApplicationError::ArtifactTransition(
            fault,
        ),
        outcome matches Err(ArtifactTransitionRepoError::Repository(fault)) ==> r->Err_0
            == ApplicationError::Repository(fault),
{
}

/// What became of a binding is told by its reason.
pub proof fn binding_is_told<T, V>(outcome: Result<V, BindAttemptError>, r: Result<V, ApplicationError>)
    requires
        call_ensures(TransferService::<T>::bind_attempt::<V>, (outcome,), r),
    ensures
        outcome is Ok <==> r is Ok,
        outcome matches Ok(value) ==> r->Ok_0 == value,
        outcome matches Err(BindAttemptError::TransferNotFound(id)) ==> r->Err_0
            == ApplicationError::TransferNotFound(id),
        outcome matches Err(BindAttemptError::Domain(fault)) ==> r->Err_0 == ApplicationError::TransferBinding(
            fault,
        ),
        outcome matches Err(BindAttemptError::Repository(fault)) ==> r->Err_0
            == ApplicationError::Repository(fault),
{
}

} // verus!
