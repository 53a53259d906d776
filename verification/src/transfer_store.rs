//! Transfers as they are stored: reading one with its artifact and manifest under
//! one lock, and what is written when a decision was made.
//!
//! The manifest is not read as such. It is built again, chunk by chunk, by the
//! rules that let each chunk in, and sealed again last: a sealed manifest takes
//! no chunk any more.

use vstd::prelude::*;
use crate::authorization::{
    self, AuthorizationDurableState, ResumeAuthorizationOutcome, TransferAuthorizationService,
};
use crate::bytes::copy_bytes;
use crate::chunk_acceptance::{ChunkRecordError, ChunkRecordOutcome};
use crate::errors::{
    AcceptChunkError, ApplicationError, ArtifactTransitionRepoError, BindAttemptError,
    CreateTransferError, DomainFault, RecordChunkError, RepositoryError, SealManifestError,
};
use crate::ids::{ArtifactId, AttemptId, EndpointId, JobId, JobStepId, TransferId};
use crate::manifest_seal::{SealError, SealOutcome};
use crate::model::{
    self, Artifact, ArtifactState, Attempt, CaptureConsistency, ChunkManifest, Digest,
    DigestAlgorithm, EndpointAggregate, ExpectedChunk, Transfer, TransferDirection,
    TransferLockedFacts,
};
use crate::text::{self, append_identity};

verus! {

/// A transfer as it is read.
#[derive(Debug)]
pub struct TransferRow {
    pub endpoint_id: u128,
    pub job_id: u128,
    pub job_step_id: u128,
    pub artifact_id: u128,
    pub direction: TransferDirection,
    pub digest_algorithm: DigestAlgorithm,
    pub chunk_size: i32,
    pub source_provenance: String,
    pub attempt_id: Option<u128>,
}

/// An artifact as it is read.
#[derive(Clone, Copy, Debug, PartialEq, Eq, Structural)]
pub struct ArtifactRow {
    pub state: ArtifactState,
    pub capture_consistency: CaptureConsistency,
}

/// A manifest as it is read, its chunks aside.
#[derive(Debug)]
pub struct ManifestRow {
    pub sealed: bool,
    pub chunk_count: Option<i32>,
    pub artifact_digest: Option<Vec<u8>>,
}

/// A chunk as it is read.
#[derive(Debug)]
pub struct ChunkRow {
    pub chunk_index: i32,
    pub size: i32,
    pub digest: Vec<u8>,
    pub held: bool,
}

/// The transfer in a row.
pub open spec fn transfer_of(id: TransferId, row: TransferRow) -> Transfer {
    Transfer {
        id,
        endpoint_id: EndpointId(row.endpoint_id),
        job_id: JobId(row.job_id),
        job_step_id: JobStepId(row.job_step_id),
        artifact_id: ArtifactId(row.artifact_id),
        direction: row.direction,
        digest_algorithm: row.digest_algorithm,
        chunk_size: row.chunk_size as u32,
        source_provenance: row.source_provenance,
        attempt_id: match row.attempt_id {
            Some(id) => Some(AttemptId(id)),
            None => None,
        },
    }
}

/// Reads a transfer. `size_allowed` is the ruling on its chunk size.
pub fn read_transfer(id: TransferId, row: TransferRow, size_allowed: bool) -> (r: Result<
    Transfer,
    RepositoryError,
>)
    ensures
        if size_allowed {
            r == Ok::<Transfer, RepositoryError>(transfer_of(id, row))
        } else {
            r matches Err(error) && error.text()
                == "persisted transfer has a non-positive chunk_size"@
        },
{
    if !size_allowed {
        return Err(RepositoryError::backend("persisted transfer has a non-positive chunk_size"));
    }
    Ok(
        Transfer {
            id,
            endpoint_id: EndpointId(row.endpoint_id),
            job_id: JobId(row.job_id),
            job_step_id: JobStepId(row.job_step_id),
            artifact_id: ArtifactId(row.artifact_id),
            direction: row.direction,
            digest_algorithm: row.digest_algorithm,
            chunk_size: row.chunk_size as u32,
            source_provenance: row.source_provenance,
            attempt_id: match row.attempt_id {
                Some(id) => Some(AttemptId(id)),
                None => None,
            },
        },
    )
}

/// Puts an index in its place, unless it is there already.
pub fn insert_index(indices: &mut Vec<u32>, index: u32)
    requires
        model::strictly_ascending(old(indices)@),
    ensures
        model::strictly_ascending(final(indices)@),
        forall|x: u32| #[trigger]
            final(indices)@.contains(x) <==> (old(indices)@.contains(x) || x == index),
{
    let mut at: usize = 0;
    while at < indices.len() && indices[at] < index
        invariant
            at <= indices@.len(),
            indices@ == old(indices)@,
            forall|i: int| 0 <= i < at ==> indices@[i] < index,
        decreases indices@.len() - at,
    {
        at = at + 1;
    }
    let ghost before = indices@;
    if at < indices.len() && indices[at] == index {
        assert(before[at as int] == index);
        return ;
    }
    indices.insert(at, index);
    proof {
        let after = indices@;
        assert(after =~= before.insert(at as int, index));
        assert(after[at as int] == index);
        assert forall|x: u32| #[trigger] after.contains(x) <==> (before.contains(x) || x == index) by {
            if before.contains(x) {
                let i = choose|i: int| 0 <= i < before.len() && before[i] == x;
                if i < at {
                    assert(after[i] == x);
                } else {
                    assert(after[i + 1] == x);
                }
            }
            if after.contains(x) && x != index {
                let i = choose|i: int| 0 <= i < after.len() && after[i] == x;
                if i < at {
                    assert(before[i] == x);
                } else {
                    assert(before[i - 1] == x);
                }
            }
        }
    }
}

/// The manifest before any chunk was recorded.
pub open spec fn is_blank(manifest: ChunkManifest, transfer: Transfer) -> bool {
    &&& manifest.artifact_id == transfer.artifact_id
    &&& manifest.digest_algorithm == transfer.digest_algorithm
    &&& manifest.chunk_size == transfer.chunk_size
    &&& !manifest.sealed
    &&& manifest.chunk_count is None
    &&& manifest.artifact_digest is None
    &&& manifest.chunks@.len() == 0
}

fn blank_manifest(transfer: &Transfer) -> (r: ChunkManifest)
    ensures
        is_blank(r, *transfer),
{
    ChunkManifest {
        artifact_id: transfer.artifact_id,
        digest_algorithm: transfer.digest_algorithm,
        chunk_size: transfer.chunk_size,
        sealed: false,
        chunk_count: None,
        artifact_digest: None,
        chunks: Vec::new(),
    }
}

/// Recording the chunk of `row` in `from` gives `to`, by the rules in `record`.
pub open spec fn recorded_into<
    F: Fn(&ChunkManifest, u32, u32, &Vec<u8>) -> Result<ChunkRecordOutcome, ChunkRecordError>,
>(record: F, row: ChunkRow, from: ChunkManifest, to: ChunkManifest) -> bool {
    call_ensures(
        record,
        (&from, row.chunk_index as u32, row.size as u32, &row.digest),
        Ok(ChunkRecordOutcome::Added(to)),
    )
}

/// Recording all rows in their order, from `from` on, gives `to`.
pub open spec fn replays_to<
    F: Fn(&ChunkManifest, u32, u32, &Vec<u8>) -> Result<ChunkRecordOutcome, ChunkRecordError>,
>(record: F, rows: Seq<ChunkRow>, from: ChunkManifest, to: ChunkManifest) -> bool
    decreases rows.len(),
{
    if rows.len() == 0 {
        from == to
    } else {
        exists|mid: ChunkManifest|
            replays_to(record, rows.drop_last(), from, mid) && #[trigger] recorded_into(
                record,
                rows.last(),
                mid,
                to,
            )
    }
}

/// The rules refuse the chunk of `rows[at]`, all before it having been recorded.
pub open spec fn refuses_at<
    F: Fn(&ChunkManifest, u32, u32, &Vec<u8>) -> Result<ChunkRecordOutcome, ChunkRecordError>,
>(record: F, rows: Seq<ChunkRow>, from: ChunkManifest, at: int) -> bool {
    &&& 0 <= at < rows.len()
    &&& exists|mid: ChunkManifest, outcome: Result<ChunkRecordOutcome, ChunkRecordError>|
        replays_to(record, rows.take(at), from, mid) && #[trigger] call_ensures(
            record,
            (
                &mid,
                rows[at].chunk_index as u32,
                rows[at].size as u32,
                &rows[at].digest,
            ),
            outcome,
        ) && !(outcome matches Ok(ChunkRecordOutcome::Added(_)))
}

/// The indices are those of the held chunks, ascending.
pub open spec fn holds_held(rows: Seq<ChunkRow>, indices: Seq<u32>) -> bool {
    &&& model::strictly_ascending(indices)
    &&& forall|x: u32| #[trigger]
        indices.contains(x) <==> exists|i: int|
            0 <= i < rows.len() && (#[trigger] rows[i]).held && rows[i].chunk_index as u32 == x
}

/// Builds the manifest again from its chunks, and collects the held ones. A row
/// that the rules would not let in is a fault of the storage.
pub fn replay_chunks<
    F: Fn(&ChunkManifest, u32, u32, &Vec<u8>) -> Result<ChunkRecordOutcome, ChunkRecordError>,
>(blank: ChunkManifest, rows: &Vec<ChunkRow>, record: &F) -> (r: Result<
    (ChunkManifest, Vec<u32>),
    RepositoryError,
>)
    requires
        forall|manifest: ChunkManifest, index: u32, size: u32, digest: Vec<u8>| #[trigger]
            call_requires(*record, (&manifest, index, size, &digest)),
    ensures
        match r {
            Ok((manifest, held)) => replays_to(*record, rows@, blank, manifest) && holds_held(
                rows@,
                held@,
            ),
            Err(error) => {
                &&& error.text()
                    == "persisted chunk identities could not be reconstructed into a manifest"@
                &&& exists|at: int| refuses_at(*record, rows@, blank, at)
            },
        },
{
    let mut manifest = blank;
    let mut held: Vec<u32> = Vec::new();
    let mut i: usize = 0;
    while i < rows.len()
        invariant
            i <= rows@.len(),
            forall|manifest: ChunkManifest, index: u32, size: u32, digest: Vec<u8>| #[trigger]
                call_requires(*record, (&manifest, index, size, &digest)),
            replays_to(*record, rows@.take(i as int), blank, manifest),
            holds_held(rows@.take(i as int), held@),
        decreases rows@.len() - i,
    {
        let row = &rows[i];
        let index: u32 = row.chunk_index as u32;
        let outcome = record(&manifest, index, row.size as u32, &row.digest);
        match outcome {
            Ok(ChunkRecordOutcome::Added(next)) => {
                proof {
                    let done = rows@.take(i + 1);
                    assert(done.drop_last() =~= rows@.take(i as int));
                    assert(recorded_into(*record, done.last(), manifest, next));
                    assert(replays_to(*record, done, blank, next));
                }
                manifest = next;
            },
            _ => {
                assert(refuses_at(*record, rows@, blank, i as int));
                return Err(
                    RepositoryError::backend(
                        "persisted chunk identities could not be reconstructed into a manifest",
                    ),
                );
            },
        }
        let ghost before = held@;
        if row.held {
            insert_index(&mut held, index);
        }
        proof {
            let earlier = rows@.take(i as int);
            let done = rows@.take(i + 1);
            assert forall|x: u32| #[trigger] held@.contains(x) <==> exists|k: int|
                0 <= k < done.len() && (#[trigger] done[k]).held && done[k].chunk_index as u32
                    == x by {
                if before.contains(x) {
                    let k = choose|k: int|
                        0 <= k < earlier.len() && (#[trigger] earlier[k]).held
                            && earlier[k].chunk_index as u32 == x;
                    assert(done[k] == earlier[k]);
                }
                if exists|k: int|
                    0 <= k < done.len() && (#[trigger] done[k]).held && done[k].chunk_index as u32
                        == x {
                    let k = choose|k: int|
                        0 <= k < done.len() && (#[trigger] done[k]).held
                            && done[k].chunk_index as u32 == x;
                    if k < i {
                        assert(earlier[k] == done[k]);
                        assert(before.contains(x));
                    }
                }
                if row.held && x == index {
                    assert(done[i as int] == *row);
                }
            }
        }
        i = i + 1;
    }
    assert(rows@.take(i as int) =~= rows@);
    Ok((manifest, held))
}

/// What sealing the manifest again comes to, by the rules in `seal`.
pub open spec fn resealed_as<
    G: FnOnce(&ChunkManifest, u32, &Vec<u8>) -> Result<SealOutcome, SealError>,
>(
    manifest: ChunkManifest,
    row: ManifestRow,
    seal: G,
    r: Result<ChunkManifest, RepositoryError>,
) -> bool {
    if !row.sealed {
        r == Ok::<ChunkManifest, RepositoryError>(manifest)
    } else {
        match (row.chunk_count, row.artifact_digest) {
            (None, _) => r matches Err(error) && error.text()
                == "sealed manifest is missing its durable chunk_count"@,
            (_, None) => r matches Err(error) && error.text()
                == "sealed manifest is missing its durable artifact_digest"@,
            (Some(count), Some(digest)) => exists|outcome: Result<SealOutcome, SealError>|
                #[trigger] call_ensures(seal, (&manifest, count as u32, &digest), outcome)
                    && match outcome {
                    Ok(SealOutcome::Sealed(sealed)) => r == Ok::<ChunkManifest, RepositoryError>(
                        sealed,
                    ),
                    _ => r matches Err(error) && error.text()
                        == "persisted sealed manifest facts could not be reconstructed"@,
                },
        }
    }
}

/// Seals the manifest again, where it was sealed.
pub fn reseal<G: FnOnce(&ChunkManifest, u32, &Vec<u8>) -> Result<SealOutcome, SealError>>(
    manifest: ChunkManifest,
    row: ManifestRow,
    seal: G,
) -> (r: Result<ChunkManifest, RepositoryError>)
    requires
        forall|count: u32, digest: Vec<u8>| #[trigger]
            call_requires(seal, (&manifest, count, &digest)),
    ensures
        resealed_as(manifest, row, seal, r),
{
    if !row.sealed {
        return Ok(manifest);
    }
    let count: i32 = match row.chunk_count {
        Some(count) => count,
        None => {
            return Err(
                RepositoryError::backend("sealed manifest is missing its durable chunk_count"),
            );
        },
    };
    let digest = match row.artifact_digest {
        Some(digest) => digest,
        None => {
            return Err(
                RepositoryError::backend("sealed manifest is missing its durable artifact_digest"),
            );
        },
    };
    let outcome = seal(&manifest, count as u32, &digest);
    match outcome {
        Ok(SealOutcome::Sealed(sealed)) => Ok(sealed),
        _ => Err(
            RepositoryError::backend(
                "persisted sealed manifest facts could not be reconstructed",
            ),
        ),
    }
}

/// Everything stored about one transfer, read behind the lock of its own row.
#[derive(Debug)]
pub struct TransferRows {
    pub transfer: TransferRow,
    pub artifact: ArtifactRow,
    pub manifest: ManifestRow,
    /// Ascending by index.
    pub chunks: Vec<ChunkRow>,
}

/// What the rows of a transfer give. `size_allowed` is the ruling on its chunk size;
/// `record` and `seal` are the manifest's own rules.
pub open spec fn facts_read<
    F: Fn(&ChunkManifest, u32, u32, &Vec<u8>) -> Result<ChunkRecordOutcome, ChunkRecordError>,
    G: FnOnce(&ChunkManifest, u32, &Vec<u8>) -> Result<SealOutcome, SealError>,
>(
    id: TransferId,
    rows: TransferRows,
    size_allowed: bool,
    record: F,
    seal: G,
    r: Result<TransferLockedFacts, RepositoryError>,
) -> bool {
    if !size_allowed {
        r matches Err(error) && error.text()
            == "persisted transfer has a non-positive chunk_size"@
    } else {
        exists|blank: ChunkManifest| #[trigger]
            is_blank(blank, transfer_of(id, rows.transfer)) && match r {
                Ok(facts) => {
                    &&& facts.transfer == transfer_of(id, rows.transfer)
                    &&& facts.artifact == (Artifact {
                        id: ArtifactId(rows.transfer.artifact_id),
                        state: rows.artifact.state,
                        capture_consistency: rows.artifact.capture_consistency,
                    })
                    &&& holds_held(rows.chunks@, facts.held_chunk_indices@)
                    &&& exists|open: ChunkManifest| #[trigger]
                        replays_to(record, rows.chunks@, blank, open) && resealed_as(
                            open,
                            rows.manifest,
                            seal,
                            Ok::<ChunkManifest, RepositoryError>(facts.manifest),
                        )
                },
                Err(error) => {
                    ||| {
                        &&& error.text()
                            == "persisted chunk identities could not be reconstructed into a manifest"@
                        &&& exists|at: int| refuses_at(record, rows.chunks@, blank, at)
                    }
                    ||| exists|open: ChunkManifest| #[trigger]
                        replays_to(record, rows.chunks@, blank, open) && resealed_as(
                            open,
                            rows.manifest,
                            seal,
                            Err::<ChunkManifest, RepositoryError>(error),
                        )
                },
            }
    }
}

fn read_locked_facts<
    F: Fn(&ChunkManifest, u32, u32, &Vec<u8>) -> Result<ChunkRecordOutcome, ChunkRecordError>,
    G: FnOnce(&ChunkManifest, u32, &Vec<u8>) -> Result<SealOutcome, SealError>,
>(id: TransferId, rows: TransferRows, size_allowed: bool, record: F, seal: G) -> (r: Result<
    TransferLockedFacts,
    RepositoryError,
>)
    requires
        forall|manifest: ChunkManifest, index: u32, size: u32, digest: Vec<u8>| #[trigger]
            call_requires(record, (&manifest, index, size, &digest)),
        forall|manifest: ChunkManifest, count: u32, digest: Vec<u8>| #[trigger]
            call_requires(seal, (&manifest, count, &digest)),
    ensures
        facts_read(id, rows, size_allowed, record, seal, r),
{
    let artifact = Artifact {
        id: ArtifactId(rows.transfer.artifact_id),
        state: rows.artifact.state,
        capture_consistency: rows.artifact.capture_consistency,
    };
    let transfer = match read_transfer(id, rows.transfer, size_allowed) {
        Ok(transfer) => transfer,
        Err(error) => {
            return Err(error);
        },
    };
    let blank = blank_manifest(&transfer);
    let ghost start = blank;
    assert(is_blank(start, transfer_of(id, rows.transfer)));
    let (open, held_chunk_indices) = match replay_chunks(blank, &rows.chunks, &record) {
        Ok(replayed) => replayed,
        Err(error) => {
            return Err(error);
        },
    };
    assert(replays_to(record, rows.chunks@, start, open));
    match reseal(open, rows.manifest, seal) {
        Ok(manifest) => Ok(
            TransferLockedFacts { transfer, artifact, manifest, held_chunk_indices },
        ),
        Err(error) => Err(error),
    }
}

/// Puts together everything durable about a transfer, where it is there at all.
/// `allowed` rules on its chunk size; `record` and `seal` are the manifest's own
/// rules.
pub fn load_locked_facts<
    Z: FnOnce(u32) -> bool,
    F: Fn(&ChunkManifest, u32, u32, &Vec<u8>) -> Result<ChunkRecordOutcome, ChunkRecordError>,
    G: FnOnce(&ChunkManifest, u32, &Vec<u8>) -> Result<SealOutcome, SealError>,
>(id: TransferId, found: Option<TransferRows>, allowed: Z, record: F, seal: G) -> (r: Result<
    Option<TransferLockedFacts>,
    RepositoryError,
>)
    requires
        found matches Some(rows) ==> call_requires(allowed, (rows.transfer.chunk_size as u32,)),
        forall|manifest: ChunkManifest, index: u32, size: u32, digest: Vec<u8>| #[trigger]
            call_requires(record, (&manifest, index, size, &digest)),
        forall|manifest: ChunkManifest, count: u32, digest: Vec<u8>| #[trigger]
            call_requires(seal, (&manifest, count, &digest)),
    ensures
        match found {
            None => r == Ok::<Option<TransferLockedFacts>, RepositoryError>(None),
            Some(rows) => exists|size_allowed: bool| #[trigger]
                call_ensures(allowed, (rows.transfer.chunk_size as u32,), size_allowed) && (
                match r {
                    Ok(facts) => facts matches Some(facts) && facts_read(
                        id,
                        rows,
                        size_allowed,
                        record,
                        seal,
                        Ok::<TransferLockedFacts, RepositoryError>(facts),
                    ),
                    Err(error) => facts_read(
                        id,
                        rows,
                        size_allowed,
                        record,
                        seal,
                        Err::<TransferLockedFacts, RepositoryError>(error),
                    ),
                }),
        },
{
    match found {
        None => Ok(None),
        Some(rows) => {
            let size_allowed = allowed(rows.transfer.chunk_size as u32);
            match read_locked_facts(id, rows, size_allowed, record, seal) {
                Ok(facts) => Ok(Some(facts)),
                Err(error) => Err(error),
            }
        },
    }
}

/// A transfer as it is first written, its artifact before it and its open
/// manifest behind it.
#[derive(Debug)]
pub struct NewTransferRows {
    pub artifact_id: u128,
    pub artifact: ArtifactRow,
    pub id: u128,
    pub transfer: TransferRow,
}

/// The rows are those of the transfer and the artifact.
pub open spec fn holds_transfer(
    rows: NewTransferRows,
    transfer: Transfer,
    artifact: Artifact,
) -> bool {
    &&& rows.artifact_id == artifact.id.0
    &&& rows.artifact == (ArtifactRow {
        state: artifact.state,
        capture_consistency: artifact.capture_consistency,
    })
    &&& rows.id == transfer.id.0
    &&& rows.transfer.endpoint_id == transfer.endpoint_id.0
    &&& rows.transfer.job_id == transfer.job_id.0
    &&& rows.transfer.job_step_id == transfer.job_step_id.0
    &&& rows.transfer.artifact_id == transfer.artifact_id.0
    &&& rows.transfer.direction == transfer.direction
    &&& rows.transfer.digest_algorithm == transfer.digest_algorithm
    &&& rows.transfer.chunk_size == transfer.chunk_size as i32
    &&& rows.transfer.source_provenance@ == transfer.source_provenance@
    &&& rows.transfer.attempt_id == (match transfer.attempt_id {
        Some(id) => Some(id.0),
        None => None,
    })
}

/// A new transfer whose endpoint is known to exist.
#[derive(Debug)]
pub struct TransferWithEndpoint {
    pub transfer: Transfer,
    pub artifact: Artifact,
}

/// A new transfer whose job is known to be the endpoint's.
#[derive(Debug)]
pub struct TransferWithJob {
    pub transfer: Transfer,
    pub artifact: Artifact,
}

/// Begins a new transfer, whose endpoint has to exist.
pub fn create_transfer_context(transfer: Transfer, artifact: Artifact, endpoint_exists: bool) -> (r:
    Result<TransferWithEndpoint, CreateTransferError>)
    ensures
        r == (if endpoint_exists {
            Ok::<TransferWithEndpoint, CreateTransferError>(
                TransferWithEndpoint { transfer, artifact },
            )
        } else {
            Err::<TransferWithEndpoint, CreateTransferError>(
                CreateTransferError::EndpointNotFound(transfer.endpoint_id),
            )
        }),
{
    if endpoint_exists {
        Ok(TransferWithEndpoint { transfer, artifact })
    } else {
        Err(CreateTransferError::EndpointNotFound(transfer.endpoint_id))
    }
}

impl TransferWithEndpoint {
    /// The job has to exist, and to be the endpoint's.
    pub fn with_job(self, job_endpoint_id: Option<u128>) -> (r: Result<
        TransferWithJob,
        CreateTransferError,
    >)
        ensures
            r == (match job_endpoint_id {
                None => Err::<TransferWithJob, CreateTransferError>(
                    CreateTransferError::JobNotFound(self.transfer.job_id),
                ),
                Some(id) => if id == self.transfer.endpoint_id.0 {
                    Ok::<TransferWithJob, CreateTransferError>(
                        TransferWithJob { transfer: self.transfer, artifact: self.artifact },
                    )
                } else {
                    Err::<TransferWithJob, CreateTransferError>(
                        CreateTransferError::JobEndpointMismatch(
                            self.transfer.job_id,
                            self.transfer.endpoint_id,
                        ),
                    )
                },
            }),
    {
        match job_endpoint_id {
            None => Err(CreateTransferError::JobNotFound(self.transfer.job_id)),
            Some(id) => if id == self.transfer.endpoint_id.0 {
                Ok(TransferWithJob { transfer: self.transfer, artifact: self.artifact })
            } else {
                Err(
                    CreateTransferError::JobEndpointMismatch(
                        self.transfer.job_id,
                        self.transfer.endpoint_id,
                    ),
                )
            },
        }
    }
}

impl TransferWithJob {
    /// The step has to be the job's; then the transfer is written.
    pub fn with_step(self, step_exists: bool) -> (r: Result<NewTransferRows, CreateTransferError>)
        ensures
            if step_exists {
                r matches Ok(rows) && holds_transfer(rows, self.transfer, self.artifact)
            } else {
                r == Err::<NewTransferRows, CreateTransferError>(
                    CreateTransferError::JobStepNotFound(
                        self.transfer.job_step_id,
                        self.transfer.job_id,
                    ),
                )
            },
    {
        if !step_exists {
            return Err(
                CreateTransferError::JobStepNotFound(
                    self.transfer.job_step_id,
                    self.transfer.job_id,
                ),
            );
        }
        let transfer = self.transfer;
        Ok(
            NewTransferRows {
                artifact_id: self.artifact.id.0,
                artifact: ArtifactRow {
                    state: self.artifact.state,
                    capture_consistency: self.artifact.capture_consistency,
                },
                id: transfer.id.0,
                transfer: TransferRow {
                    endpoint_id: transfer.endpoint_id.0,
                    job_id: transfer.job_id.0,
                    job_step_id: transfer.job_step_id.0,
                    artifact_id: transfer.artifact_id.0,
                    direction: transfer.direction,
                    digest_algorithm: transfer.digest_algorithm,
                    chunk_size: transfer.chunk_size as i32,
                    source_provenance: transfer.source_provenance,
                    attempt_id: match transfer.attempt_id {
                        Some(id) => Some(id.0),
                        None => None,
                    },
                },
            },
        )
    }
}

/// A number that is written as a signed column reads back as the number it was.
proof fn column_keeps_the_number(value: u32)
    ensures
        (value as i32) as u32 == value,
{
    assert((value as i32) as u32 == value) by (bit_vector);
}

/// A transfer that is written reads back as the transfer it was.
pub proof fn transfer_survives_storage(
    transfer: Transfer,
    artifact: Artifact,
    rows: NewTransferRows,
)
    requires
        holds_transfer(rows, transfer, artifact),
    ensures
        ({
            let read = transfer_of(TransferId(rows.id), rows.transfer);
            &&& read.id == transfer.id
            &&& read.endpoint_id == transfer.endpoint_id
            &&& read.job_id == transfer.job_id
            &&& read.job_step_id == transfer.job_step_id
            &&& read.artifact_id == transfer.artifact_id
            &&& read.direction == transfer.direction
            &&& read.digest_algorithm == transfer.digest_algorithm
            &&& read.chunk_size == transfer.chunk_size
            &&& read.source_provenance@ == transfer.source_provenance@
            &&& read.attempt_id == transfer.attempt_id
        }),
{
    column_keeps_the_number(transfer.chunk_size);
}

/// A chunk as it is first written; it is not held yet.
#[derive(Debug)]
pub struct NewChunkRow {
    pub artifact_id: u128,
    pub chunk_index: i32,
    pub size: i32,
    pub digest: Vec<u8>,
}

/// The row is the chunk's.
pub open spec fn holds_chunk(row: NewChunkRow, artifact_id: ArtifactId, chunk: ExpectedChunk) -> bool {
    &&& row.artifact_id == artifact_id.0
    &&& row.chunk_index == chunk.index as i32
    &&& row.size == chunk.size as i32
    &&& row.digest@ == chunk.digest.bytes@
}

/// The chunk at `at` is the first of the manifest's chunks that `known` does not
/// expect.
pub open spec fn is_first_new(manifest: ChunkManifest, known: ChunkManifest, at: int) -> bool {
    &&& 0 <= at < manifest.chunks@.len()
    &&& !known.expects(manifest.chunks@[at].index)
    &&& forall|i: int| 0 <= i < at ==> known.expects((#[trigger] manifest.chunks@[i]).index)
}

/// The row that a decision about an expected chunk adds: that of the chunk which
/// the locked manifest did not have. A chunk that was there already adds none.
pub fn record_expected_chunk(facts: &TransferLockedFacts, outcome: &ChunkRecordOutcome) -> (r:
    Result<Option<NewChunkRow>, RepositoryError>)
    ensures
        match outcome {
            ChunkRecordOutcome::AlreadyRecorded => r == Ok::<Option<NewChunkRow>, RepositoryError>(
                None,
            ),
            ChunkRecordOutcome::Added(manifest) => match r {
                Ok(row) => exists|at: int| #[trigger]
                    is_first_new(*manifest, facts.manifest, at) && {
                        &&& row matches Some(row)
                        &&& holds_chunk(row, facts.artifact.id, manifest.chunks@[at])
                    },
                Err(error) => {
                    &&& error.text() == "decided manifest added no chunk relative to locked facts"@
                    &&& forall|i: int|
                        0 <= i < manifest.chunks@.len() ==> facts.manifest.expects(
                            (#[trigger] manifest.chunks@[i]).index,
                        )
                },
            },
        },
{
    let manifest = match outcome {
        ChunkRecordOutcome::AlreadyRecorded => {
            return Ok(None);
        },
        ChunkRecordOutcome::Added(manifest) => manifest,
    };
    let mut at: usize = 0;
    while at < manifest.chunks.len()
        invariant
            at <= manifest.chunks@.len(),
            *outcome == ChunkRecordOutcome::Added(*manifest),
            forall|i: int|
                0 <= i < at ==> facts.manifest.expects((#[trigger] manifest.chunks@[i]).index),
        decreases manifest.chunks@.len() - at,
    {
        let chunk = &manifest.chunks[at];
        if facts.manifest.expected_chunk(chunk.index).is_none() {
            assert(is_first_new(*manifest, facts.manifest, at as int));
            return Ok(
                Some(
                    NewChunkRow {
                        artifact_id: facts.artifact.id.0,
                        chunk_index: chunk.index as i32,
                        size: chunk.size as i32,
                        digest: copy_bytes(&chunk.digest.bytes),
                    },
                ),
            );
        }
        at = at + 1;
    }
    Err(RepositoryError::backend("decided manifest added no chunk relative to locked facts"))
}

/// What a stored chunk hands to the manifest's rules when it is read back is what
/// they had let in.
pub proof fn chunk_survives_storage(
    artifact_id: ArtifactId,
    chunk: ExpectedChunk,
    written: NewChunkRow,
    read: ChunkRow,
)
    requires
        holds_chunk(written, artifact_id, chunk),
        read.chunk_index == written.chunk_index,
        read.size == written.size,
        read.digest@ == written.digest@,
    ensures
        read.chunk_index as u32 == chunk.index,
        read.size as u32 == chunk.size,
        read.digest@ == chunk.digest.bytes@,
{
    column_keeps_the_number(chunk.index);
    column_keeps_the_number(chunk.size);
}

/// A chunk whose row was marked as held is among the held ones when the rows are
/// read back.
pub proof fn accepted_chunk_is_held_from_now_on(
    rows: Seq<ChunkRow>,
    at: int,
    index: u32,
    held: Seq<u32>,
)
    requires
        0 <= at < rows.len(),
        rows[at].chunk_index == index as i32,
        rows[at].held,
        holds_held(rows, held),
    ensures
        held.contains(index),
{
    column_keeps_the_number(index);
    assert(rows[at].held && rows[at].chunk_index as u32 == index);
}

/// What became of a chunk that was verified.
#[derive(Clone, Copy, Debug, PartialEq, Eq, Structural)]
pub enum AcceptChunkOutcome {
    /// It is marked as held, and that is committed.
    Accepted,
    /// It was held already; nothing is written.
    AlreadyHeld,
}

/// Whether an index is among those of the held chunks.
pub fn is_held(held: &Vec<u32>, index: u32) -> (r: bool)
    ensures
        r == held@.contains(index),
{
    let mut i: usize = 0;
    while i < held.len()
        invariant
            i <= held@.len(),
            forall|j: int| 0 <= j < i ==> held@[j] != index,
        decreases held@.len() - i,
    {
        if held[i] == index {
            assert(held@[i as int] == index);
            return true;
        }
        i = i + 1;
    }
    false
}

/// Decides about a verified chunk, once the rules were asked. What they refuse
/// is refused, whether it is held or not.
pub fn accept_verified_chunk(
    facts: &TransferLockedFacts,
    index: u32,
    decided: Result<(), DomainFault>,
) -> (r: Result<AcceptChunkOutcome, AcceptChunkError>)
    ensures
        r == (match decided {
            Err(fault) => Err::<AcceptChunkOutcome, AcceptChunkError>(
                AcceptChunkError::Domain(fault),
            ),
            Ok(_) => Ok::<AcceptChunkOutcome, AcceptChunkError>(
                if facts.held_chunk_indices@.contains(index) {
                    AcceptChunkOutcome::AlreadyHeld
                } else {
                    AcceptChunkOutcome::Accepted
                },
            ),
        }),
{
    let already_held = is_held(&facts.held_chunk_indices, index);
    match decided {
        Err(fault) => Err(AcceptChunkError::Domain(fault)),
        Ok(_) => if already_held {
            Ok(AcceptChunkOutcome::AlreadyHeld)
        } else {
            Ok(AcceptChunkOutcome::Accepted)
        },
    }
}

/// A seal as it is written.
#[derive(Debug)]
pub struct SealColumns {
    pub artifact_id: u128,
    pub chunk_count: i32,
    pub artifact_digest: Vec<u8>,
}

/// The columns are those of a seal with this count and this digest.
pub open spec fn holds_seal(
    columns: SealColumns,
    artifact_id: ArtifactId,
    count: u32,
    digest: Digest,
) -> bool {
    &&& columns.artifact_id == artifact_id.0
    &&& columns.chunk_count == count as i32
    &&& columns.artifact_digest@ == digest.bytes@
}

/// A seal that is written is set again, when it is read back, with the count and
/// the digest that it was set with: by the manifest's own rules, on the manifest
/// that its chunks give.
pub proof fn seal_survives_storage<
    G: FnOnce(&ChunkManifest, u32, &Vec<u8>) -> Result<SealOutcome, SealError>,
>(
    artifact_id: ArtifactId,
    count: u32,
    digest: Digest,
    columns: SealColumns,
    row: ManifestRow,
    manifest: ChunkManifest,
    seal: G,
    r: Result<ChunkManifest, RepositoryError>,
)
    requires
        holds_seal(columns, artifact_id, count, digest),
        row.sealed,
        row.chunk_count == Some(columns.chunk_count),
        row.artifact_digest == Some(columns.artifact_digest),
        resealed_as(manifest, row, seal, r),
    ensures
        columns.artifact_digest@ == digest.bytes@,
        exists|outcome: Result<SealOutcome, SealError>| #[trigger]
            call_ensures(seal, (&manifest, count, &columns.artifact_digest), outcome) && (
            outcome matches Ok(SealOutcome::Sealed(sealed)) ==> r == Ok::<
                ChunkManifest,
                RepositoryError,
            >(sealed)),
{
    column_keeps_the_number(count);
}

/// What a seal writes: the count and the digest that the sealed manifest has. A
/// seal that was set before writes nothing.
pub fn seal_manifest(facts: &TransferLockedFacts, outcome: &SealOutcome) -> (r: Result<
    Option<SealColumns>,
    RepositoryError,
>)
    ensures
        match outcome {
            SealOutcome::AlreadySealed => r == Ok::<Option<SealColumns>, RepositoryError>(None),
            SealOutcome::Sealed(manifest) => match (
                manifest.chunk_count,
                manifest.artifact_digest,
            ) {
                (None, _) => r matches Err(error) && error.text()
                    == "sealed outcome is missing chunk_count"@,
                (_, None) => r matches Err(error) && error.text()
                    == "sealed outcome is missing artifact_digest"@,
                (Some(count), Some(digest)) => {
                    &&& r matches Ok(Some(columns))
                    &&& holds_seal(columns, facts.artifact.id, count, digest)
                },
            },
        },
{
    let manifest = match outcome {
        SealOutcome::AlreadySealed => {
            return Ok(None);
        },
        SealOutcome::Sealed(manifest) => manifest,
    };
    let chunk_count: u32 = match manifest.chunk_count {
        Some(count) => count,
        None => {
            return Err(RepositoryError::backend("sealed outcome is missing chunk_count"));
        },
    };
    match &manifest.artifact_digest {
        Some(digest) => Ok(
            Some(
                SealColumns {
                    artifact_id: facts.artifact.id.0,
                    chunk_count: chunk_count as i32,
                    artifact_digest: copy_bytes(&digest.bytes),
                },
            ),
        ),
        None => Err(RepositoryError::backend("sealed outcome is missing artifact_digest")),
    }
}

/// An error of an operation that needs a transfer's locked facts.
pub trait TransferOperationError: Sized {
    spec fn of_missing(transfer_id: TransferId) -> Self;

    spec fn of_fault(fault: RepositoryError) -> Self;

    fn missing(transfer_id: TransferId) -> (r: Self)
        ensures
            r == Self::of_missing(transfer_id),
    ;

    fn fault(fault: RepositoryError) -> (r: Self)
        ensures
            r == Self::of_fault(fault),
    ;
}

impl TransferOperationError for RecordChunkError {
    open spec fn of_missing(transfer_id: TransferId) -> Self {
        RecordChunkError::TransferNotFound(transfer_id)
    }

    open spec fn of_fault(fault: RepositoryError) -> Self {
        RecordChunkError::Repository(fault)
    }

    fn missing(transfer_id: TransferId) -> (r: Self) {
        RecordChunkError::TransferNotFound(transfer_id)
    }

    fn fault(fault: RepositoryError) -> (r: Self) {
        RecordChunkError::Repository(fault)
    }
}

impl TransferOperationError for AcceptChunkError {
    open spec fn of_missing(transfer_id: TransferId) -> Self {
        AcceptChunkError::TransferNotFound(transfer_id)
    }

    open spec fn of_fault(fault: RepositoryError) -> Self {
        AcceptChunkError::Repository(fault)
    }

    fn missing(transfer_id: TransferId) -> (r: Self) {
        AcceptChunkError::TransferNotFound(transfer_id)
    }

    fn fault(fault: RepositoryError) -> (r: Self) {
        AcceptChunkError::Repository(fault)
    }
}

impl TransferOperationError for SealManifestError {
    open spec fn of_missing(transfer_id: TransferId) -> Self {
        SealManifestError::TransferNotFound(transfer_id)
    }

    open spec fn of_fault(fault: RepositoryError) -> Self {
        SealManifestError::Repository(fault)
    }

    fn missing(transfer_id: TransferId) -> (r: Self) {
        SealManifestError::TransferNotFound(transfer_id)
    }

    fn fault(fault: RepositoryError) -> (r: Self) {
        SealManifestError::Repository(fault)
    }
}

impl TransferOperationError for ArtifactTransitionRepoError {
    open spec fn of_missing(transfer_id: TransferId) -> Self {
        ArtifactTransitionRepoError::TransferNotFound(transfer_id)
    }

    open spec fn of_fault(fault: RepositoryError) -> Self {
        ArtifactTransitionRepoError::Repository(fault)
    }

    fn missing(transfer_id: TransferId) -> (r: Self) {
        ArtifactTransitionRepoError::TransferNotFound(transfer_id)
    }

    fn fault(fault: RepositoryError) -> (r: Self) {
        ArtifactTransitionRepoError::Repository(fault)
    }
}

impl TransferOperationError for BindAttemptError {
    open spec fn of_missing(transfer_id: TransferId) -> Self {
        BindAttemptError::TransferNotFound(transfer_id)
    }

    open spec fn of_fault(fault: RepositoryError) -> Self {
        BindAttemptError::Repository(fault)
    }

    fn missing(transfer_id: TransferId) -> (r: Self) {
        BindAttemptError::TransferNotFound(transfer_id)
    }

    fn fault(fault: RepositoryError) -> (r: Self) {
        BindAttemptError::Repository(fault)
    }
}

/// The locked facts of an operation on a transfer that has to exist.
pub fn require_transfer<E: TransferOperationError>(
    transfer_id: TransferId,
    found: Result<Option<TransferLockedFacts>, RepositoryError>,
) -> (r: Result<TransferLockedFacts, E>)
    ensures
        r == (match found {
            Ok(Some(facts)) => Ok::<TransferLockedFacts, E>(facts),
            Ok(None) => Err::<TransferLockedFacts, E>(E::of_missing(transfer_id)),
            Err(fault) => Err::<TransferLockedFacts, E>(E::of_fault(fault)),
        }),
{
    match found {
        Ok(Some(facts)) => Ok(facts),
        Ok(None) => Err(E::missing(transfer_id)),
        Err(fault) => Err(E::fault(fault)),
    }
}

/// What a change of an artifact's state comes to: the artifact, whose state is
/// written, or the rules' refusal.
pub fn commit_artifact_transition(decided: Result<Artifact, DomainFault>) -> (r: Result<
    Artifact,
    ArtifactTransitionRepoError,
>)
    ensures
        r == (match decided {
            Ok(artifact) => Ok::<Artifact, ArtifactTransitionRepoError>(artifact),
            Err(fault) => Err::<Artifact, ArtifactTransitionRepoError>(
                ArtifactTransitionRepoError::Domain(fault),
            ),
        }),
{
    match decided {
        Ok(artifact) => Ok(artifact),
        Err(fault) => Err(ArtifactTransitionRepoError::Domain(fault)),
    }
}

/// The attempt that binding a transfer writes, if any, beside the bound transfer.
pub fn bind_attempt(decided: Result<Transfer, DomainFault>) -> (r: Result<
    (Option<AttemptId>, Transfer),
    BindAttemptError,
>)
    ensures
        r == (match decided {
            Ok(transfer) => Ok::<(Option<AttemptId>, Transfer), BindAttemptError>(
                (transfer.attempt_id, transfer),
            ),
            Err(fault) => Err::<(Option<AttemptId>, Transfer), BindAttemptError>(
                BindAttemptError::Domain(fault),
            ),
        }),
{
    match decided {
        Ok(transfer) => Ok((transfer.attempt_id, transfer)),
        Err(fault) => Err(BindAttemptError::Domain(fault)),
    }
}

/// The wording for a transfer that refers to what is not there.
pub open spec fn missing_text(
    transfer_id: TransferId,
    what: Seq<char>,
    kind: Seq<char>,
    id: u128,
) -> Seq<char> {
    "transfer "@ + text::identity_text("TransferId"@, transfer_id.0)
        + " durably references missing "@ + what + " "@ + text::identity_text(kind, id)
}

fn missing(transfer_id: TransferId, what: &str, kind: &str, id: u128) -> (r: RepositoryError)
    ensures
        r.text() == missing_text(transfer_id, what@, kind@, id),
{
    let mut message = String::new();
    message.append("transfer ");
    append_identity(&mut message, "TransferId", transfer_id.0);
    message.append(" durably references missing ");
    message.append(what);
    message.append(" ");
    append_identity(&mut message, kind, id);
    assert(message@ =~= missing_text(transfer_id, what@, kind@, id));
    RepositoryError::Backend(message)
}

/// Everything durable that an authorization is decided on, read behind one
/// transaction's locks. `attempt` is what was found for the transfer's attempt,
/// where it has one. What the transfer refers to has to be there.
pub fn load_authorization_state(
    facts: TransferLockedFacts,
    attempt: Option<Attempt>,
    endpoint: Option<EndpointAggregate>,
) -> (r: Result<AuthorizationDurableState, RepositoryError>)
    ensures
        match (facts.transfer.attempt_id, attempt, endpoint) {
            (Some(id), None, _) => r matches Err(error) && error.text() == missing_text(
                facts.transfer.id,
                "attempt"@,
                "AttemptId"@,
                id.0,
            ),
            (_, _, None) => r matches Err(error) && error.text() == missing_text(
                facts.transfer.id,
                "endpoint"@,
                "EndpointId"@,
                facts.transfer.endpoint_id.0,
            ),
            (bound, found, Some(endpoint)) => r == Ok::<AuthorizationDurableState, RepositoryError>(
                AuthorizationDurableState {
                    transfer: facts.transfer,
                    artifact: facts.artifact,
                    manifest: facts.manifest,
                    held_chunk_indices: facts.held_chunk_indices,
                    attempt: if bound is Some {
                        found
                    } else {
                        None
                    },
                    endpoint,
                },
            ),
        },
{
    let attempt = match facts.transfer.attempt_id {
        Some(id) => match attempt {
            Some(attempt) => Some(attempt),
            None => {
                return Err(missing(facts.transfer.id, "attempt", "AttemptId", id.0));
            },
        },
        None => None,
    };
    let endpoint = match endpoint {
        Some(endpoint) => endpoint,
        None => {
            return Err(
                missing(
                    facts.transfer.id,
                    "endpoint",
                    "EndpointId",
                    facts.transfer.endpoint_id.0,
                ),
            );
        },
    };
    Ok(
        AuthorizationDurableState {
            transfer: facts.transfer,
            artifact: facts.artifact,
            manifest: facts.manifest,
            held_chunk_indices: facts.held_chunk_indices,
            attempt,
            endpoint,
        },
    )
}

/// Whatever the order in which a transfer's chunks are stored and read, a worker
/// that resumes it is told of the held ones in ascending order, each once.
pub proof fn held_chunks_are_listed_in_order<R, S, P, C>(
    rows: Seq<ChunkRow>,
    facts: TransferLockedFacts,
    attempt: Option<Attempt>,
    endpoint: Option<EndpointAggregate>,
    state: AuthorizationDurableState,
    told: Result<ResumeAuthorizationOutcome, ApplicationError>,
)
    requires
        holds_held(rows, facts.held_chunk_indices@),
        call_ensures(load_authorization_state, (facts, attempt, endpoint), Ok(state)),
        call_ensures(
            TransferAuthorizationService::<R, S, P, C>::authorize_resume_discovery,
            (Some(state),),
            told,
        ),
    ensures
        told matches Ok(ResumeAuthorizationOutcome::Approved(snapshot))
            ==> authorization::listed_ascending(snapshot.held@),
{
}

/// A transfer is read, column by column, exactly where its chunk size is allowed.
pub proof fn transfer_is_read_column_by_column(
    id: TransferId,
    row: TransferRow,
    size_allowed: bool,
    r: Result<Transfer, RepositoryError>,
)
    requires
        call_ensures(read_transfer, (id, row, size_allowed), r),
    ensures
        r is Ok <==> size_allowed,
        r matches Err(fault) ==> fault.text()
            == "persisted transfer has a non-positive chunk_size"@,
        r matches Ok(transfer) ==> {
            &&& transfer.id == id
            &&& transfer.endpoint_id.0 == row.endpoint_id
            &&& transfer.job_id.0 == row.job_id
            &&& transfer.job_step_id.0 == row.job_step_id
            &&& transfer.artifact_id.0 == row.artifact_id
            &&& transfer.direction == row.direction
            &&& transfer.digest_algorithm == row.digest_algorithm
            &&& row.chunk_size >= 0 ==> transfer.chunk_size == row.chunk_size
            &&& transfer.source_provenance@ == row.source_provenance@
            &&& transfer.attempt_id is Some <==> row.attempt_id is Some
            &&& transfer.attempt_id matches Some(id) ==> row.attempt_id == Some(id.0)
        },
{
}

/// A transfer is written exactly where its endpoint exists, its job is that endpoint's
/// and its step is that job's; what is missing first is told.
pub proof fn new_transfer_needs_its_endpoint_job_and_step(
    transfer: Transfer,
    artifact: Artifact,
    endpoint_exists: bool,
    with_endpoint: Result<TransferWithEndpoint, CreateTransferError>,
    job_endpoint_id: Option<u128>,
    with_job: Result<TransferWithJob, CreateTransferError>,
    step_exists: bool,
    rows: Result<NewTransferRows, CreateTransferError>,
)
    requires
        call_ensures(create_transfer_context, (transfer, artifact, endpoint_exists), with_endpoint),
        with_endpoint matches Ok(known) ==> call_ensures(
            TransferWithEndpoint::with_job,
            (known, job_endpoint_id),
            with_job,
        ),
        with_endpoint is Ok ==> (with_job matches Ok(known) ==> call_ensures(
            TransferWithJob::with_step,
            (known, step_exists),
            rows,
        )),
    ensures
        with_endpoint is Ok <==> endpoint_exists,
        !endpoint_exists ==> with_endpoint->Err_0 == CreateTransferError::EndpointNotFound(
            transfer.endpoint_id,
        ),
        endpoint_exists ==> (with_job is Ok <==> job_endpoint_id == Some(transfer.endpoint_id.0)),
        endpoint_exists && job_endpoint_id is None ==> with_job->Err_0
            == CreateTransferError::JobNotFound(transfer.job_id),
        endpoint_exists && job_endpoint_id is Some && with_job is Err ==> with_job->Err_0
            == CreateTransferError::JobEndpointMismatch(transfer.job_id, transfer.endpoint_id),
        endpoint_exists && with_job is Ok ==> (rows is Ok <==> step_exists),
        endpoint_exists && with_job is Ok && !step_exists ==> rows->Err_0
            == CreateTransferError::JobStepNotFound(transfer.job_step_id, transfer.job_id),
{
}

/// A transfer that was written is read back as the same transfer, of the same artifact
/// in the same state.
pub proof fn written_transfer_is_read_back(
    transfer: Transfer,
    artifact: Artifact,
    rows: NewTransferRows,
    size_allowed: bool,
    r: Result<Transfer, RepositoryError>,
)
    requires
        call_ensures(
            TransferWithJob::with_step,
            (TransferWithJob { transfer, artifact }, true),
            Ok(rows),
        ),
        call_ensures(read_transfer, (TransferId(rows.id), rows.transfer, size_allowed), r),
    ensures
        rows.artifact_id == artifact.id.0,
        rows.artifact.state == artifact.state,
        rows.artifact.capture_consistency == artifact.capture_consistency,
        rows.id == transfer.id.0,
        rows.transfer.artifact_id == transfer.artifact_id.0,
        r matches Ok(read) ==> {
            &&& read.id == transfer.id
            &&& read.endpoint_id == transfer.endpoint_id
            &&& read.job_id == transfer.job_id
            &&& read.job_step_id == transfer.job_step_id
            &&& read.artifact_id == transfer.artifact_id
            &&& read.direction == transfer.direction
            &&& read.digest_algorithm == transfer.digest_algorithm
            &&& read.chunk_size == transfer.chunk_size
            &&& read.source_provenance@ == transfer.source_provenance@
            &&& read.attempt_id == transfer.attempt_id
        },
{
    column_keeps_the_number(transfer.chunk_size);
}

/// An index is put among ascending ones so that they go on ascending, each of them
/// once: none is lost, and none but the new one is gained.
pub proof fn index_is_put_in_its_place(indices: &mut Vec<u32>, index: u32)
    requires
        call_ensures(insert_index, (indices, index), ()),
    ensures
        forall|i: int, j: int|
            0 <= i < j < final(indices)@.len() ==> #[trigger] final(indices)@[i]
                < #[trigger] final(indices)@[j],
        final(indices)@.contains(index),
        forall|x: u32| #[trigger] old(indices)@.contains(x) ==> final(indices)@.contains(x),
        forall|x: u32| #[trigger]
            final(indices)@.contains(x) && x != index ==> old(indices)@.contains(x),
{
}

/// Recording rows one after the other, every manifest on the way is known.
proof fn replay_has_its_steps<
    F: Fn(&ChunkManifest, u32, u32, &Vec<u8>) -> Result<ChunkRecordOutcome, ChunkRecordError>,
>(record: F, rows: Seq<ChunkRow>, from: ChunkManifest, to: ChunkManifest) -> (steps: Seq<
    ChunkManifest,
>)
    requires
        replays_to(record, rows, from, to),
    ensures
        steps.len() == rows.len() + 1,
        steps[0] == from,
        steps[rows.len() as int] == to,
        forall|i: int|
            0 <= i < rows.len() ==> call_ensures(
                record,
                (
                    &steps[i],
                    (#[trigger] rows[i]).chunk_index as u32,
                    rows[i].size as u32,
                    &rows[i].digest,
                ),
                Ok(ChunkRecordOutcome::Added(steps[i + 1])),
            ),
    decreases rows.len(),
{
    if rows.len() == 0 {
        seq![from]
    } else {
        let mid = choose|mid: ChunkManifest|
            replays_to(record, rows.drop_last(), from, mid) && #[trigger] recorded_into(
                record,
                rows.last(),
                mid,
                to,
            );
        let earlier = replay_has_its_steps(record, rows.drop_last(), from, mid);
        let steps = earlier.push(to);
        assert forall|i: int| 0 <= i < rows.len() implies call_ensures(
            record,
            (
                &steps[i],
                (#[trigger] rows[i]).chunk_index as u32,
                rows[i].size as u32,
                &rows[i].digest,
            ),
            Ok(ChunkRecordOutcome::Added(steps[i + 1])),
        ) by {
            if i < rows.len() - 1 {
                assert(rows.drop_last()[i] == rows[i]);
            }
        }
        steps
    }
}

/// The manifest is built row by row, in the order of the rows: each is recorded, with
/// its own index, size and digest, in what the ones before it gave.
pub proof fn manifest_is_built_row_by_row<
    F: Fn(&ChunkManifest, u32, u32, &Vec<u8>) -> Result<ChunkRecordOutcome, ChunkRecordError>,
>(blank: ChunkManifest, rows: Vec<ChunkRow>, record: F, manifest: ChunkManifest, held: Vec<u32>)
    requires
        call_ensures(replay_chunks::<F>, (blank, &rows, &record), Ok((manifest, held))),
    ensures
        exists|steps: Seq<ChunkManifest>|
            steps.len() == rows@.len() + 1 && (#[trigger] steps[0]) == blank
                && steps[rows@.len() as int] == manifest && forall|i: int|
                0 <= i < rows@.len() ==> call_ensures(
                    record,
                    (
                        &steps[i],
                        (#[trigger] rows@[i]).chunk_index as u32,
                        rows@[i].size as u32,
                        &rows@[i].digest,
                    ),
                    Ok(ChunkRecordOutcome::Added(steps[i + 1])),
                ),
        forall|i: int, j: int|
            0 <= i < j < held@.len() ==> #[trigger] held@[i] < #[trigger] held@[j],
        forall|i: int|
            0 <= i < rows@.len() && (#[trigger] rows@[i]).held ==> held@.contains(
                rows@[i].chunk_index as u32,
            ),
        forall|x: u32| #[trigger]
            held@.contains(x) ==> exists|i: int|
                0 <= i < rows@.len() && (#[trigger] rows@[i]).held && rows@[i].chunk_index as u32
                    == x,
{
    let steps = replay_has_its_steps(record, rows@, blank, manifest);
    assert(steps[0] == blank);
}

/// Rows that the manifest's own rules let in are read.
pub proof fn rows_that_are_let_in_are_read<
    F: Fn(&ChunkManifest, u32, u32, &Vec<u8>) -> Result<ChunkRecordOutcome, ChunkRecordError>,
>(
    blank: ChunkManifest,
    rows: Vec<ChunkRow>,
    record: F,
    r: Result<(ChunkManifest, Vec<u32>), RepositoryError>,
)
    requires
        call_ensures(replay_chunks::<F>, (blank, &rows, &record), r),
        forall|
            manifest: ChunkManifest,
            index: u32,
            size: u32,
            digest: Vec<u8>,
            outcome: Result<ChunkRecordOutcome, ChunkRecordError>,
        | #[trigger]
            call_ensures(record, (&manifest, index, size, &digest), outcome) ==> outcome matches Ok(
                ChunkRecordOutcome::Added(_),
            ),
    ensures
        r is Ok,
{
}

/// A manifest that was not sealed is read as its chunks gave it. One that was sealed is
/// sealed again, with the count and the digest that are stored, and cannot be read
/// without both.
pub proof fn manifest_is_sealed_as_it_was<
    G: FnOnce(&ChunkManifest, u32, &Vec<u8>) -> Result<SealOutcome, SealError>,
>(manifest: ChunkManifest, row: ManifestRow, seal: G, r: Result<ChunkManifest, RepositoryError>)
    requires
        call_ensures(reseal::<G>, (manifest, row, seal), r),
    ensures
        !row.sealed ==> r is Ok && r->Ok_0 == manifest,
        row.sealed && row.chunk_count is None ==> (r matches Err(fault)
            && fault.text() == "sealed manifest is missing its durable chunk_count"@),
        row.sealed && row.chunk_count is Some && row.artifact_digest is None ==> (r matches Err(
            fault,
        ) && fault.text() == "sealed manifest is missing its durable artifact_digest"@),
        row.sealed && row.chunk_count is Some && row.artifact_digest is Some ==> exists|
            outcome: Result<SealOutcome, SealError>,
        | #[trigger]
            call_ensures(
                seal,
                (&manifest, row.chunk_count->Some_0 as u32, &row.artifact_digest->Some_0),
                outcome,
            ) && (r is Ok <==> outcome matches Ok(SealOutcome::Sealed(_))) && (outcome matches Ok(
                SealOutcome::Sealed(sealed),
            ) ==> r->Ok_0 == sealed) && (r matches Err(fault) ==> fault.text()
                == "persisted sealed manifest facts could not be reconstructed"@),
{
}

/// A transfer is read with its own columns, its artifact's and the held chunks of its
/// own rows.
pub proof fn locked_facts_are_what_is_stored<
    Z: FnOnce(u32) -> bool,
    F: Fn(&ChunkManifest, u32, u32, &Vec<u8>) -> Result<ChunkRecordOutcome, ChunkRecordError>,
    G: FnOnce(&ChunkManifest, u32, &Vec<u8>) -> Result<SealOutcome, SealError>,
>(
    id: TransferId,
    rows: TransferRows,
    allowed: Z,
    record: F,
    seal: G,
    r: Result<Option<TransferLockedFacts>, RepositoryError>,
)
    requires
        call_ensures(load_locked_facts::<Z, F, G>, (id, Some(rows), allowed, record, seal), r),
    ensures
        r matches Ok(found) ==> {
            &&& found is Some
            &&& call_ensures(allowed, (rows.transfer.chunk_size as u32,), true)
            &&& found->Some_0.transfer.id == id
            &&& found->Some_0.transfer.endpoint_id.0 == rows.transfer.endpoint_id
            &&& found->Some_0.transfer.job_id.0 == rows.transfer.job_id
            &&& found->Some_0.transfer.job_step_id.0 == rows.transfer.job_step_id
            &&& found->Some_0.transfer.artifact_id.0 == rows.transfer.artifact_id
            &&& found->Some_0.transfer.direction == rows.transfer.direction
            &&& found->Some_0.transfer.digest_algorithm == rows.transfer.digest_algorithm
            &&& found->Some_0.transfer.source_provenance@ == rows.transfer.source_provenance@
            &&& found->Some_0.transfer.attempt_id is Some <==> rows.transfer.attempt_id is Some
            &&& found->Some_0.transfer.attempt_id matches Some(attempt)
                ==> rows.transfer.attempt_id == Some(attempt.0)
            &&& found->Some_0.artifact.id.0 == rows.transfer.artifact_id
            &&& found->Some_0.artifact.state == rows.artifact.state
            &&& found->Some_0.artifact.capture_consistency == rows.artifact.capture_consistency
            &&& forall|i: int|
                0 <= i < rows.chunks@.len() && (#[trigger] rows.chunks@[i]).held
                    ==> found->Some_0.held_chunk_indices@.contains(
                    rows.chunks@[i].chunk_index as u32,
                )
            &&& forall|x: u32| #[trigger]
                found->Some_0.held_chunk_indices@.contains(x) ==> exists|i: int|
                    0 <= i < rows.chunks@.len() && (#[trigger] rows.chunks@[i]).held
                        && rows.chunks@[i].chunk_index as u32 == x
        },
{
}

/// The manifest of a transfer starts without chunks and open, for the transfer's own
/// artifact, algorithm and chunk size; its rows are recorded in that one by one.
pub proof fn manifest_starts_blank<
    Z: FnOnce(u32) -> bool,
    F: Fn(&ChunkManifest, u32, u32, &Vec<u8>) -> Result<ChunkRecordOutcome, ChunkRecordError>,
    G: FnOnce(&ChunkManifest, u32, &Vec<u8>) -> Result<SealOutcome, SealError>,
>(
    id: TransferId,
    rows: TransferRows,
    allowed: Z,
    record: F,
    seal: G,
    facts: TransferLockedFacts,
)
    requires
        call_ensures(
            load_locked_facts::<Z, F, G>,
            (id, Some(rows), allowed, record, seal),
            Ok(Some(facts)),
        ),
        !rows.manifest.sealed,
    ensures
        exists|steps: Seq<ChunkManifest>|
            steps.len() == rows.chunks@.len() + 1 && (#[trigger] steps[0]).chunks@.len() == 0
                && steps[0].artifact_id.0 == rows.transfer.artifact_id
                && steps[0].digest_algorithm == rows.transfer.digest_algorithm
                && steps[0].chunk_size == rows.transfer.chunk_size as u32 && !steps[0].sealed
                && steps[0].chunk_count is None && steps[0].artifact_digest is None
                && steps[rows.chunks@.len() as int] == facts.manifest && forall|i: int|
                0 <= i < rows.chunks@.len() ==> call_ensures(
                    record,
                    (
                        &steps[i],
                        (#[trigger] rows.chunks@[i]).chunk_index as u32,
                        rows.chunks@[i].size as u32,
                        &rows.chunks@[i].digest,
                    ),
                    Ok(ChunkRecordOutcome::Added(steps[i + 1])),
                ),
{
    let blank = choose|blank: ChunkManifest| #[trigger]
        is_blank(blank, transfer_of(id, rows.transfer)) && exists|open: ChunkManifest| #[trigger]
            replays_to(record, rows.chunks@, blank, open) && resealed_as(
                open,
                rows.manifest,
                seal,
                Ok::<ChunkManifest, RepositoryError>(facts.manifest),
            );
    let steps = replay_has_its_steps(record, rows.chunks@, blank, facts.manifest);
    assert(steps[0] == blank);
}

/// A transfer that is not there is no fault.
pub proof fn missing_transfer_is_no_fault<
    Z: FnOnce(u32) -> bool,
    F: Fn(&ChunkManifest, u32, u32, &Vec<u8>) -> Result<ChunkRecordOutcome, ChunkRecordError>,
    G: FnOnce(&ChunkManifest, u32, &Vec<u8>) -> Result<SealOutcome, SealError>,
>(
    id: TransferId,
    allowed: Z,
    record: F,
    seal: G,
    r: Result<Option<TransferLockedFacts>, RepositoryError>,
)
    requires
        call_ensures(load_locked_facts::<Z, F, G>, (id, None, allowed, record, seal), r),
    ensures
        r matches Ok(found) && found is None,
{
}

/// The row that is written for an expected chunk is that of one which the locked
/// manifest did not have, under the artifact's identity, and holds it whole; a chunk
/// that was there already writes none.
pub proof fn new_chunk_is_written_whole(
    facts: TransferLockedFacts,
    outcome: ChunkRecordOutcome,
    nth: int,
    r: Result<Option<NewChunkRow>, RepositoryError>,
)
    requires
        call_ensures(record_expected_chunk, (&facts, &outcome), r),
    ensures
        outcome is AlreadyRecorded ==> r is Ok && r->Ok_0 is None,
        outcome matches ChunkRecordOutcome::Added(manifest) ==> {
            &&& r matches Err(fault) ==> fault.text()
                == "decided manifest added no chunk relative to locked facts"@
            &&& r is Err && 0 <= nth < manifest.chunks@.len() ==> exists|i: int|
                0 <= i < facts.manifest.chunks@.len() && (
                #[trigger] facts.manifest.chunks@[i]).index == manifest.chunks@[nth].index
            &&& r matches Ok(row) ==> row is Some && row->Some_0.artifact_id == facts.artifact.id.0
                && exists|at: int|
                0 <= at < manifest.chunks@.len() && row->Some_0.chunk_index as u32 == (
                #[trigger] manifest.chunks@[at]).index && row->Some_0.size as u32
                    == manifest.chunks@[at].size && row->Some_0.digest@
                    == manifest.chunks@[at].digest.bytes@ && forall|i: int|
                    0 <= i < facts.manifest.chunks@.len() ==> (
                    #[trigger] facts.manifest.chunks@[i]).index != manifest.chunks@[at].index
        },
{
    if let ChunkRecordOutcome::Added(manifest) = outcome {
        match r {
            Ok(row) => {
                let at = choose|at: int| #[trigger]
                    is_first_new(manifest, facts.manifest, at) && {
                        &&& row matches Some(row)
                        &&& holds_chunk(row, facts.artifact.id, manifest.chunks@[at])
                    };
                column_keeps_the_number(manifest.chunks@[at].index);
                column_keeps_the_number(manifest.chunks@[at].size);
                assert(row->Some_0.chunk_index as u32 == manifest.chunks@[at].index);
            },
            Err(_) => {
                if 0 <= nth < manifest.chunks@.len() {
                    assert(facts.manifest.expects(manifest.chunks@[nth].index));
                }
            },
        }
    }
}

/// A verified chunk that the rules let in is held already exactly where its index is
/// among the held ones; one that they refuse is refused.
pub proof fn verified_chunk_is_accepted_once(
    facts: TransferLockedFacts,
    index: u32,
    decided: Result<(), DomainFault>,
    r: Result<AcceptChunkOutcome, AcceptChunkError>,
    held: bool,
)
    requires
        call_ensures(accept_verified_chunk, (&facts, index, decided), r),
        call_ensures(is_held, (&facts.held_chunk_indices, index), held),
    ensures
        decided is Ok <==> r is Ok,
        decided matches Err(fault) ==> r->Err_0 == AcceptChunkError::Domain(fault),
        held <==> exists|i: int|
            0 <= i < facts.held_chunk_indices@.len() && #[trigger] facts.held_chunk_indices@[i]
                == index,
        r matches Ok(outcome) ==> (outcome is AlreadyHeld <==> exists|i: int|
            0 <= i < facts.held_chunk_indices@.len() && #[trigger] facts.held_chunk_indices@[i]
                == index),
{
}

/// A seal is written with the sealed manifest's own count and digest, under the
/// artifact's identity, and not without both; one that was set before writes nothing.
pub proof fn seal_is_written_whole(
    facts: TransferLockedFacts,
    outcome: SealOutcome,
    r: Result<Option<SealColumns>, RepositoryError>,
)
    requires
        call_ensures(seal_manifest, (&facts, &outcome), r),
    ensures
        outcome is AlreadySealed ==> r is Ok && r->Ok_0 is None,
        outcome matches SealOutcome::Sealed(manifest) ==> {
            &&& r is Ok <==> manifest.chunk_count is Some && manifest.artifact_digest is Some
            &&& r matches Err(fault) ==> fault.text() == if manifest.chunk_count is None {
                "sealed outcome is missing chunk_count"@
            } else {
                "sealed outcome is missing artifact_digest"@
            }
            &&& r matches Ok(columns) ==> {
                &&& columns is Some
                &&& columns->Some_0.artifact_id == facts.artifact.id.0
                &&& columns->Some_0.chunk_count as u32 == manifest.chunk_count->Some_0
                &&& columns->Some_0.artifact_digest@ == manifest.artifact_digest->Some_0.bytes@
            }
        },
{
    if let SealOutcome::Sealed(manifest) = outcome {
        if let Some(count) = manifest.chunk_count {
            column_keeps_the_number(count);
        }
    }
}

/// What the rules make of an artifact is committed, and their refusal is told.
pub proof fn artifact_is_committed_as_decided(
    decided: Result<Artifact, DomainFault>,
    r: Result<Artifact, ArtifactTransitionRepoError>,
)
    requires
        call_ensures(commit_artifact_transition, (decided,), r),
    ensures
        decided is Ok <==> r is Ok,
        decided matches Ok(artifact) ==> r->Ok_0.id == artifact.id && r->Ok_0.state
            == artifact.state && r->Ok_0.capture_consistency == artifact.capture_consistency,
        decided matches Err(fault) ==> r->Err_0 == ArtifactTransitionRepoError::Domain(fault),
{
}

/// A binding writes the attempt that the bound transfer has, and tells the transfer.
pub proof fn binding_writes_the_attempt(
    decided: Result<Transfer, DomainFault>,
    r: Result<(Option<AttemptId>, Transfer), BindAttemptError>,
)
    requires
        call_ensures(bind_attempt, (decided,), r),
    ensures
        decided is Ok <==> r is Ok,
        decided matches Ok(transfer) ==> r->Ok_0.0 == transfer.attempt_id && r->Ok_0.1 == transfer,
        decided matches Err(fault) ==> r->Err_0 == BindAttemptError::Domain(fault),
{
}

/// An authorization is decided on the transfer's own facts, on its attempt where it is
/// bound to one, and on its endpoint; what it refers to has to be there.
pub proof fn authorization_is_decided_on_what_is_locked(
    facts: TransferLockedFacts,
    attempt: Option<Attempt>,
    endpoint: Option<EndpointAggregate>,
    r: Result<AuthorizationDurableState, RepositoryError>,
)
    requires
        call_ensures(load_authorization_state, (facts, attempt, endpoint), r),
    ensures
        r is Ok <==> endpoint is Some && (facts.transfer.attempt_id is Some ==> attempt is Some),
        r matches Ok(state) ==> {
            &&& state.transfer == facts.transfer
            &&& state.artifact == facts.artifact
            &&& state.manifest == facts.manifest
            &&& state.held_chunk_indices@ == facts.held_chunk_indices@
            &&& Some(state.endpoint) == endpoint
            &&& facts.transfer.attempt_id is Some ==> state.attempt == attempt
            &&& facts.transfer.attempt_id is None ==> state.attempt is None
        },
        r matches Err(error) ==> {
            &&& facts.transfer.attempt_id is Some && attempt is None ==> error.text()
                == "transfer "@ + text::identity_text("TransferId"@, facts.transfer.id.0)
                + " durably references missing "@ + "attempt"@ + " "@ + text::identity_text(
                "AttemptId"@,
                facts.transfer.attempt_id->Some_0.0,
            )
            &&& !(facts.transfer.attempt_id is Some && attempt is None) ==> error.text()
                == "transfer "@ + text::identity_text("TransferId"@, facts.transfer.id.0)
                + " durably references missing "@ + "endpoint"@ + " "@ + text::identity_text(
                "EndpointId"@,
                facts.transfer.endpoint_id.0,
            )
        },
{
}

/// Recording a chunk needs its transfer, and tells a missing one from a fault.
pub proof fn recording_needs_its_transfer(
    transfer_id: TransferId,
    found: Result<Option<TransferLockedFacts>, RepositoryError>,
    r: Result<TransferLockedFacts, RecordChunkError>,
)
    requires
        call_ensures(require_transfer::<RecordChunkError>, (transfer_id, found), r),
    ensures
        found matches Ok(Some(facts)) ==> r is Ok && r->Ok_0 == facts,
        found matches Ok(None) ==> r is Err && r->Err_0 == RecordChunkError::TransferNotFound(
            transfer_id,
        ),
        found matches Err(fault) ==> r is Err && r->Err_0 == RecordChunkError::Repository(fault),
{
}

/// Accepting a chunk needs its transfer, and tells a missing one from a fault.
pub proof fn accepting_needs_its_transfer(
    transfer_id: TransferId,
    found: Result<Option<TransferLockedFacts>, RepositoryError>,
    r: Result<TransferLockedFacts, AcceptChunkError>,
)
    requires
        call_ensures(require_transfer::<AcceptChunkError>, (transfer_id, found), r),
    ensures
        found matches Ok(Some(facts)) ==> r is Ok && r->Ok_0 == facts,
        found matches Ok(None) ==> r is Err && r->Err_0 == AcceptChunkError::TransferNotFound(
            transfer_id,
        ),
        found matches Err(fault) ==> r is Err && r->Err_0 == AcceptChunkError::Repository(fault),
{
}

/// Sealing a manifest needs its transfer, and tells a missing one from a fault.
pub proof fn sealing_needs_its_transfer(
    transfer_id: TransferId,
    found: Result<Option<TransferLockedFacts>, RepositoryError>,
    r: Result<TransferLockedFacts, SealManifestError>,
)
    requires
        call_ensures(require_transfer::<SealManifestError>, (transfer_id, found), r),
    ensures
        found matches Ok(Some(facts)) ==> r is Ok && r->Ok_0 == facts,
        found matches Ok(None) ==> r is Err && r->Err_0 == SealManifestError::TransferNotFound(
            transfer_id,
        ),
        found matches Err(fault) ==> r is Err && r->Err_0 == SealManifestError::Repository(fault),
{
}

/// Changing an artifact needs its transfer, and tells a missing one from a fault.
pub proof fn artifact_change_needs_its_transfer(
    transfer_id: TransferId,
    found: Result<Option<TransferLockedFacts>, RepositoryError>,
    r: Result<TransferLockedFacts, ArtifactTransitionRepoError>,
)
    requires
        call_ensures(require_transfer::<ArtifactTransitionRepoError>, (transfer_id, found), r),
    ensures
        found matches Ok(Some(facts)) ==> r is Ok && r->Ok_0 == facts,
        found matches Ok(None) ==> r is Err && r->Err_0 == ArtifactTransitionRepoError::TransferNotFound(
            transfer_id,
        ),
        found matches Err(fault) ==> r is Err && r->Err_0 == ArtifactTransitionRepoError::Repository(fault),
{
}

/// Binding an attempt needs its transfer, and tells a missing one from a fault.
pub proof fn binding_needs_its_transfer(
    transfer_id: TransferId,
    found: Result<Option<TransferLockedFacts>, RepositoryError>,
    r: Result<TransferLockedFacts, BindAttemptError>,
)
    requires
        call_ensures(require_transfer::<BindAttemptError>, (transfer_id, found), r),
    ensures
        found matches Ok(Some(facts)) ==> r is Ok && r->Ok_0 == facts,
        found matches Ok(None) ==> r is Err && r->Err_0 == BindAttemptError::TransferNotFound(
            transfer_id,
        ),
        found matches Err(fault) ==> r is Err && r->Err_0 == BindAttemptError::Repository(fault),
{
}

/// Rows that the manifest's own rules do not let in are a fault of the storage, told
/// as that.
pub proof fn refused_rows_are_told_as_such<
    F: Fn(&ChunkManifest, u32, u32, &Vec<u8>) -> Result<ChunkRecordOutcome, ChunkRecordError>,
>(
    blank: ChunkManifest,
    rows: Vec<ChunkRow>,
    record: F,
    r: Result<(ChunkManifest, Vec<u32>), RepositoryError>,
)
    requires
        call_ensures(replay_chunks::<F>, (blank, &rows, &record), r),
    ensures
        r matches Err(fault) ==> fault.text()
            == "persisted chunk identities could not be reconstructed into a manifest"@,
{
}

} // verus!
