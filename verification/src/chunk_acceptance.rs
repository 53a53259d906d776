//! The durable acceptance of a chunk whose bytes were already verified.

use vstd::prelude::*;
use std::sync::Arc;
use crate::authorization::AuthorizationOperation;
use crate::bytes::same_bytes;
use crate::errors::{ApplicationError, RepositoryError};
use crate::ids::TransferId;
use crate::model::{
    ArtifactState, Attempt, AttemptState, ChunkManifest, Digest, DigestAlgorithm,
    TransferLockedFacts,
};

verus! {

/// How the manifest took an expected chunk.
#[derive(Debug)]
pub enum ChunkRecordOutcome {
    /// The manifest with the new chunk in it.
    Added(ChunkManifest),
    /// The chunk was in the manifest already.
    AlreadyRecorded,
}

/// Why the manifest did not take an expected chunk.
#[derive(Clone, Copy, Debug, PartialEq, Eq, Structural)]
pub enum ChunkRecordError {
    Conflict,
    NotContinuable,
    InvalidDigestLength,
}

/// What is to be done about a chunk. The two rejections have a public reason
/// each; failing closed has none, and is not answered.
#[derive(Debug)]
pub enum ChunkAcceptanceDecided {
    Commit(ChunkRecordOutcome),
    RejectConflict,
    RejectNotContinuable,
    FailClosed,
}

/// The transfer's attempt exists and is in progress.
pub open spec fn in_progress(attempt: Option<Attempt>) -> bool {
    attempt matches Some(attempt) && attempt.state is InProgress
}

/// The size is one that a chunk of the manifest can have.
pub open spec fn size_fits(manifest: ChunkManifest, size: u32) -> bool {
    0 < size <= manifest.chunk_size
}

/// What the manifest's answer to recording the chunk comes to. Only a digest
/// that was seen to differ is reported as a conflict, so a conflict that the
/// manifest reports is not.
pub open spec fn recorded_as(
    decided: ChunkAcceptanceDecided,
    recorded: Result<ChunkRecordOutcome, ChunkRecordError>,
) -> bool {
    match recorded {
        Ok(outcome) => decided == ChunkAcceptanceDecided::Commit(outcome),
        Err(ChunkRecordError::NotContinuable) => decided is RejectNotContinuable,
        Err(ChunkRecordError::Conflict) | Err(ChunkRecordError::InvalidDigestLength) => decided
            is FailClosed,
    }
}

/// Turns the manifest's answer into what is to be done.
pub fn conclude_chunk_record(recorded: Result<ChunkRecordOutcome, ChunkRecordError>) -> (r:
    ChunkAcceptanceDecided)
    ensures
        recorded_as(r, recorded),
{
    match recorded {
        Ok(outcome) => ChunkAcceptanceDecided::Commit(outcome),
        Err(ChunkRecordError::NotContinuable) => ChunkAcceptanceDecided::RejectNotContinuable,
        Err(ChunkRecordError::Conflict) | Err(ChunkRecordError::InvalidDigestLength) =>
            ChunkAcceptanceDecided::FailClosed,
    }
}

/// What an expected chunk that is already there makes of the new one.
#[derive(Clone, Copy, Debug, PartialEq, Eq, Structural)]
pub enum ChunkStanding {
    /// No chunk is expected there, or this very one.
    Open,
    /// One with another digest.
    OtherDigest,
    /// One with this digest, but of another size.
    OtherSize,
}

/// Where the new chunk stands against what the manifest expects at its index.
pub open spec fn stands(
    manifest: ChunkManifest,
    index: u32,
    size: u32,
    digest: Seq<u8>,
    standing: ChunkStanding,
) -> bool {
    if manifest.expects(index) {
        exists|i: int|
            {
                &&& 0 <= i < manifest.chunks@.len()
                &&& (#[trigger] manifest.chunks@[i]).index == index
                &&& standing == (if manifest.chunks@[i].digest.bytes@ != digest {
                    ChunkStanding::OtherDigest
                } else if manifest.chunks@[i].size != size {
                    ChunkStanding::OtherSize
                } else {
                    ChunkStanding::Open
                })
            }
    } else {
        standing is Open
    }
}

/// Finds where the new chunk stands against what the manifest expects.
pub fn chunk_standing(manifest: &ChunkManifest, index: u32, size: u32, digest: &Digest) -> (r:
    ChunkStanding)
    ensures
        stands(*manifest, index, size, digest.bytes@, r),
{
    match manifest.expected_chunk(index) {
        None => ChunkStanding::Open,
        Some(existing) => {
            if !same_bytes(&existing.digest.bytes, &digest.bytes) {
                ChunkStanding::OtherDigest
            } else if existing.size != size {
                ChunkStanding::OtherSize
            } else {
                ChunkStanding::Open
            }
        },
    }
}

/// In a manifest whose indices ascend, a chunk has one standing.
pub proof fn standing_is_unique(
    manifest: ChunkManifest,
    index: u32,
    size: u32,
    digest: Seq<u8>,
    first: ChunkStanding,
    second: ChunkStanding,
)
    requires
        manifest.well_formed(),
        stands(manifest, index, size, digest, first),
        stands(manifest, index, size, digest, second),
    ensures
        first == second,
{
    if manifest.expects(index) {
        let i = choose|i: int|
            {
                &&& 0 <= i < manifest.chunks@.len()
                &&& (#[trigger] manifest.chunks@[i]).index == index
                &&& first == (if manifest.chunks@[i].digest.bytes@ != digest {
                    ChunkStanding::OtherDigest
                } else if manifest.chunks@[i].size != size {
                    ChunkStanding::OtherSize
                } else {
                    ChunkStanding::Open
                })
            };
        let j = choose|j: int|
            {
                &&& 0 <= j < manifest.chunks@.len()
                &&& (#[trigger] manifest.chunks@[j]).index == index
                &&& second == (if manifest.chunks@[j].digest.bytes@ != digest {
                    ChunkStanding::OtherDigest
                } else if manifest.chunks@[j].size != size {
                    ChunkStanding::OtherSize
                } else {
                    ChunkStanding::Open
                })
            };
        if i < j {
            assert(manifest.chunks@[i].index < manifest.chunks@[j].index);
        } else if j < i {
            assert(manifest.chunks@[j].index < manifest.chunks@[i].index);
        }
    }
}

/// What becomes of a chunk whose digest could be read: it is recorded, unless
/// another one, or the same one of another size, is already expected there.
pub open spec fn readable_chunk_follows<
    R: FnOnce(&ChunkManifest, u32, u32, &Digest) -> Result<ChunkRecordOutcome, ChunkRecordError>,
>(
    decided: ChunkAcceptanceDecided,
    manifest: ChunkManifest,
    index: u32,
    size: u32,
    digest: Digest,
    record: R,
) -> bool {
    exists|standing: ChunkStanding| #[trigger]
        stands(manifest, index, size, digest.bytes@, standing) && match standing {
            ChunkStanding::OtherDigest => decided is RejectConflict,
            ChunkStanding::OtherSize => decided is FailClosed,
            ChunkStanding::Open => exists|recorded: Result<ChunkRecordOutcome, ChunkRecordError>|
                call_ensures(record, (&manifest, index, size, &digest), recorded)
                    && #[trigger] recorded_as(decided, recorded),
        }
}

/// Decides about a chunk, under the transfer's lock.
///
/// `current` rules on whether a chunk may still be uploaded; `read_digest` reads
/// the digest by the manifest's algorithm; `record` asks the manifest to take the
/// chunk. Each is asked only when everything before it was in order.
pub fn decide_chunk_acceptance<
    E: FnOnce(AuthorizationOperation, ArtifactState, bool, bool) -> bool,
    P: FnOnce(DigestAlgorithm, &str) -> Option<Digest>,
    R: FnOnce(&ChunkManifest, u32, u32, &Digest) -> Result<ChunkRecordOutcome, ChunkRecordError>,
>(
    facts: &TransferLockedFacts,
    attempt: Option<Attempt>,
    index: u32,
    size: u32,
    digest_wire: &str,
    current: E,
    read_digest: P,
    record: R,
) -> (r: ChunkAcceptanceDecided)
    requires
        call_requires(
            current,
            (
                AuthorizationOperation::ChunkUpload,
                facts.artifact.state,
                facts.manifest.sealed,
                facts.manifest.expects(index),
            ),
        ),
        call_requires(read_digest, (facts.manifest.digest_algorithm, digest_wire)),
        forall|digest: Digest| #[trigger]
            call_requires(record, (&facts.manifest, index, size, &digest)),
    ensures
        exists|fits: bool| #[trigger]
            call_ensures(
                current,
                (
                    AuthorizationOperation::ChunkUpload,
                    facts.artifact.state,
                    facts.manifest.sealed,
                    facts.manifest.expects(index),
                ),
                fits,
            ) && if !fits || !in_progress(attempt) {
                r is RejectNotContinuable
            } else if !size_fits(facts.manifest, size) {
                r is FailClosed
            } else {
                exists|digest: Option<Digest>| #[trigger]
                    call_ensures(
                        read_digest,
                        (facts.manifest.digest_algorithm, digest_wire),
                        digest,
                    ) && match digest {
                        None => r is FailClosed,
                        Some(digest) => readable_chunk_follows(
                            r,
                            facts.manifest,
                            index,
                            size,
                            digest,
                            record,
                        ),
                    }
            },
{
    let has_identity = facts.manifest.expected_chunk(index).is_some();
    if !current(
        AuthorizationOperation::ChunkUpload,
        facts.artifact.state,
        facts.manifest.sealed,
        has_identity,
    ) {
        return ChunkAcceptanceDecided::RejectNotContinuable;
    }
    match attempt {
        Some(attempt) => {
            if !matches!(attempt.state, AttemptState::InProgress) {
                return ChunkAcceptanceDecided::RejectNotContinuable;
            }
        },
        None => {
            return ChunkAcceptanceDecided::RejectNotContinuable;
        },
    }
    if size == 0 || size > facts.manifest.chunk_size {
        return ChunkAcceptanceDecided::FailClosed;
    }
    let digest = match read_digest(facts.manifest.digest_algorithm, digest_wire) {
        Some(digest) => digest,
        None => {
            return ChunkAcceptanceDecided::FailClosed;
        },
    };
    let standing = chunk_standing(&facts.manifest, index, size, &digest);
    match standing {
        ChunkStanding::OtherDigest => {
            return ChunkAcceptanceDecided::RejectConflict;
        },
        ChunkStanding::OtherSize => {
            return ChunkAcceptanceDecided::FailClosed;
        },
        ChunkStanding::Open => {},
    }
    let recorded = record(&facts.manifest, index, size, &digest);
    conclude_chunk_record(recorded)
}

/// What a worker is told about a chunk.
#[derive(Clone, Copy, Debug, PartialEq, Eq, Structural)]
pub enum ChunkAcceptanceCommit {
    Committed,
    /// The very chunk was accepted before.
    AlreadyCommitted,
    RejectedConflict,
    RejectedNotContinuable,
    /// Nothing at all.
    FailClosed,
}

/// Why the acceptance of a chunk was not committed.
#[derive(Debug)]
pub enum CommitChunkAcceptanceError {
    TransferNotFound(TransferId),
    Repository(RepositoryError),
}

/// The first step of an acceptance.
#[derive(Clone, Copy, Debug, PartialEq, Eq, Structural)]
pub enum ChunkAcceptanceStep {
    /// To be decided under the transfer's lock.
    Commit { index: u32 },
    Done(ChunkAcceptanceCommit),
}

/// Accepts chunks.
pub struct ChunkAcceptanceService<R> {
    pub repo: Arc<R>,
}

impl<R> ChunkAcceptanceService<R> {
    pub fn new(repo: Arc<R>) -> (r: Self)
        ensures
            r.repo == repo,
    {
        ChunkAcceptanceService { repo }
    }

    /// Starts an acceptance. An index outside the manifest's index space fails
    /// closed before anything is read.
    pub fn begin_chunk_acceptance(chunk_index: u64) -> (r: ChunkAcceptanceStep)
        ensures
            if chunk_index <= u32::MAX {
                r == (ChunkAcceptanceStep::Commit { index: chunk_index as u32 })
            } else {
                r == ChunkAcceptanceStep::Done(ChunkAcceptanceCommit::FailClosed)
            },
    {
        if chunk_index <= u32::MAX as u64 {
            ChunkAcceptanceStep::Commit { index: chunk_index as u32 }
        } else {
            ChunkAcceptanceStep::Done(ChunkAcceptanceCommit::FailClosed)
        }
    }

    /// Ends an acceptance. A transfer that is gone fails closed; it is no reason
    /// to reject the chunk.
    pub fn commit_chunk_acceptance(
        committed: Result<ChunkAcceptanceCommit, CommitChunkAcceptanceError>,
    ) -> (r: Result<ChunkAcceptanceCommit, ApplicationError>)
        ensures
            match committed {
                Ok(commit) => r == Ok::<ChunkAcceptanceCommit, ApplicationError>(commit),
                Err(CommitChunkAcceptanceError::TransferNotFound(_)) => r == Ok::<
                    ChunkAcceptanceCommit,
                    ApplicationError,
                >(ChunkAcceptanceCommit::FailClosed),
                Err(CommitChunkAcceptanceError::Repository(fault)) => r == Err::<
                    ChunkAcceptanceCommit,
                    ApplicationError,
                >(ApplicationError::Repository(fault)),
            },
    {
        match committed {
            Ok(commit) => Ok(commit),
            Err(CommitChunkAcceptanceError::TransferNotFound(_)) => Ok(
                ChunkAcceptanceCommit::FailClosed,
            ),
            Err(CommitChunkAcceptanceError::Repository(fault)) => Err(
                ApplicationError::Repository(fault),
            ),
        }
    }
}

/// A conflict is reported only where a chunk with another digest is already
/// expected at the index.
pub proof fn conflict_means_another_digest<
    R: FnOnce(&ChunkManifest, u32, u32, &Digest) -> Result<ChunkRecordOutcome, ChunkRecordError>,
>(
    decided: ChunkAcceptanceDecided,
    manifest: ChunkManifest,
    index: u32,
    size: u32,
    digest: Digest,
    record: R,
)
    requires
        readable_chunk_follows(decided, manifest, index, size, digest, record),
        decided is RejectConflict,
    ensures
        exists|i: int|
            0 <= i < manifest.chunks@.len() && (#[trigger] manifest.chunks@[i]).index == index
                && manifest.chunks@[i].digest.bytes@ != digest.bytes@,
{
    let standing = choose|standing: ChunkStanding| #[trigger]
        stands(manifest, index, size, digest.bytes@, standing) && match standing {
            ChunkStanding::OtherDigest => decided is RejectConflict,
            ChunkStanding::OtherSize => decided is FailClosed,
            ChunkStanding::Open => exists|recorded: Result<ChunkRecordOutcome, ChunkRecordError>|
                call_ensures(record, (&manifest, index, size, &digest), recorded)
                    && #[trigger] recorded_as(decided, recorded),
        };
    assert(standing is OtherDigest);
}

/// A chunk is committed only while its attempt is in progress, where an upload fits the
/// artifact, within the manifest's chunk size, under the digest that was read from what
/// was sent, and as the manifest took it.
pub proof fn committed_chunk_is_in_order<
    E: FnOnce(AuthorizationOperation, ArtifactState, bool, bool) -> bool,
    P: FnOnce(DigestAlgorithm, &str) -> Option<Digest>,
    R: FnOnce(&ChunkManifest, u32, u32, &Digest) -> Result<ChunkRecordOutcome, ChunkRecordError>,
>(
    facts: TransferLockedFacts,
    attempt: Option<Attempt>,
    index: u32,
    size: u32,
    digest_wire: &str,
    current: E,
    read_digest: P,
    record: R,
    r: ChunkAcceptanceDecided,
)
    requires
        call_ensures(
            decide_chunk_acceptance::<E, P, R>,
            (&facts, attempt, index, size, digest_wire, current, read_digest, record),
            r,
        ),
    ensures
        r matches ChunkAcceptanceDecided::Commit(outcome) ==> {
            &&& attempt is Some && attempt->Some_0.state is InProgress
            &&& 0 < size <= facts.manifest.chunk_size
            &&& exists|expected: bool| #[trigger]
                call_ensures(
                    current,
                    (
                        AuthorizationOperation::ChunkUpload,
                        facts.artifact.state,
                        facts.manifest.sealed,
                        expected,
                    ),
                    true,
                ) && (expected <==> exists|i: int|
                    0 <= i < facts.manifest.chunks@.len() && (
                    #[trigger] facts.manifest.chunks@[i]).index == index)
            &&& exists|digest: Digest| #[trigger]
                call_ensures(
                    read_digest,
                    (facts.manifest.digest_algorithm, digest_wire),
                    Some(digest),
                ) && call_ensures(record, (&facts.manifest, index, size, &digest), Ok(outcome))
        },
{
}

/// A chunk of an attempt that is not in progress, or that the artifact has no place
/// for any more, is not continued.
pub proof fn late_chunk_is_not_continued<
    E: FnOnce(AuthorizationOperation, ArtifactState, bool, bool) -> bool,
    P: FnOnce(DigestAlgorithm, &str) -> Option<Digest>,
    R: FnOnce(&ChunkManifest, u32, u32, &Digest) -> Result<ChunkRecordOutcome, ChunkRecordError>,
>(
    facts: TransferLockedFacts,
    attempt: Option<Attempt>,
    index: u32,
    size: u32,
    digest_wire: &str,
    current: E,
    read_digest: P,
    record: R,
    r: ChunkAcceptanceDecided,
)
    requires
        call_ensures(
            decide_chunk_acceptance::<E, P, R>,
            (&facts, attempt, index, size, digest_wire, current, read_digest, record),
            r,
        ),
        attempt is None || attempt->Some_0.state !is InProgress || forall|
            expected: bool,
            fits: bool,
        | #[trigger]
            call_ensures(
                current,
                (
                    AuthorizationOperation::ChunkUpload,
                    facts.artifact.state,
                    facts.manifest.sealed,
                    expected,
                ),
                fits,
            ) ==> !fits,
    ensures
        r is RejectNotContinuable,
{
}

/// A chunk of no size, of more than the manifest's chunk size, or whose digest cannot
/// be read fails closed.
pub proof fn malformed_chunk_fails_closed<
    E: FnOnce(AuthorizationOperation, ArtifactState, bool, bool) -> bool,
    P: FnOnce(DigestAlgorithm, &str) -> Option<Digest>,
    R: FnOnce(&ChunkManifest, u32, u32, &Digest) -> Result<ChunkRecordOutcome, ChunkRecordError>,
>(
    facts: TransferLockedFacts,
    attempt: Option<Attempt>,
    index: u32,
    size: u32,
    digest_wire: &str,
    current: E,
    read_digest: P,
    record: R,
    r: ChunkAcceptanceDecided,
)
    requires
        call_ensures(
            decide_chunk_acceptance::<E, P, R>,
            (&facts, attempt, index, size, digest_wire, current, read_digest, record),
            r,
        ),
        forall|expected: bool, fits: bool| #[trigger]
            call_ensures(
                current,
                (
                    AuthorizationOperation::ChunkUpload,
                    facts.artifact.state,
                    facts.manifest.sealed,
                    expected,
                ),
                fits,
            ) ==> fits,
        attempt matches Some(attempt) && attempt.state is InProgress,
        size == 0 || size > facts.manifest.chunk_size || forall|digest: Option<Digest>| #[trigger]
            call_ensures(read_digest, (facts.manifest.digest_algorithm, digest_wire), digest)
                ==> digest is None,
    ensures
        r is FailClosed,
{
}

/// Where nothing is expected yet, the manifest is asked to take the chunk. It is
/// committed as taken; that no more is taken is told; anything else fails closed.
pub proof fn chunk_in_a_free_place_is_recorded<
    E: FnOnce(AuthorizationOperation, ArtifactState, bool, bool) -> bool,
    P: FnOnce(DigestAlgorithm, &str) -> Option<Digest>,
    R: FnOnce(&ChunkManifest, u32, u32, &Digest) -> Result<ChunkRecordOutcome, ChunkRecordError>,
>(
    facts: TransferLockedFacts,
    attempt: Option<Attempt>,
    index: u32,
    size: u32,
    digest_wire: &str,
    current: E,
    read_digest: P,
    record: R,
    r: ChunkAcceptanceDecided,
)
    requires
        call_ensures(
            decide_chunk_acceptance::<E, P, R>,
            (&facts, attempt, index, size, digest_wire, current, read_digest, record),
            r,
        ),
        forall|expected: bool, fits: bool| #[trigger]
            call_ensures(
                current,
                (
                    AuthorizationOperation::ChunkUpload,
                    facts.artifact.state,
                    facts.manifest.sealed,
                    expected,
                ),
                fits,
            ) ==> fits,
        attempt matches Some(attempt) && attempt.state is InProgress,
        0 < size <= facts.manifest.chunk_size,
        forall|digest: Option<Digest>| #[trigger]
            call_ensures(read_digest, (facts.manifest.digest_algorithm, digest_wire), digest)
                ==> digest is Some,
        forall|i: int|
            0 <= i < facts.manifest.chunks@.len() ==> (#[trigger] facts.manifest.chunks@[i]).index
                != index,
    ensures
        exists|digest: Digest, recorded: Result<ChunkRecordOutcome, ChunkRecordError>| #[trigger]
            call_ensures(record, (&facts.manifest, index, size, &digest), recorded)
                && call_ensures(
                read_digest,
                (facts.manifest.digest_algorithm, digest_wire),
                Some(digest),
            ) && (recorded matches Ok(outcome) ==> r == ChunkAcceptanceDecided::Commit(outcome)) && (
            recorded == Err::<ChunkRecordOutcome, ChunkRecordError>(
                ChunkRecordError::NotContinuable,
            ) ==> r is RejectNotContinuable) && (recorded == Err::<
                ChunkRecordOutcome,
                ChunkRecordError,
            >(ChunkRecordError::Conflict) ==> r is FailClosed) && (recorded == Err::<
                ChunkRecordOutcome,
                ChunkRecordError,
            >(ChunkRecordError::InvalidDigestLength) ==> r is FailClosed),
{
    let digest = choose|digest: Option<Digest>| #[trigger]
        call_ensures(read_digest, (facts.manifest.digest_algorithm, digest_wire), digest)
            && match digest {
            None => r is FailClosed,
            Some(digest) => readable_chunk_follows(
                r,
                facts.manifest,
                index,
                size,
                digest,
                record,
            ),
        };
    let declared = digest->Some_0;
    let recorded = choose|recorded: Result<ChunkRecordOutcome, ChunkRecordError>|
        call_ensures(record, (&facts.manifest, index, size, &declared), recorded)
            && #[trigger] recorded_as(r, recorded);
    assert(call_ensures(record, (&facts.manifest, index, size, &declared), recorded));
    assert(call_ensures(
        read_digest,
        (facts.manifest.digest_algorithm, digest_wire),
        Some(declared),
    ));
}

/// Where a chunk is expected already, one with another digest is a conflict, and the
/// same one of another size fails closed.
pub proof fn other_chunk_in_a_taken_place_is_refused<
    E: FnOnce(AuthorizationOperation, ArtifactState, bool, bool) -> bool,
    P: FnOnce(DigestAlgorithm, &str) -> Option<Digest>,
    R: FnOnce(&ChunkManifest, u32, u32, &Digest) -> Result<ChunkRecordOutcome, ChunkRecordError>,
>(
    facts: TransferLockedFacts,
    attempt: Option<Attempt>,
    index: u32,
    size: u32,
    digest_wire: &str,
    current: E,
    read_digest: P,
    record: R,
    i: int,
    r: ChunkAcceptanceDecided,
)
    requires
        call_ensures(
            decide_chunk_acceptance::<E, P, R>,
            (&facts, attempt, index, size, digest_wire, current, read_digest, record),
            r,
        ),
        forall|expected: bool, fits: bool| #[trigger]
            call_ensures(
                current,
                (
                    AuthorizationOperation::ChunkUpload,
                    facts.artifact.state,
                    facts.manifest.sealed,
                    expected,
                ),
                fits,
            ) ==> fits,
        attempt matches Some(attempt) && attempt.state is InProgress,
        0 < size <= facts.manifest.chunk_size,
        facts.manifest.well_formed(),
        0 <= i < facts.manifest.chunks@.len(),
        facts.manifest.chunks@[i].index == index,
        forall|digest: Option<Digest>| #[trigger]
            call_ensures(read_digest, (facts.manifest.digest_algorithm, digest_wire), digest)
                ==> digest is Some,
    ensures
        (forall|digest: Option<Digest>| #[trigger]
            call_ensures(read_digest, (facts.manifest.digest_algorithm, digest_wire), digest)
                ==> digest->Some_0.bytes@ != facts.manifest.chunks@[i].digest.bytes@) ==> r
            is RejectConflict,
        (forall|digest: Option<Digest>| #[trigger]
            call_ensures(read_digest, (facts.manifest.digest_algorithm, digest_wire), digest)
                ==> digest->Some_0.bytes@ == facts.manifest.chunks@[i].digest.bytes@)
            && facts.manifest.chunks@[i].size != size ==> r is FailClosed,
        (forall|digest: Option<Digest>| #[trigger]
            call_ensures(read_digest, (facts.manifest.digest_algorithm, digest_wire), digest)
                ==> digest->Some_0.bytes@ == facts.manifest.chunks@[i].digest.bytes@) ==> r
            !is RejectConflict,
{
    assert(facts.manifest.expects(index));
    let digest = choose|digest: Option<Digest>| #[trigger]
        call_ensures(read_digest, (facts.manifest.digest_algorithm, digest_wire), digest)
            && match digest {
            None => r is FailClosed,
            Some(digest) => readable_chunk_follows(
                r,
                facts.manifest,
                index,
                size,
                digest,
                record,
            ),
        };
    let bytes = digest->Some_0.bytes@;
    let found = if facts.manifest.chunks@[i].digest.bytes@ != bytes {
        ChunkStanding::OtherDigest
    } else if facts.manifest.chunks@[i].size != size {
        ChunkStanding::OtherSize
    } else {
        ChunkStanding::Open
    };
    let standing = choose|standing: ChunkStanding| #[trigger]
        stands(facts.manifest, index, size, bytes, standing) && match standing {
            ChunkStanding::OtherDigest => r is RejectConflict,
            ChunkStanding::OtherSize => r is FailClosed,
            ChunkStanding::Open => exists|recorded: Result<ChunkRecordOutcome, ChunkRecordError>|
                call_ensures(record, (&facts.manifest, index, size, &digest->Some_0), recorded)
                    && #[trigger] recorded_as(r, recorded),
        };
    assert(stands(facts.manifest, index, size, bytes, found));
    standing_is_unique(facts.manifest, index, size, bytes, found, standing);
}

/// In a manifest whose indices ascend, a chunk stands against the one at its index: by
/// the digest first, by the size second. Where none is, its place is open.
pub proof fn standing_goes_by_digest_and_size(
    manifest: ChunkManifest,
    index: u32,
    size: u32,
    digest: Digest,
    i: int,
    r: ChunkStanding,
)
    requires
        call_ensures(chunk_standing, (&manifest, index, size, &digest), r),
        manifest.well_formed(),
    ensures
        0 <= i < manifest.chunks@.len() && manifest.chunks@[i].index == index ==> {
            &&& r is OtherDigest <==> manifest.chunks@[i].digest.bytes@ != digest.bytes@
            &&& r is OtherSize <==> manifest.chunks@[i].digest.bytes@ == digest.bytes@
                && manifest.chunks@[i].size != size
        },
        (forall|j: int|
            0 <= j < manifest.chunks@.len() ==> (#[trigger] manifest.chunks@[j]).index != index)
            ==> r is Open,
{
    if 0 <= i < manifest.chunks@.len() && manifest.chunks@[i].index == index {
        assert(manifest.expects(index));
        let found = if manifest.chunks@[i].digest.bytes@ != digest.bytes@ {
            ChunkStanding::OtherDigest
        } else if manifest.chunks@[i].size != size {
            ChunkStanding::OtherSize
        } else {
            ChunkStanding::Open
        };
        assert(stands(manifest, index, size, digest.bytes@, found));
        standing_is_unique(manifest, index, size, digest.bytes@, found, r);
    }
}

/// The manifest's answer is committed as it is; that no more is taken is told; a
/// conflict that only the manifest saw, and a digest of a wrong length, fail closed.
pub proof fn manifest_answer_is_concluded(
    recorded: Result<ChunkRecordOutcome, ChunkRecordError>,
    r: ChunkAcceptanceDecided,
)
    requires
        call_ensures(conclude_chunk_record, (recorded,), r),
    ensures
        r is Commit <==> recorded is Ok,
        r matches ChunkAcceptanceDecided::Commit(outcome) ==> recorded->Ok_0 == outcome,
        r is RejectNotContinuable <==> (recorded matches Err(error) && error is NotContinuable),
        r is FailClosed <==> (recorded matches Err(error) && (error is Conflict || error
            is InvalidDigestLength)),
{
}

/// An acceptance begins with the very index that was sent, where the manifest can have
/// one; otherwise it fails closed.
pub proof fn acceptance_begins_at_the_index_sent<R>(chunk_index: u64, r: ChunkAcceptanceStep)
    requires
        call_ensures(ChunkAcceptanceService::<R>::begin_chunk_acceptance, (chunk_index,), r),
    ensures
        r matches ChunkAcceptanceStep::Commit { index } ==> index == chunk_index,
        chunk_index <= 0xffff_ffff <==> r is Commit,
        r matches ChunkAcceptanceStep::Done(commit) ==> commit is FailClosed,
{
}

/// An acceptance ends as it was committed; a transfer that is gone fails closed, and a
/// fault of the storage is told.
pub proof fn acceptance_is_told_as_committed<R>(
    committed: Result<ChunkAcceptanceCommit, CommitChunkAcceptanceError>,
    r: Result<ChunkAcceptanceCommit, ApplicationError>,
)
    requires
        call_ensures(ChunkAcceptanceService::<R>::commit_chunk_acceptance, (committed,), r),
    ensures
        committed matches Ok(commit) ==> r is Ok && r->Ok_0 == commit,
        committed matches Err(CommitChunkAcceptanceError::TransferNotFound(_)) ==> r is Ok
            && r->Ok_0 is FailClosed,
        committed matches Err(CommitChunkAcceptanceError::Repository(fault)) ==> r is Err
            && r->Err_0 == ApplicationError::Repository(fault),
{
}

} // verus!
