//! The records that decisions are made on, as plain values.

use vstd::prelude::*;
use crate::clock::Timestamp;
use crate::ids::{
    ActionId, ArtifactId, AttemptId, EndpointId, InventoryRevisionId, JobId, JobStepId, TransferId,
};

verus! {

#[derive(Clone, Copy, Debug, PartialEq, Eq, Structural)]
pub enum JobState {
    Pending,
    Running,
    Cancelling,
    Succeeded,
    Failed,
    Cancelled,
}

#[derive(Clone, Copy, Debug, PartialEq, Eq, Structural)]
pub enum JobStepState {
    Pending,
    PreconditionsSatisfied,
    Dispatching,
    Succeeded,
    Failed,
    Cancelled,
}

#[derive(Clone, Copy, Debug, PartialEq, Eq, Structural)]
pub enum JobStepFailureReason {
    DispatchRejected,
    ExecutionFailed,
}

#[derive(Clone, Copy, Debug, PartialEq, Eq, Structural)]
pub enum AttemptState {
    Dispatched,
    InProgress,
    AwaitingReconciliation,
    Succeeded,
    Failed,
    Cancelled,
    Rejected,
    Indeterminate,
}

impl AttemptState {
    /// Still running, or of an outcome not yet known.
    pub open spec fn active(self) -> bool {
        self is Dispatched || self is InProgress || self is AwaitingReconciliation
    }

    pub fn is_active(self) -> (r: bool)
        ensures
            r == self.active(),
    {
        matches!(
            self,
            AttemptState::Dispatched | AttemptState::InProgress
                | AttemptState::AwaitingReconciliation
        )
    }

    /// The state's name.
    pub open spec fn name_text(self) -> Seq<char> {
        match self {
            AttemptState::Dispatched => "Dispatched"@,
            AttemptState::InProgress => "InProgress"@,
            AttemptState::AwaitingReconciliation => "AwaitingReconciliation"@,
            AttemptState::Succeeded => "Succeeded"@,
            AttemptState::Failed => "Failed"@,
            AttemptState::Cancelled => "Cancelled"@,
            AttemptState::Rejected => "Rejected"@,
            AttemptState::Indeterminate => "Indeterminate"@,
        }
    }

    pub fn name(self) -> (r: &'static str)
        ensures
            r@ == self.name_text(),
    {
        match self {
            AttemptState::Dispatched => "Dispatched",
            AttemptState::InProgress => "InProgress",
            AttemptState::AwaitingReconciliation => "AwaitingReconciliation",
            AttemptState::Succeeded => "Succeeded",
            AttemptState::Failed => "Failed",
            AttemptState::Cancelled => "Cancelled",
            AttemptState::Rejected => "Rejected",
            AttemptState::Indeterminate => "Indeterminate",
        }
    }
}

#[derive(Clone, Copy, Debug, PartialEq, Eq, Structural)]
pub enum IdentityState {
    PendingEnrollment,
    Enrolled,
    Retired,
}

#[derive(Clone, Copy, Debug, PartialEq, Eq, Structural)]
pub enum HardwareConfidence {
    Consistent,
    LoweredConfidence,
    Conflict,
}

#[derive(Clone, Copy, Debug, PartialEq, Eq, Structural)]
pub enum TrustedBootstrapState {
    NotEstablished,
    Established,
}

#[derive(Clone, Copy, Debug, PartialEq, Eq, Structural)]
pub enum TransferDirection {
    AgentToServer,
}

#[derive(Clone, Copy, Debug, PartialEq, Eq, Structural)]
pub enum DigestAlgorithm {
    Sha256,
}

#[derive(Clone, Copy, Debug, PartialEq, Eq, Structural)]
pub enum ArtifactState {
    Incomplete,
    PendingVerification,
    Verified,
    Failed,
}

#[derive(Clone, Copy, Debug, PartialEq, Eq, Structural)]
pub enum CaptureConsistency {
    NotApplicable,
    NotEstablished,
    Established,
}

/// What identifies a target disk.
#[derive(Debug)]
pub struct TargetFingerprint {
    pub value: String,
}

impl TargetFingerprint {
    pub fn new(value: &str) -> (r: TargetFingerprint)
        ensures
            r.value@ == value@,
    {
        TargetFingerprint { value: value.to_owned() }
    }

    pub fn as_str(&self) -> (r: &str)
        ensures
            r@ == self.value@,
    {
        self.value.as_str()
    }
}

/// The inventory and the target that a destructive step was authorized against.
#[derive(Debug)]
pub struct DestructiveIntent {
    pub authorized_inventory_revision_id: InventoryRevisionId,
    pub authorized_target_fingerprint: TargetFingerprint,
}

#[derive(Debug)]
pub struct JobStep {
    pub id: JobStepId,
    pub job_id: JobId,
    pub order: i32,
    pub state: JobStepState,
    pub destructive_intent: Option<DestructiveIntent>,
    pub failure_reason: Option<JobStepFailureReason>,
}

#[derive(Debug)]
pub struct Job {
    pub id: JobId,
    pub endpoint_id: EndpointId,
    pub state: JobState,
    pub steps: Vec<JobStep>,
}

#[derive(Clone, Copy, Debug, PartialEq, Eq, Structural)]
pub struct Attempt {
    pub id: AttemptId,
    pub job_step_id: JobStepId,
    pub action_id: ActionId,
    pub state: AttemptState,
}

#[derive(Debug)]
pub struct Transfer {
    pub id: TransferId,
    pub endpoint_id: EndpointId,
    pub job_id: JobId,
    pub job_step_id: JobStepId,
    pub artifact_id: ArtifactId,
    pub direction: TransferDirection,
    pub digest_algorithm: DigestAlgorithm,
    pub chunk_size: u32,
    pub source_provenance: String,
    pub attempt_id: Option<AttemptId>,
}

#[derive(Clone, Copy, Debug, PartialEq, Eq, Structural)]
pub struct Artifact {
    pub id: ArtifactId,
    pub state: ArtifactState,
    pub capture_consistency: CaptureConsistency,
}

/// On whose authority something was done.
#[derive(Debug)]
pub enum Actor {
    Operator { label: String },
    System,
}

/// One line of the audit trail.
#[derive(Debug)]
pub struct AuditRecord {
    pub audit_id: u128,
    pub endpoint_id: EndpointId,
    pub actor: Actor,
    pub occurred_at: Timestamp,
    pub detail: String,
    pub job_id: Option<JobId>,
    pub job_step_id: Option<JobStepId>,
    pub attempt_id: Option<AttemptId>,
    pub action_id: Option<ActionId>,
}

/// What a domain event reports, beyond its envelope.
#[derive(Debug)]
pub enum DomainEventBody {
    EndpointPendingEnrollment,
    EndpointEnrolled,
    OperatorDecisionRecorded { decision: String, actor: Actor },
    InventoryRevisionRecorded { inventory_revision_id: InventoryRevisionId },
    JobStarted,
    JobSucceeded,
    JobFailed,
    JobStepFailed,
    JobCancelled,
    AttemptIndeterminate,
}

#[derive(Debug)]
pub struct DomainEvent {
    pub event_id: u128,
    pub endpoint_id: EndpointId,
    pub job_id: Option<JobId>,
    pub job_step_id: Option<JobStepId>,
    pub occurred_at: Timestamp,
    pub body: DomainEventBody,
}

/// A digest: its bytes, and the text by which it travels.
#[derive(Debug)]
pub struct Digest {
    pub bytes: Vec<u8>,
    pub wire: String,
}

/// What a manifest expects at one chunk index.
#[derive(Debug)]
pub struct ExpectedChunk {
    pub index: u32,
    pub size: u32,
    pub digest: Digest,
}

/// The expected chunks of one artifact, ascending by index, and the seal once
/// it is set.
#[derive(Debug)]
pub struct ChunkManifest {
    pub artifact_id: ArtifactId,
    pub digest_algorithm: DigestAlgorithm,
    pub chunk_size: u32,
    pub sealed: bool,
    pub chunk_count: Option<u32>,
    pub artifact_digest: Option<Digest>,
    pub chunks: Vec<ExpectedChunk>,
}

impl ChunkManifest {
    /// Chunk indices ascend without repetition.
    pub open spec fn well_formed(&self) -> bool {
        forall|i: int, j: int|
            0 <= i < j < self.chunks@.len() ==> (#[trigger] self.chunks@[i]).index < (
            #[trigger] self.chunks@[j]).index
    }

    /// The manifest expects a chunk at `index`.
    pub open spec fn expects(&self, index: u32) -> bool {
        exists|i: int| 0 <= i < self.chunks@.len() && (#[trigger] self.chunks@[i]).index == index
    }

    /// What the manifest expects at `index`.
    pub fn expected_chunk(&self, index: u32) -> (r: Option<&ExpectedChunk>)
        ensures
            r is Some <==> self.expects(index),
            r matches Some(chunk) ==> chunk.index == index && self.chunks@.contains(*chunk),
    {
        let mut i: usize = 0;
        while i < self.chunks.len()
            invariant
                i <= self.chunks@.len(),
                forall|j: int| 0 <= j < i ==> (#[trigger] self.chunks@[j]).index != index,
            decreases self.chunks@.len() - i,
        {
            if self.chunks[i].index == index {
                return Some(&self.chunks[i]);
            }
            i = i + 1;
        }
        None
    }
}

/// Indices ascend without repetition.
pub open spec fn strictly_ascending(indices: Seq<u32>) -> bool {
    forall|i: int, j: int| 0 <= i < j < indices.len() ==> indices[i] < indices[j]
}

/// Everything durable about one transfer, read under one lock.
#[derive(Debug)]
pub struct TransferLockedFacts {
    pub transfer: Transfer,
    pub artifact: Artifact,
    pub manifest: ChunkManifest,
    pub held_chunk_indices: Vec<u32>,
}

#[derive(Debug)]
pub struct CredentialSlot {
    pub lookup_id: Vec<u8>,
    pub hash: Vec<u8>,
    pub issued_at: Timestamp,
    pub expires_at: Timestamp,
}

#[derive(Debug)]
pub struct CredentialChain {
    pub predecessor: CredentialSlot,
    pub successor: Option<CredentialSlot>,
    pub revoked: bool,
}

#[derive(Debug)]
pub struct CurrentBoot {
    pub boot_context_id: Vec<u8>,
    pub boot_nonce: Vec<u8>,
    pub trusted_bootstrap: TrustedBootstrapState,
}

#[derive(Debug)]
pub struct EndpointAggregate {
    pub id: EndpointId,
    pub inventory_signal: String,
    pub identity: IdentityState,
    pub credential: CredentialChain,
    pub hardware_confidence: HardwareConfidence,
    pub current_boot: Option<CurrentBoot>,
    pub created_at: Timestamp,
    pub updated_at: Timestamp,
}

/// Where a credential stands at some moment: only an active one carries weight.
#[derive(Clone, Copy, Debug, PartialEq, Eq, Structural)]
pub enum CredentialDimension {
    CredentialActive,
    CredentialInactive,
}

/// An attempt is active until it has come to one of its five ends.
pub proof fn attempt_is_active_until_it_ends(state: AttemptState, r: bool)
    requires
        call_ensures(AttemptState::is_active, (state,), r),
    ensures
        r <==> !(state is Succeeded || state is Failed || state is Cancelled || state is Rejected
            || state is Indeterminate),
{
}

/// Every state goes by its own name.
pub proof fn states_go_by_their_names(state: AttemptState, r: &'static str)
    requires
        call_ensures(AttemptState::name, (state,), r),
    ensures
        r@ == "Dispatched"@ <==> state is Dispatched,
        r@ == "InProgress"@ <==> state is InProgress,
        r@ == "AwaitingReconciliation"@ <==> state is AwaitingReconciliation,
        r@ == "Succeeded"@ <==> state is Succeeded,
        r@ == "Failed"@ <==> state is Failed,
        r@ == "Cancelled"@ <==> state is Cancelled,
        r@ == "Rejected"@ <==> state is Rejected,
        r@ == "Indeterminate"@ <==> state is Indeterminate,
{
    reveal_strlit("Dispatched");
    reveal_strlit("InProgress");
    reveal_strlit("AwaitingReconciliation");
    reveal_strlit("Succeeded");
    reveal_strlit("Failed");
    reveal_strlit("Cancelled");
    reveal_strlit("Rejected");
    reveal_strlit("Indeterminate");
    assert("Dispatched"@[0] == 'D');
    assert("InProgress"@[0] == 'I');
    assert("InProgress"@.len() == 10);
    assert("Dispatched"@.len() == 10);
    assert("AwaitingReconciliation"@.len() == 22);
    assert("Succeeded"@.len() == 9);
    assert("Failed"@.len() == 6);
    assert("Cancelled"@.len() == 9);
    assert("Succeeded"@[0] == 'S');
    assert("Cancelled"@[0] == 'C');
    assert("Rejected"@.len() == 8);
    assert("Indeterminate"@.len() == 13);
}

/// A manifest finds the chunk at an index wherever one of its chunks has it, and
/// what it finds has that index and is one of its own.
pub proof fn manifest_finds_its_own_chunks(
    manifest: ChunkManifest,
    index: u32,
    r: Option<&ExpectedChunk>,
)
    requires
        call_ensures(ChunkManifest::expected_chunk, (&manifest, index), r),
    ensures
        forall|i: int|
            0 <= i < manifest.chunks@.len() && (#[trigger] manifest.chunks@[i]).index == index
                ==> r is Some,
        r matches Some(chunk) ==> chunk.index == index && exists|i: int|
            0 <= i < manifest.chunks@.len() && #[trigger] manifest.chunks@[i] == *chunk,
{
}

/// A target is told by the very text that it was made of.
pub proof fn target_is_told_as_it_was_made(value: &str, made: TargetFingerprint, told: &str)
    requires
        call_ensures(TargetFingerprint::new, (value,), made),
        call_ensures(TargetFingerprint::as_str, (&made,), told),
    ensures
        told@ == value@,
{
}

} // verus!
