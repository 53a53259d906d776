//! Authorization to move data: the capability that an agent is issued, and the
//! decision on every request that presents one.
//!
//! A request that is denied is denied without a reason; and the proof that it
//! carries is marked as used only once everything else about it is in order.

use vstd::prelude::*;
use std::sync::Arc;
use crate::bytes::copy_bytes;
use crate::clock::{self, deadline_from_millis, expiry, SystemClock, TimeSpan, Timestamp};
use crate::errors::{ApplicationError, RepositoryError};
use crate::ids::{self, ArtifactId, AttemptId, EndpointId, ProtocolId, TransferId};
use crate::model::{
    self, Artifact, ArtifactState, Attempt, AttemptState, ChunkManifest, CredentialChain,
    CredentialDimension, DigestAlgorithm, EndpointAggregate, Transfer, TransferDirection,
};
use crate::text::{self, decimal};

verus! {

#[derive(Clone, Copy, Debug, PartialEq, Eq, Structural)]
pub enum AuthorizationOperation {
    ChunkUpload,
    ResumeDiscovery,
    SealManifest,
}

/// What a capability is good for, and for whom.
#[derive(Debug)]
pub struct CapabilityBinding {
    pub endpoint_id: EndpointId,
    pub transfer_id: TransferId,
    pub artifact_id: ArtifactId,
    pub direction: TransferDirection,
    pub attempt_id: AttemptId,
    pub proof_public_key: Vec<u8>,
    pub expires_at: Timestamp,
    pub epoch: u64,
}

/// An operation as it is held against a capability.
#[derive(Clone, Copy, Debug, PartialEq, Eq, Structural)]
pub struct RequestedOperation {
    pub operation: AuthorizationOperation,
    pub transfer_id: TransferId,
    pub artifact_id: ArtifactId,
    pub direction: TransferDirection,
    pub chunk_index: Option<u64>,
}

/// What a proof is signed over, besides the capability itself.
#[derive(Debug)]
pub struct ProofTranscriptFields {
    pub requested: RequestedOperation,
    pub proof_id: Vec<u8>,
    pub issued_at_millis: u64,
}

/// Everything durable that a request is held against, read under one lock.
#[derive(Debug)]
pub struct AuthorizationDurableState {
    pub transfer: Transfer,
    pub artifact: Artifact,
    pub manifest: ChunkManifest,
    pub held_chunk_indices: Vec<u32>,
    pub attempt: Option<Attempt>,
    pub endpoint: EndpointAggregate,
}

/// What a worker forwards from a request.
#[derive(Debug)]
pub struct WorkerAuthorizationQueryInput {
    pub token: String,
    pub operation: AuthorizationOperation,
    pub transfer_id: u128,
    pub chunk_index: Option<u64>,
    pub proof_id: String,
    pub issued_at_millis: u64,
    pub signature: String,
}

/// The operation that a request asks for. The artifact and the direction are the
/// capability's; the request has no say in them.
pub open spec fn requested_of(
    operation: AuthorizationOperation,
    transfer_id: TransferId,
    chunk_index: Option<u64>,
    binding: CapabilityBinding,
) -> RequestedOperation {
    RequestedOperation {
        operation,
        transfer_id,
        artifact_id: binding.artifact_id,
        direction: binding.direction,
        chunk_index,
    }
}

/// Builds the operation that a request asks for.
pub fn requested_operation(
    operation: AuthorizationOperation,
    transfer_id: TransferId,
    chunk_index: Option<u64>,
    binding: &CapabilityBinding,
) -> (r: RequestedOperation)
    ensures
        r == requested_of(operation, transfer_id, chunk_index, *binding),
{
    RequestedOperation {
        operation,
        transfer_id,
        artifact_id: binding.artifact_id,
        direction: binding.direction,
        chunk_index,
    }
}

/// Builds what the request's proof has to be signed over. A proof that was
/// signed over another artifact or direction than the capability's does not
/// verify against this.
pub fn transcript_fields(
    requested: RequestedOperation,
    proof_id: Vec<u8>,
    issued_at_millis: u64,
) -> (r: ProofTranscriptFields)
    ensures
        r.requested == requested,
        r.proof_id == proof_id,
        r.issued_at_millis == issued_at_millis,
{
    ProofTranscriptFields { requested, proof_id, issued_at_millis }
}

/// How a presented capability and its proof fared, each on its own terms.
#[derive(Clone, Copy, Debug, PartialEq, Eq, Structural)]
pub struct ProofRulings {
    /// Neither expired nor of an earlier process.
    pub capability_current: bool,
    /// Issued for this operation on this transfer.
    pub capability_matches: bool,
    pub proof_id_readable: bool,
    pub signature_readable: bool,
    /// Signed neither too long ago nor too far ahead.
    pub proof_fresh: bool,
    /// Signed with the capability's key over the expected transcript.
    pub signature_valid: bool,
}

impl ProofRulings {
    /// Nothing stands against the request so far.
    pub open spec fn hold(self) -> bool {
        &&& self.capability_current
        &&& self.capability_matches
        &&& self.proof_id_readable
        &&& self.signature_readable
        &&& self.proof_fresh
        &&& self.signature_valid
    }

    pub fn all_hold(self) -> (r: bool)
        ensures
            r == self.hold(),
    {
        self.capability_current && self.capability_matches && self.proof_id_readable
            && self.signature_readable && self.proof_fresh && self.signature_valid
    }
}

/// The operation that a forwarded request asks for, by the capability it presents.
pub open spec fn requested_by(
    input: WorkerAuthorizationQueryInput,
    binding: CapabilityBinding,
) -> RequestedOperation {
    requested_of(input.operation, TransferId(input.transfer_id), input.chunk_index, binding)
}

/// What the proof of a forwarded request has to be signed over.
pub open spec fn is_transcript_of(
    fields: ProofTranscriptFields,
    input: WorkerAuthorizationQueryInput,
    binding: CapabilityBinding,
    proof_id: Vec<u8>,
) -> bool {
    &&& fields.requested == requested_by(input, binding)
    &&& fields.proof_id@ == proof_id@
    &&& fields.issued_at_millis == input.issued_at_millis
}

/// `valid` is the answer about the signature: with the capability's own key, over
/// the request's own transcript. It is asked for only where both the proof's
/// identity and the signature could be read.
pub open spec fn signature_ruled<
    V: FnOnce(&Vec<u8>, &String, &ProofTranscriptFields, &Vec<u8>) -> bool,
>(
    input: WorkerAuthorizationQueryInput,
    binding: CapabilityBinding,
    proof_id: Option<Vec<u8>>,
    signature: Option<Vec<u8>>,
    verify: V,
    valid: bool,
) -> bool {
    match (proof_id, signature) {
        (Some(id), Some(signature)) => exists|fields: ProofTranscriptFields|
            is_transcript_of(fields, input, binding, id) && #[trigger] call_ensures(
                verify,
                (&binding.proof_public_key, &input.token, &fields, &signature),
                valid,
            ),
        _ => !valid,
    }
}

/// A presented capability, if there is one, and how it and its proof fared.
#[derive(Debug)]
pub struct RuledProof {
    pub found: Option<CapabilityBinding>,
    pub rulings: ProofRulings,
    /// The proof's identity, where it could be read.
    pub proof_id: Option<Vec<u8>>,
}

/// Rules on a forwarded request's capability and proof. The token leads to the
/// capability; without one no other rule is asked. Every rule is asked about the
/// request as it was forwarded, the capability that the token led to, and this
/// moment.
pub fn rule_on_proof<
    L: FnOnce(&String) -> Option<CapabilityBinding>,
    C: FnOnce(&CapabilityBinding, Timestamp, u64) -> bool,
    M: FnOnce(&CapabilityBinding, &RequestedOperation) -> bool,
    I: FnOnce(&String) -> Option<Vec<u8>>,
    S: FnOnce(&String) -> Option<Vec<u8>>,
    F: FnOnce(u64, Timestamp) -> bool,
    V: FnOnce(&Vec<u8>, &String, &ProofTranscriptFields, &Vec<u8>) -> bool,
>(
    input: &WorkerAuthorizationQueryInput,
    now: Timestamp,
    epoch: u64,
    lookup: L,
    is_current: C,
    matches_request: M,
    read_proof_id: I,
    read_signature: S,
    is_fresh: F,
    verify: V,
) -> (r: RuledProof)
    requires
        call_requires(lookup, (&input.token,)),
        forall|found: Option<CapabilityBinding>|
            #![trigger call_ensures(lookup, (&input.token,), found)]
            call_ensures(lookup, (&input.token,), found) ==> (found matches Some(binding) ==> {
                &&& call_requires(is_current, (&binding, now, epoch))
                &&& call_requires(matches_request, (&binding, &requested_by(*input, binding)))
                &&& call_requires(read_proof_id, (&input.proof_id,))
                &&& call_requires(read_signature, (&input.signature,))
                &&& call_requires(is_fresh, (input.issued_at_millis, now))
                &&& forall|fields: ProofTranscriptFields, signature: Vec<u8>| #[trigger]
                    call_requires(
                        verify,
                        (&binding.proof_public_key, &input.token, &fields, &signature),
                    )
            }),
    ensures
        call_ensures(lookup, (&input.token,), r.found),
        match r.found {
            None => r.proof_id is None && !r.rulings.hold(),
            Some(binding) => {
                &&& call_ensures(is_current, (&binding, now, epoch), r.rulings.capability_current)
                &&& call_ensures(
                    matches_request,
                    (&binding, &requested_by(*input, binding)),
                    r.rulings.capability_matches,
                )
                &&& call_ensures(read_proof_id, (&input.proof_id,), r.proof_id)
                &&& r.rulings.proof_id_readable == r.proof_id is Some
                &&& call_ensures(
                    is_fresh,
                    (input.issued_at_millis, now),
                    r.rulings.proof_fresh,
                )
                &&& exists|signature: Option<Vec<u8>>| #[trigger]
                    call_ensures(read_signature, (&input.signature,), signature)
                        && r.rulings.signature_readable == signature is Some && signature_ruled(
                        *input,
                        binding,
                        r.proof_id,
                        signature,
                        verify,
                        r.rulings.signature_valid,
                    )
            },
        },
{
    let found = lookup(&input.token);
    let binding = match found {
        Some(binding) => binding,
        None => {
            return RuledProof {
                found: None,
                rulings: ProofRulings {
                    capability_current: false,
                    capability_matches: false,
                    proof_id_readable: false,
                    signature_readable: false,
                    proof_fresh: false,
                    signature_valid: false,
                },
                proof_id: None,
            };
        },
    };
    let requested = requested_operation(
        input.operation,
        TransferId(input.transfer_id),
        input.chunk_index,
        &binding,
    );
    let capability_current = is_current(&binding, now, epoch);
    let capability_matches = matches_request(&binding, &requested);
    let proof_id = read_proof_id(&input.proof_id);
    let signature = read_signature(&input.signature);
    let proof_fresh = is_fresh(input.issued_at_millis, now);
    let proof_id_readable = proof_id.is_some();
    let signature_readable = signature.is_some();
    let signature_valid = match (&proof_id, &signature) {
        (Some(id), Some(signature)) => {
            let fields = transcript_fields(requested, copy_bytes(id), input.issued_at_millis);
            assert(is_transcript_of(fields, *input, binding, *id));
            verify(&binding.proof_public_key, &input.token, &fields, signature)
        },
        _ => false,
    };
    assert(signature_ruled(*input, binding, proof_id, signature, verify, signature_valid));
    RuledProof {
        found: Some(binding),
        rulings: ProofRulings {
            capability_current,
            capability_matches,
            proof_id_readable,
            signature_readable,
            proof_fresh,
            signature_valid,
        },
        proof_id,
    }
}

/// The durable record agrees with the capability, its attempt is in progress,
/// and the endpoint's credential is active.
pub open spec fn durably_authorized(
    binding: CapabilityBinding,
    state: AuthorizationDurableState,
    credential: CredentialDimension,
) -> bool {
    &&& state.transfer.endpoint_id == binding.endpoint_id
    &&& state.transfer.artifact_id == binding.artifact_id
    &&& state.transfer.direction == binding.direction
    &&& state.attempt matches Some(attempt)
    &&& attempt.id == binding.attempt_id
    &&& attempt.state is InProgress
    &&& credential is CredentialActive
}

/// Whether the durable record authorizes what the capability claims.
pub fn is_durably_authorized(
    binding: &CapabilityBinding,
    state: &AuthorizationDurableState,
    credential: CredentialDimension,
) -> (r: bool)
    ensures
        r == durably_authorized(*binding, *state, credential),
{
    if state.transfer.endpoint_id != binding.endpoint_id || state.transfer.artifact_id
        != binding.artifact_id || state.transfer.direction != binding.direction {
        return false;
    }
    match &state.attempt {
        None => false,
        Some(attempt) => attempt.id == binding.attempt_id && matches!(
            attempt.state,
            AttemptState::InProgress
        ) && matches!(credential, CredentialDimension::CredentialActive),
    }
}

/// The chunk index, where it fits the manifest's index space.
pub open spec fn manifest_index(chunk_index: u64) -> Option<u32> {
    if chunk_index <= u32::MAX {
        Some(chunk_index as u32)
    } else {
        None
    }
}

/// Whether the manifest already expects a chunk where the request points; no
/// answer where the request points outside the manifest's index space.
pub open spec fn points_at_expected(
    manifest: ChunkManifest,
    chunk_index: Option<u64>,
) -> Option<bool> {
    match chunk_index {
        None => Some(false),
        Some(index) => match manifest_index(index) {
            Some(index) => Some(manifest.expects(index)),
            None => None,
        },
    }
}

fn points_at_expected_chunk(manifest: &ChunkManifest, chunk_index: Option<u64>) -> (r: Option<bool>)
    ensures
        r == points_at_expected(*manifest, chunk_index),
{
    match chunk_index {
        None => Some(false),
        Some(index) => {
            if index <= u32::MAX as u64 {
                Some(manifest.expected_chunk(index as u32).is_some())
            } else {
                None
            }
        },
    }
}

/// A request with everything in order but its proof's first use, which is still
/// to be recorded.
#[derive(Debug)]
pub struct ReplayCheck {
    state: AuthorizationDurableState,
    proof_id: Vec<u8>,
    now: Timestamp,
    valid_until: Timestamp,
}

impl ReplayCheck {
    pub closed spec fn state_view(&self) -> AuthorizationDurableState {
        self.state
    }

    pub closed spec fn proof_id_view(&self) -> Vec<u8> {
        self.proof_id
    }

    /// The moment at which the request is decided.
    pub closed spec fn now_view(&self) -> Timestamp {
        self.now
    }

    /// How long the proof has to be remembered as used.
    pub closed spec fn valid_until_view(&self) -> Timestamp {
        self.valid_until
    }

    /// Records the proof as used and approves the request, if and only if the proof
    /// was not used before and could be recorded.
    pub fn check_replay<U: FnOnce(&Vec<u8>, Timestamp, Timestamp) -> bool>(
        self,
        first_use: U,
    ) -> (r: Option<AuthorizationDurableState>)
        requires
            call_requires(
                first_use,
                (&self.proof_id_view(), self.now_view(), self.valid_until_view()),
            ),
        ensures
            exists|first: bool| #[trigger]
                call_ensures(
                    first_use,
                    (&self.proof_id_view(), self.now_view(), self.valid_until_view()),
                    first,
                ) && r == (if first {
                    Some(self.state_view())
                } else {
                    None
                }),
    {
        let first = first_use(&self.proof_id, self.now, self.valid_until);
        if first {
            Some(self.state)
        } else {
            None
        }
    }
}

/// `at` is the moment `millis` after the epoch, or the last that has a date.
pub open spec fn is_deadline(at: Timestamp, millis: i128) -> bool {
    let clamped = clock::clamped_millis(millis as int) * 1_000_000;
    &&& at.valid()
    &&& clock::has_date(clamped) ==> at.total() == clamped
    &&& !clock::has_date(clamped) ==> at == clock::last_timestamp()
}

/// What a request comes to whose capability and proof hold, by the durable record
/// and the endpoint's credential. `current` is the rule on whether the operation
/// fits the artifact's state; `deadline` is the rule on how long the proof could
/// still be fresh.
pub open spec fn request_follows<
    F: FnOnce(AuthorizationOperation, ArtifactState, bool, bool) -> bool,
    L: FnOnce(u64) -> i128,
>(
    r: Option<ReplayCheck>,
    input: WorkerAuthorizationQueryInput,
    binding: CapabilityBinding,
    proof_id: Vec<u8>,
    facts: AuthorizationDurableState,
    credential: CredentialDimension,
    now: Timestamp,
    current: F,
    deadline: L,
) -> bool {
    let expected = points_at_expected(facts.manifest, input.chunk_index);
    if !durably_authorized(binding, facts, credential) || expected is None {
        r is None
    } else {
        exists|fits: bool| #[trigger]
            call_ensures(
                current,
                (
                    input.operation,
                    facts.artifact.state,
                    facts.manifest.sealed,
                    expected->Some_0,
                ),
                fits,
            ) && (if fits {
                &&& r matches Some(check)
                &&& check.state_view() == facts
                &&& check.proof_id_view() == proof_id
                &&& check.now_view() == now
                &&& exists|millis: i128| #[trigger]
                    call_ensures(deadline, (input.issued_at_millis,), millis) && is_deadline(
                        check.valid_until_view(),
                        millis,
                    )
            } else {
                r is None
            })
    }
}

/// Holds a request, whose capability and proof hold, against the durable record.
/// `dimension` rules on the endpoint's locked credential at this moment. The rules
/// on the operation and on the proof's deadline are asked only about requests that
/// are authorized otherwise. Only a request that passes goes on to the replay
/// check.
pub fn authorize_request<
    D: FnOnce(&CredentialChain, Timestamp) -> CredentialDimension,
    F: FnOnce(AuthorizationOperation, ArtifactState, bool, bool) -> bool,
    L: FnOnce(u64) -> i128,
>(
    input: &WorkerAuthorizationQueryInput,
    binding: &CapabilityBinding,
    proof_id: Vec<u8>,
    state: Option<AuthorizationDurableState>,
    now: Timestamp,
    dimension: D,
    current: F,
    deadline: L,
) -> (r: Option<ReplayCheck>)
    requires
        state matches Some(facts) ==> {
            &&& call_requires(dimension, (&facts.endpoint.credential, now))
            &&& points_at_expected(facts.manifest, input.chunk_index) matches Some(expected)
                ==> call_requires(
                current,
                (input.operation, facts.artifact.state, facts.manifest.sealed, expected),
            )
            &&& call_requires(deadline, (input.issued_at_millis,))
        },
    ensures
        match state {
            None => r is None,
            Some(facts) => exists|credential: CredentialDimension| #[trigger]
                call_ensures(dimension, (&facts.endpoint.credential, now), credential)
                    && request_follows(
                    r,
                    *input,
                    *binding,
                    proof_id,
                    facts,
                    credential,
                    now,
                    current,
                    deadline,
                ),
        },
{
    let facts = match state {
        Some(facts) => facts,
        None => {
            return None;
        },
    };
    let credential = dimension(&facts.endpoint.credential, now);
    if !is_durably_authorized(binding, &facts, credential) {
        return None;
    }
    let expected = match points_at_expected_chunk(&facts.manifest, input.chunk_index) {
        Some(expected) => expected,
        None => {
            return None;
        },
    };
    let fits = current(input.operation, facts.artifact.state, facts.manifest.sealed, expected);
    if !fits {
        return None;
    }
    let millis = deadline(input.issued_at_millis);
    Some(
        ReplayCheck { state: facts, proof_id, now, valid_until: deadline_from_millis(millis) },
    )
}

/// Where the credential of the transfer's endpoint stands at this moment. Without
/// a transfer there is none to be active.
pub fn rule_on_credential<D: FnOnce(&CredentialChain, Timestamp) -> CredentialDimension>(
    state: &Option<AuthorizationDurableState>,
    now: Timestamp,
    dimension: D,
) -> (r: CredentialDimension)
    requires
        state matches Some(facts) ==> call_requires(dimension, (&facts.endpoint.credential, now)),
    ensures
        match state {
            Some(facts) => call_ensures(dimension, (&facts.endpoint.credential, now), r),
            None => r is CredentialInactive,
        },
{
    match state {
        Some(facts) => dimension(&facts.endpoint.credential, now),
        None => CredentialDimension::CredentialInactive,
    }
}

/// Looks at a presented capability and its proof before anything durable is
/// read. The binding comes back if and only if there is one and nothing stands
/// against the request.
pub fn accept_capability(found: Option<CapabilityBinding>, rulings: ProofRulings) -> (r: Option<
    CapabilityBinding,
>)
    ensures
        r == (if rulings.hold() {
            found
        } else {
            None
        }),
{
    if rulings.all_hold() {
        found
    } else {
        None
    }
}

impl RuledProof {
    /// The capability and the proof's identity, if and only if nothing stands
    /// against the request.
    pub fn accepted(self) -> (r: Option<(CapabilityBinding, Vec<u8>)>)
        ensures
            r == (match (self.found, self.proof_id) {
                (Some(binding), Some(proof_id)) => if self.rulings.hold() {
                    Some((binding, proof_id))
                } else {
                    None
                },
                _ => None,
            }),
    {
        match (accept_capability(self.found, self.rulings), self.proof_id) {
            (Some(binding), Some(proof_id)) => Some((binding, proof_id)),
            _ => None,
        }
    }
}

/// The answer to a worker that asked about a chunk. It never says why not.
#[derive(Debug)]
pub enum WorkerAuthorizationOutcome {
    Approved {
        digest_algorithm: DigestAlgorithm,
        chunk_size: u32,
        expected_chunk_digest: Option<String>,
    },
    Denied,
}

/// One chunk that is held and verified.
#[derive(Debug)]
pub struct ResumeHeldChunk {
    pub chunk_index: u64,
    pub digest_wire: String,
}

/// What is durable about a transfer that is to be resumed, as of one moment.
#[derive(Debug)]
pub struct ResumeSnapshotFacts {
    pub transfer_id: TransferId,
    pub sealed: bool,
    pub digest_algorithm: DigestAlgorithm,
    pub chunk_size: u32,
    /// Present only where the manifest is sealed.
    pub expected_chunk_count: Option<u64>,
    /// Ascending by chunk index.
    pub held: Vec<ResumeHeldChunk>,
}

/// The answer to a worker that asked what is held already.
#[derive(Debug)]
pub enum ResumeAuthorizationOutcome {
    Approved(ResumeSnapshotFacts),
    Denied,
}

/// What an agent that asked for a capability is told.
#[derive(Debug)]
pub enum TransferAuthorizationOutcome {
    Granted { token: String, expires_at: Timestamp, data_plane_base_url: String },
    /// Denied, for whatever reason.
    Denied,
    /// The request is the attempt's, but speaks of another action.
    ProtocolViolation,
}

/// `wire` is the wire spelling of what the manifest expects at `index`.
pub open spec fn is_expected_digest(manifest: ChunkManifest, index: u32, wire: Seq<char>) -> bool {
    exists|i: int|
        0 <= i < manifest.chunks@.len() && (#[trigger] manifest.chunks@[i]).index == index
            && manifest.chunks@[i].digest.wire@ == wire
}

/// `held` lists the chunks at `indices`, in that order, with the digests that
/// the manifest expects.
pub open spec fn lists_held(
    manifest: ChunkManifest,
    indices: Seq<u32>,
    held: Seq<ResumeHeldChunk>,
) -> bool {
    &&& held.len() == indices.len()
    &&& forall|i: int|
        0 <= i < held.len() ==> (#[trigger] held[i]).chunk_index == indices[i]
            && is_expected_digest(manifest, indices[i], held[i].digest_wire@)
}

/// Held chunks as they were listed ascend without repetition, and each has a
/// successor.
pub open spec fn listed_ascending(held: Seq<ResumeHeldChunk>) -> bool {
    &&& forall|i: int, j: int|
        0 <= i < j < held.len() ==> (#[trigger] held[i]).chunk_index < (
        #[trigger] held[j]).chunk_index
    &&& forall|i: int| 0 <= i < held.len() ==> (#[trigger] held[i]).chunk_index < u64::MAX
}

/// The message about a held chunk that the manifest knows nothing of.
pub open spec fn orphan_text(index: u32) -> Seq<char> {
    "held chunk ChunkIndex("@ + text::decimal_text(index as nat)
        + ") has no durable expected identity in the same snapshot"@
}

/// What the agent's request for a capability is to be answered with, or the
/// capability that is to be stored for it.
#[derive(Debug)]
pub enum IssueStep {
    Store(CapabilityBinding),
    Done(TransferAuthorizationOutcome),
}

/// The request's own transfer, bound to an attempt that is in progress: only
/// then is the action that the request speaks of looked at.
pub open spec fn issue_in_context(
    state: AuthorizationDurableState,
    endpoint_id: EndpointId,
) -> Option<Attempt> {
    if state.transfer.endpoint_id == endpoint_id && state.attempt is Some
        && state.attempt->Some_0.state is InProgress {
        state.attempt
    } else {
        None
    }
}

/// The attempt whose action the request's is compared with, if it comes to that.
pub open spec fn issue_compares(
    proof_public_key: Option<Vec<u8>>,
    state: Option<AuthorizationDurableState>,
    endpoint_id: EndpointId,
) -> Option<Attempt> {
    match (proof_public_key, state) {
        (Some(_), Some(facts)) => issue_in_context(facts, endpoint_id),
        _ => None,
    }
}

/// Issues capabilities and decides on requests that present them.
pub struct TransferAuthorizationService<R, S, P, C> {
    pub repo: Arc<R>,
    pub capabilities: Arc<S>,
    pub replay: Arc<P>,
    pub clock: Arc<C>,
    pub capability_ttl: TimeSpan,
    pub data_plane_base_url: String,
}

impl<R, S, P> TransferAuthorizationService<R, S, P, SystemClock> {
    /// With the real clock.
    pub fn new(
        repo: Arc<R>,
        capabilities: Arc<S>,
        replay: Arc<P>,
        capability_ttl: TimeSpan,
        data_plane_base_url: String,
    ) -> (r: Self)
        ensures
            r.repo == repo,
            r.capabilities == capabilities,
            r.replay == replay,
            r.capability_ttl == capability_ttl,
            r.data_plane_base_url == data_plane_base_url,
    {
        TransferAuthorizationService {
            repo,
            capabilities,
            replay,
            clock: Arc::new(SystemClock),
            capability_ttl,
            data_plane_base_url,
        }
    }
}

impl<R, S, P, C> TransferAuthorizationService<R, S, P, C> {
    pub fn with_capability_ttl(self, ttl: TimeSpan) -> (r: Self)
        ensures
            r == (TransferAuthorizationService { capability_ttl: ttl, ..self }),
    {
        TransferAuthorizationService {
            repo: self.repo,
            capabilities: self.capabilities,
            replay: self.replay,
            clock: self.clock,
            capability_ttl: ttl,
            data_plane_base_url: self.data_plane_base_url,
        }
    }

    pub fn with_clock(self, clock: Arc<C>) -> (r: Self)
        ensures
            r == (TransferAuthorizationService { clock, ..self }),
    {
        TransferAuthorizationService {
            repo: self.repo,
            capabilities: self.capabilities,
            replay: self.replay,
            clock,
            capability_ttl: self.capability_ttl,
            data_plane_base_url: self.data_plane_base_url,
        }
    }

    /// Answers an agent that asks for a capability for a transfer of its own. A
    /// request that is out of context is denied whatever action it speaks of, so
    /// that nothing can be learned by trying.
    pub fn issue(
        &self,
        endpoint_id: EndpointId,
        presented_action_id: ProtocolId,
        transfer_id: TransferId,
        proof_public_key: Option<Vec<u8>>,
        state: Option<AuthorizationDurableState>,
        credential: CredentialDimension,
        epoch: u64,
        now: Timestamp,
    ) -> (r: IssueStep)
        requires
            issue_compares(proof_public_key, state, endpoint_id) matches Some(attempt) ==> {
                &&& ids::is_uuid_v4(attempt.action_id.0)
                &&& presented_action_id == ProtocolId(attempt.action_id.0) && credential
                    is CredentialActive ==> {
                    &&& now.valid()
                    &&& self.capability_ttl.valid()
                    &&& clock::has_date(now.total() + self.capability_ttl.total())
                }
            },
        ensures
            match (proof_public_key, state) {
                (Some(key), Some(facts)) => match issue_in_context(facts, endpoint_id) {
                    None => r == IssueStep::Done(TransferAuthorizationOutcome::Denied),
                    Some(attempt) => if presented_action_id != ProtocolId(attempt.action_id.0) {
                        r == IssueStep::Done(TransferAuthorizationOutcome::ProtocolViolation)
                    } else if credential !is CredentialActive {
                        r == IssueStep::Done(TransferAuthorizationOutcome::Denied)
                    } else {
                        &&& r matches IssueStep::Store(binding)
                        &&& binding.endpoint_id == endpoint_id
                        &&& binding.transfer_id == transfer_id
                        &&& binding.artifact_id == facts.transfer.artifact_id
                        &&& binding.direction == facts.transfer.direction
                        &&& binding.attempt_id == attempt.id
                        &&& binding.proof_public_key == key
                        &&& binding.expires_at.valid()
                        &&& binding.expires_at.total() == now.total()
                            + self.capability_ttl.total()
                        &&& binding.epoch == epoch
                    },
                },
                _ => r == IssueStep::Done(TransferAuthorizationOutcome::Denied),
            },
    {
        let key = match proof_public_key {
            Some(key) => key,
            None => {
                return IssueStep::Done(TransferAuthorizationOutcome::Denied);
            },
        };
        let facts = match state {
            Some(facts) => facts,
            None => {
                return IssueStep::Done(TransferAuthorizationOutcome::Denied);
            },
        };
        if facts.transfer.endpoint_id != endpoint_id {
            return IssueStep::Done(TransferAuthorizationOutcome::Denied);
        }
        let attempt = match facts.attempt {
            Some(attempt) => attempt,
            None => {
                return IssueStep::Done(TransferAuthorizationOutcome::Denied);
            },
        };
        if !matches!(attempt.state, AttemptState::InProgress) {
            return IssueStep::Done(TransferAuthorizationOutcome::Denied);
        }
        if presented_action_id != ProtocolId(attempt.action_id.0) {
            return IssueStep::Done(TransferAuthorizationOutcome::ProtocolViolation);
        }
        if !matches!(credential, CredentialDimension::CredentialActive) {
            return IssueStep::Done(TransferAuthorizationOutcome::Denied);
        }
        IssueStep::Store(
            CapabilityBinding {
                endpoint_id,
                transfer_id,
                artifact_id: facts.transfer.artifact_id,
                direction: facts.transfer.direction,
                attempt_id: attempt.id,
                proof_public_key: key,
                expires_at: expiry(now, self.capability_ttl),
                epoch,
            },
        )
    }

    /// Whether an agent is told `r` once its capability was stored, or was not.
    pub open spec fn answers_storing(
        &self,
        r: TransferAuthorizationOutcome,
        token: String,
        expires_at: Timestamp,
        stored: bool,
    ) -> bool {
        if stored {
            &&& r matches TransferAuthorizationOutcome::Granted {
                token: granted,
                expires_at: until,
                data_plane_base_url,
            }
            &&& granted == token
            &&& until == expires_at
            &&& data_plane_base_url@ == self.data_plane_base_url@
        } else {
            r is Denied
        }
    }

    /// Grants the capability, if and only if it was stored.
    pub fn issued(&self, token: String, expires_at: Timestamp, stored: bool) -> (r:
        TransferAuthorizationOutcome)
        ensures
            self.answers_storing(r, token, expires_at, stored),
    {
        if stored {
            TransferAuthorizationOutcome::Granted {
                token,
                expires_at,
                data_plane_base_url: self.data_plane_base_url.clone(),
            }
        } else {
            TransferAuthorizationOutcome::Denied
        }
    }

    /// Stores a capability under its token, and grants it until it expires if and
    /// only if it was stored.
    pub fn store_capability<K: FnOnce(&String, CapabilityBinding) -> bool>(
        &self,
        token: String,
        binding: CapabilityBinding,
        store: K,
    ) -> (r: TransferAuthorizationOutcome)
        requires
            call_requires(store, (&token, binding)),
        ensures
            exists|stored: bool| #[trigger]
                call_ensures(store, (&token, binding), stored) && self.answers_storing(
                    r,
                    token,
                    binding.expires_at,
                    stored,
                ),
    {
        let expires_at = binding.expires_at;
        let stored = store(&token, binding);
        self.issued(token, expires_at, stored)
    }

    /// Answers a worker about a chunk: with what the durable manifest holds it
    /// to, or not at all.
    pub fn decide(approved: Option<AuthorizationDurableState>, chunk_index: Option<u64>) -> (r:
        WorkerAuthorizationOutcome)
        ensures
            match approved {
                None => r is Denied,
                Some(state) => {
                    &&& r matches WorkerAuthorizationOutcome::Approved {
                        digest_algorithm,
                        chunk_size,
                        expected_chunk_digest,
                    }
                    &&& digest_algorithm == state.manifest.digest_algorithm
                    &&& chunk_size == state.manifest.chunk_size
                    &&& (expected_chunk_digest is Some) == (points_at_expected(
                        state.manifest,
                        chunk_index,
                    ) == Some(true))
                    &&& expected_chunk_digest matches Some(wire) ==> is_expected_digest(
                        state.manifest,
                        chunk_index->Some_0 as u32,
                        wire@,
                    )
                },
            },
    {
        let state = match approved {
            Some(state) => state,
            None => {
                return WorkerAuthorizationOutcome::Denied;
            },
        };
        let expected_chunk_digest = match chunk_index {
            Some(index) => {
                if index <= u32::MAX as u64 {
                    match state.manifest.expected_chunk(index as u32) {
                        Some(chunk) => Some(chunk.digest.wire.clone()),
                        None => None,
                    }
                } else {
                    None
                }
            },
            None => None,
        };
        WorkerAuthorizationOutcome::Approved {
            digest_algorithm: state.manifest.digest_algorithm,
            chunk_size: state.manifest.chunk_size,
            expected_chunk_digest,
        }
    }

    /// Answers a worker about what is held already. A held chunk that the
    /// manifest knows nothing of is a fault of the storage.
    pub fn authorize_resume_discovery(approved: Option<AuthorizationDurableState>) -> (r: Result<
        ResumeAuthorizationOutcome,
        ApplicationError,
    >)
        ensures
            match approved {
                None => r matches Ok(ResumeAuthorizationOutcome::Denied),
                Some(state) => match r {
                    Ok(outcome) => {
                        &&& outcome matches ResumeAuthorizationOutcome::Approved(snapshot)
                        &&& snapshot.transfer_id == state.transfer.id
                        &&& snapshot.sealed == state.manifest.sealed
                        &&& snapshot.digest_algorithm == state.manifest.digest_algorithm
                        &&& snapshot.chunk_size == state.manifest.chunk_size
                        &&& snapshot.expected_chunk_count == (if state.manifest.sealed
                            && state.manifest.chunk_count is Some {
                            Some(state.manifest.chunk_count->Some_0 as u64)
                        } else {
                            None
                        })
                        &&& lists_held(
                            state.manifest,
                            state.held_chunk_indices@,
                            snapshot.held@,
                        )
                        &&& model::strictly_ascending(state.held_chunk_indices@)
                            ==> listed_ascending(snapshot.held@)
                    },
                    Err(error) => {
                        &&& error matches ApplicationError::Repository(fault)
                        &&& exists|i: int|
                            is_first_orphan(
                                state.manifest,
                                state.held_chunk_indices@,
                                i,
                            ) && fault.text() == orphan_text(#[trigger] state.held_chunk_indices@[i])
                    },
                },
            },
    {
        let state = match approved {
            Some(state) => state,
            None => {
                return Ok(ResumeAuthorizationOutcome::Denied);
            },
        };
        let mut held: Vec<ResumeHeldChunk> = Vec::new();
        let mut i: usize = 0;
        while i < state.held_chunk_indices.len()
            invariant
                approved == Some(state),
                i <= state.held_chunk_indices@.len(),
                lists_held(
                    state.manifest,
                    state.held_chunk_indices@.subrange(0, i as int),
                    held@,
                ),
                forall|j: int|
                    0 <= j < i ==> state.manifest.expects(#[trigger] state.held_chunk_indices@[j]),
            decreases state.held_chunk_indices@.len() - i,
        {
            let index: u32 = state.held_chunk_indices[i];
            match state.manifest.expected_chunk(index) {
                None => {
                    let mut message = String::new();
                    message.append("held chunk ChunkIndex(");
                    message.append(decimal(index as u64).as_str());
                    message.append(") has no durable expected identity in the same snapshot");
                    assert(message@ =~= orphan_text(index));
                    assert(is_first_orphan(state.manifest, state.held_chunk_indices@, i as int));
                    return Err(ApplicationError::Repository(RepositoryError::Backend(message)));
                },
                Some(chunk) => {
                    held.push(
                        ResumeHeldChunk {
                            chunk_index: index as u64,
                            digest_wire: chunk.digest.wire.clone(),
                        },
                    );
                },
            }
            i = i + 1;
            assert(state.held_chunk_indices@.subrange(0, i as int)
                =~= state.held_chunk_indices@.subrange(0, i - 1).push(index));
        }
        assert(state.held_chunk_indices@.subrange(0, i as int) =~= state.held_chunk_indices@);
        proof {
            if model::strictly_ascending(state.held_chunk_indices@) {
                snapshot_keeps_the_order(state.manifest, state.held_chunk_indices@, held@);
            }
        }
        let expected_chunk_count = if state.manifest.sealed {
            match state.manifest.chunk_count {
                Some(count) => Some(count as u64),
                None => None,
            }
        } else {
            None
        };
        Ok(
            ResumeAuthorizationOutcome::Approved(
                ResumeSnapshotFacts {
                    transfer_id: state.transfer.id,
                    sealed: state.manifest.sealed,
                    digest_algorithm: state.manifest.digest_algorithm,
                    chunk_size: state.manifest.chunk_size,
                    expected_chunk_count,
                    held,
                },
            ),
        )
    }
}

/// The first held chunk that the manifest knows nothing of stands at `i`.
pub open spec fn is_first_orphan(manifest: ChunkManifest, indices: Seq<u32>, i: int) -> bool {
    &&& 0 <= i < indices.len()
    &&& !manifest.expects(indices[i])
    &&& forall|j: int| 0 <= j < i ==> manifest.expects(#[trigger] indices[j])
}

/// A transfer of another endpoint is out of context, whatever its attempt is
/// doing: no answer about it depends on the action that the request speaks of.
pub proof fn foreign_transfer_is_out_of_context(
    state: AuthorizationDurableState,
    endpoint_id: EndpointId,
)
    requires
        state.transfer.endpoint_id != endpoint_id,
    ensures
        issue_in_context(state, endpoint_id) is None,
{
}

/// A capability is worth nothing from the moment its attempt leaves
/// `InProgress` or the endpoint's credential stops being active.
pub proof fn capability_ends_with_its_attempt_and_credential(
    binding: CapabilityBinding,
    state: AuthorizationDurableState,
    credential: CredentialDimension,
)
    requires
        credential !is CredentialActive || (state.attempt matches Some(attempt) ==> attempt.state
            !is InProgress),
    ensures
        !durably_authorized(binding, state, credential),
{
}

/// Where the durable record lists the held chunks in ascending order, so does
/// the snapshot, and no chunk is in it twice.
pub proof fn snapshot_keeps_the_order(
    manifest: ChunkManifest,
    indices: Seq<u32>,
    held: Seq<ResumeHeldChunk>,
)
    requires
        lists_held(manifest, indices, held),
        model::strictly_ascending(indices),
    ensures
        listed_ascending(held),
{
}

/// What a request asks for carries the request's own operation, transfer and chunk,
/// with the capability's artifact and direction.
pub proof fn requested_operation_is_the_requests_own(
    operation: AuthorizationOperation,
    transfer_id: TransferId,
    chunk_index: Option<u64>,
    binding: CapabilityBinding,
    r: RequestedOperation,
)
    requires
        call_ensures(requested_operation, (operation, transfer_id, chunk_index, &binding), r),
    ensures
        r.operation == operation,
        r.transfer_id == transfer_id,
        r.chunk_index == chunk_index,
        r.artifact_id == binding.artifact_id,
        r.direction == binding.direction,
{
}

/// Two requests that differ in their operation, their transfer or their chunk ask for
/// different operations, whatever capabilities they present.
pub proof fn different_requests_ask_for_different_operations(
    first: WorkerAuthorizationQueryInput,
    first_binding: CapabilityBinding,
    first_asked: RequestedOperation,
    second: WorkerAuthorizationQueryInput,
    second_binding: CapabilityBinding,
    second_asked: RequestedOperation,
)
    requires
        call_ensures(
            requested_operation,
            (first.operation, TransferId(first.transfer_id), first.chunk_index, &first_binding),
            first_asked,
        ),
        call_ensures(
            requested_operation,
            (
                second.operation,
                TransferId(second.transfer_id),
                second.chunk_index,
                &second_binding,
            ),
            second_asked,
        ),
    ensures
        first.operation != second.operation ==> first_asked.operation != second_asked.operation,
        first.transfer_id != second.transfer_id ==> first_asked.transfer_id
            != second_asked.transfer_id,
        first.chunk_index != second.chunk_index ==> first_asked.chunk_index
            != second_asked.chunk_index,
        first_asked == second_asked ==> first.operation == second.operation && first.transfer_id
            == second.transfer_id && first.chunk_index == second.chunk_index
            && first_binding.artifact_id == second_binding.artifact_id
            && first_binding.direction == second_binding.direction,
{
}

/// The capability that the token leads to is held against the request's own operation,
/// transfer and chunk, on the capability's artifact and in its direction, at this
/// moment and in this process; and how the proof fared is told as each rule said.
pub proof fn capability_is_held_against_the_request<
    L: FnOnce(&String) -> Option<CapabilityBinding>,
    C: FnOnce(&CapabilityBinding, Timestamp, u64) -> bool,
    M: FnOnce(&CapabilityBinding, &RequestedOperation) -> bool,
    I: FnOnce(&String) -> Option<Vec<u8>>,
    S: FnOnce(&String) -> Option<Vec<u8>>,
    F: FnOnce(u64, Timestamp) -> bool,
    V: FnOnce(&Vec<u8>, &String, &ProofTranscriptFields, &Vec<u8>) -> bool,
>(
    input: WorkerAuthorizationQueryInput,
    now: Timestamp,
    epoch: u64,
    lookup: L,
    is_current: C,
    matches_request: M,
    read_proof_id: I,
    read_signature: S,
    is_fresh: F,
    verify: V,
    r: RuledProof,
)
    requires
        call_ensures(
            rule_on_proof::<L, C, M, I, S, F, V>,
            (
                &input,
                now,
                epoch,
                lookup,
                is_current,
                matches_request,
                read_proof_id,
                read_signature,
                is_fresh,
                verify,
            ),
            r,
        ),
    ensures
        call_ensures(lookup, (&input.token,), r.found),
        r.found matches Some(binding) ==> {
            &&& exists|requested: RequestedOperation| #[trigger]
                call_ensures(
                    matches_request,
                    (&binding, &requested),
                    r.rulings.capability_matches,
                ) && requested.operation == input.operation && requested.transfer_id.0
                    == input.transfer_id && requested.chunk_index == input.chunk_index
                    && requested.artifact_id == binding.artifact_id && requested.direction
                    == binding.direction
            &&& call_ensures(is_current, (&binding, now, epoch), r.rulings.capability_current)
            &&& call_ensures(is_fresh, (input.issued_at_millis, now), r.rulings.proof_fresh)
            &&& call_ensures(read_proof_id, (&input.proof_id,), r.proof_id)
            &&& r.rulings.proof_id_readable <==> r.proof_id is Some
            &&& exists|signature: Option<Vec<u8>>| #[trigger]
                call_ensures(read_signature, (&input.signature,), signature) && (
                r.rulings.signature_readable <==> signature is Some)
        },
        r.found is None ==> r.proof_id is None,
{
    if let Some(binding) = r.found {
        let requested = RequestedOperation {
            operation: input.operation,
            transfer_id: TransferId(input.transfer_id),
            artifact_id: binding.artifact_id,
            direction: binding.direction,
            chunk_index: input.chunk_index,
        };
        assert(call_ensures(
            matches_request,
            (&binding, &requested),
            r.rulings.capability_matches,
        ));
    }
}

/// A signature is good only where it was verified with the capability's key, over the
/// request's own token, operation, transfer, chunk and moment, over the identity of
/// its proof, and over the capability's artifact and direction.
pub proof fn signature_is_verified_over_the_request<
    L: FnOnce(&String) -> Option<CapabilityBinding>,
    C: FnOnce(&CapabilityBinding, Timestamp, u64) -> bool,
    M: FnOnce(&CapabilityBinding, &RequestedOperation) -> bool,
    I: FnOnce(&String) -> Option<Vec<u8>>,
    S: FnOnce(&String) -> Option<Vec<u8>>,
    F: FnOnce(u64, Timestamp) -> bool,
    V: FnOnce(&Vec<u8>, &String, &ProofTranscriptFields, &Vec<u8>) -> bool,
>(
    input: WorkerAuthorizationQueryInput,
    now: Timestamp,
    epoch: u64,
    lookup: L,
    is_current: C,
    matches_request: M,
    read_proof_id: I,
    read_signature: S,
    is_fresh: F,
    verify: V,
    r: RuledProof,
)
    requires
        call_ensures(
            rule_on_proof::<L, C, M, I, S, F, V>,
            (
                &input,
                now,
                epoch,
                lookup,
                is_current,
                matches_request,
                read_proof_id,
                read_signature,
                is_fresh,
                verify,
            ),
            r,
        ),
    ensures
        r.found matches Some(binding) ==> {
            &&& r.rulings.signature_valid ==> r.proof_id is Some && r.rulings.signature_readable
            &&& r.proof_id is Some && r.rulings.signature_readable ==> exists|
                fields: ProofTranscriptFields,
                signature: Vec<u8>,
            | #[trigger]
                call_ensures(
                    verify,
                    (&binding.proof_public_key, &input.token, &fields, &signature),
                    r.rulings.signature_valid,
                ) && call_ensures(read_signature, (&input.signature,), Some(signature))
                    && fields.requested.operation == input.operation
                    && fields.requested.transfer_id.0 == input.transfer_id
                    && fields.requested.chunk_index == input.chunk_index
                    && fields.requested.artifact_id == binding.artifact_id
                    && fields.requested.direction == binding.direction && fields.proof_id@
                    == r.proof_id->Some_0@ && fields.issued_at_millis == input.issued_at_millis
        },
{
    if let Some(binding) = r.found {
        let signature = choose|signature: Option<Vec<u8>>| #[trigger]
            call_ensures(read_signature, (&input.signature,), signature)
                && r.rulings.signature_readable == signature is Some && signature_ruled(
                input,
                binding,
                r.proof_id,
                signature,
                verify,
                r.rulings.signature_valid,
            );
        if let (Some(id), Some(bytes)) = (r.proof_id, signature) {
            let fields = choose|fields: ProofTranscriptFields|
                is_transcript_of(fields, input, binding, id) && #[trigger] call_ensures(
                    verify,
                    (&binding.proof_public_key, &input.token, &fields, &bytes),
                    r.rulings.signature_valid,
                );
            assert(call_ensures(
                verify,
                (&binding.proof_public_key, &input.token, &fields, &bytes),
                r.rulings.signature_valid,
            ));
        }
    }
}

/// A proof's transcript holds what it is made of.
pub proof fn transcript_holds_what_it_is_made_of(
    requested: RequestedOperation,
    proof_id: Vec<u8>,
    issued_at_millis: u64,
    r: ProofTranscriptFields,
)
    requires
        call_ensures(transcript_fields, (requested, proof_id, issued_at_millis), r),
    ensures
        r.requested.operation == requested.operation,
        r.requested.transfer_id == requested.transfer_id,
        r.requested.artifact_id == requested.artifact_id,
        r.requested.direction == requested.direction,
        r.requested.chunk_index == requested.chunk_index,
        r.proof_id@ == proof_id@,
        r.issued_at_millis == issued_at_millis,
{
}

/// A request goes on exactly where there is a capability, its proof has a readable
/// identity, and none of the six rulings stands against it; it goes on with both.
pub proof fn every_ruling_counts(
    ruled: RuledProof,
    r: Option<(CapabilityBinding, Vec<u8>)>,
    kept: Option<CapabilityBinding>,
    all: bool,
)
    requires
        call_ensures(RuledProof::accepted, (ruled,), r),
        call_ensures(accept_capability, (ruled.found, ruled.rulings), kept),
        call_ensures(ProofRulings::all_hold, (ruled.rulings,), all),
    ensures
        !ruled.rulings.capability_current ==> r is None && kept is None && !all,
        !ruled.rulings.capability_matches ==> r is None && kept is None && !all,
        !ruled.rulings.proof_id_readable ==> r is None && kept is None && !all,
        !ruled.rulings.signature_readable ==> r is None && kept is None && !all,
        !ruled.rulings.proof_fresh ==> r is None && kept is None && !all,
        !ruled.rulings.signature_valid ==> r is None && kept is None && !all,
        ruled.found is None ==> r is None && kept is None,
        ruled.proof_id is None ==> r is None,
        r matches Some((binding, proof_id)) ==> ruled.found == Some(binding) && ruled.proof_id
            == Some(proof_id),
        kept is Some ==> kept == ruled.found,
        ruled.rulings.capability_current && ruled.rulings.capability_matches
            && ruled.rulings.proof_id_readable && ruled.rulings.signature_readable
            && ruled.rulings.proof_fresh && ruled.rulings.signature_valid ==> all && kept
            == ruled.found && (r is Some <==> ruled.found is Some && ruled.proof_id is Some),
{
}

/// The durable record authorizes a capability exactly where the transfer is its
/// endpoint's, of its artifact and in its direction, the attempt is its own and in
/// progress, and the endpoint's credential is active.
pub proof fn durable_record_has_the_last_word(
    binding: CapabilityBinding,
    state: AuthorizationDurableState,
    credential: CredentialDimension,
    r: bool,
)
    requires
        call_ensures(is_durably_authorized, (&binding, &state, credential), r),
    ensures
        state.transfer.endpoint_id != binding.endpoint_id ==> !r,
        state.transfer.artifact_id != binding.artifact_id ==> !r,
        state.transfer.direction != binding.direction ==> !r,
        state.attempt is None ==> !r,
        state.attempt matches Some(attempt) ==> (attempt.id != binding.attempt_id ==> !r) && (
        attempt.state !is InProgress ==> !r),
        credential !is CredentialActive ==> !r,
        !r ==> state.transfer.endpoint_id != binding.endpoint_id || state.transfer.artifact_id
            != binding.artifact_id || state.transfer.direction != binding.direction
            || state.attempt is None || state.attempt->Some_0.id != binding.attempt_id
            || state.attempt->Some_0.state !is InProgress || credential !is CredentialActive,
{
}

/// Only a request of the capability's own endpoint, transfer and attempt, with an
/// active credential, a chunk inside the manifest's index space and an operation that
/// fits the artifact goes on; it goes on with the record it was held against.
pub proof fn only_an_authorized_request_goes_on<
    D: FnOnce(&CredentialChain, Timestamp) -> CredentialDimension,
    F: FnOnce(AuthorizationOperation, ArtifactState, bool, bool) -> bool,
    L: FnOnce(u64) -> i128,
>(
    input: WorkerAuthorizationQueryInput,
    binding: CapabilityBinding,
    proof_id: Vec<u8>,
    state: Option<AuthorizationDurableState>,
    now: Timestamp,
    dimension: D,
    current: F,
    deadline: L,
    r: Option<ReplayCheck>,
)
    requires
        call_ensures(
            authorize_request::<D, F, L>,
            (&input, &binding, proof_id, state, now, dimension, current, deadline),
            r,
        ),
    ensures
        state is None ==> r is None,
        r matches Some(check) ==> {
            &&& state matches Some(facts)
            &&& check.state_view() == facts
            &&& check.proof_id_view() == proof_id
            &&& check.now_view() == now
            &&& facts.transfer.endpoint_id == binding.endpoint_id
            &&& facts.transfer.artifact_id == binding.artifact_id
            &&& facts.transfer.direction == binding.direction
            &&& facts.attempt is Some
            &&& facts.attempt->Some_0.id == binding.attempt_id
            &&& facts.attempt->Some_0.state is InProgress
            &&& exists|credential: CredentialDimension| #[trigger]
                call_ensures(dimension, (&facts.endpoint.credential, now), credential)
                    && credential is CredentialActive
            &&& input.chunk_index matches Some(index) ==> index <= 0xffff_ffff
            &&& exists|expected: bool| #[trigger]
                call_ensures(
                    current,
                    (input.operation, facts.artifact.state, facts.manifest.sealed, expected),
                    true,
                ) && (expected <==> (input.chunk_index matches Some(index) && exists|i: int|
                    0 <= i < facts.manifest.chunks@.len() && (
                    #[trigger] facts.manifest.chunks@[i]).index == index))
            &&& exists|millis: i128| #[trigger]
                call_ensures(deadline, (input.issued_at_millis,), millis) && (if -8_334_601_228_800_000 <= millis
                    < 8_210_266_876_800_000 {
                    check.valid_until_view().seconds * 1_000_000_000 + check.valid_until_view().nanos == millis * 1_000_000
                } else {
                    check.valid_until_view().seconds == 8_210_266_876_799 && check.valid_until_view().nanos == 999_999_999
                })
        },
{
}

/// A request that nothing stands against goes on.
pub proof fn request_in_order_goes_on<
    D: FnOnce(&CredentialChain, Timestamp) -> CredentialDimension,
    F: FnOnce(AuthorizationOperation, ArtifactState, bool, bool) -> bool,
    L: FnOnce(u64) -> i128,
>(
    input: WorkerAuthorizationQueryInput,
    binding: CapabilityBinding,
    proof_id: Vec<u8>,
    facts: AuthorizationDurableState,
    now: Timestamp,
    dimension: D,
    current: F,
    deadline: L,
    r: Option<ReplayCheck>,
)
    requires
        call_ensures(
            authorize_request::<D, F, L>,
            (&input, &binding, proof_id, Some(facts), now, dimension, current, deadline),
            r,
        ),
        facts.transfer.endpoint_id == binding.endpoint_id,
        facts.transfer.artifact_id == binding.artifact_id,
        facts.transfer.direction == binding.direction,
        facts.attempt is Some,
        facts.attempt->Some_0.id == binding.attempt_id,
        facts.attempt->Some_0.state is InProgress,
        forall|credential: CredentialDimension| #[trigger]
            call_ensures(dimension, (&facts.endpoint.credential, now), credential) ==> credential
                is CredentialActive,
        input.chunk_index matches Some(index) ==> index <= 0xffff_ffff,
        forall|expected: bool, fits: bool| #[trigger]
            call_ensures(
                current,
                (input.operation, facts.artifact.state, facts.manifest.sealed, expected),
                fits,
            ) ==> fits,
    ensures
        r is Some,
{
}

/// A request is approved with the record it was held against, exactly where its proof
/// is recorded for the first time: under the proof's own identity, as of this moment.
pub proof fn proof_is_good_for_one_request<
    D: FnOnce(&CredentialChain, Timestamp) -> CredentialDimension,
    F: FnOnce(AuthorizationOperation, ArtifactState, bool, bool) -> bool,
    L: FnOnce(u64) -> i128,
    U: FnOnce(&Vec<u8>, Timestamp, Timestamp) -> bool,
>(
    input: WorkerAuthorizationQueryInput,
    binding: CapabilityBinding,
    proof_id: Vec<u8>,
    state: Option<AuthorizationDurableState>,
    now: Timestamp,
    dimension: D,
    current: F,
    deadline: L,
    check: ReplayCheck,
    first_use: U,
    r: Option<AuthorizationDurableState>,
)
    requires
        call_ensures(
            authorize_request::<D, F, L>,
            (&input, &binding, proof_id, state, now, dimension, current, deadline),
            Some(check),
        ),
        call_ensures(ReplayCheck::check_replay::<U>, (check, first_use), r),
    ensures
        exists|until: Timestamp, first: bool| #[trigger]
            call_ensures(first_use, (&proof_id, now, until), first) && (first <==> r is Some)
                && exists|millis: i128| #[trigger]
                call_ensures(deadline, (input.issued_at_millis,), millis) && (if -8_334_601_228_800_000 <= millis
                    < 8_210_266_876_800_000 {
                    until.seconds * 1_000_000_000 + until.nanos == millis * 1_000_000
                } else {
                    until.seconds == 8_210_266_876_799 && until.nanos == 999_999_999
                }),
        r is Some ==> r == state,
{
}

/// Without a transfer no credential is active; with one, it is its endpoint's that is
/// ruled on, at this moment.
pub proof fn credential_is_the_endpoints<
    D: FnOnce(&CredentialChain, Timestamp) -> CredentialDimension,
>(
    state: Option<AuthorizationDurableState>,
    now: Timestamp,
    dimension: D,
    r: CredentialDimension,
)
    requires
        call_ensures(rule_on_credential::<D>, (&state, now, dimension), r),
    ensures
        state is None ==> r !is CredentialActive,
        state matches Some(facts) ==> call_ensures(
            dimension,
            (&facts.endpoint.credential, now),
            r,
        ),
{
}

/// A capability is issued exactly where a key was given, the transfer is the asking
/// endpoint's own, its attempt is in progress, the request speaks of that attempt's
/// action and the credential is active; it is good for that transfer alone, and for
/// the service's lifetime from now.
pub proof fn capability_is_issued_for_the_transfer_asked_about<R, S, P, C>(
    service: TransferAuthorizationService<R, S, P, C>,
    endpoint_id: EndpointId,
    presented_action_id: ProtocolId,
    transfer_id: TransferId,
    proof_public_key: Option<Vec<u8>>,
    state: Option<AuthorizationDurableState>,
    credential: CredentialDimension,
    epoch: u64,
    now: Timestamp,
    r: IssueStep,
)
    requires
        call_ensures(
            TransferAuthorizationService::<R, S, P, C>::issue,
            (
                &service,
                endpoint_id,
                presented_action_id,
                transfer_id,
                proof_public_key,
                state,
                credential,
                epoch,
                now,
            ),
            r,
        ),
    ensures
        r is Store <==> {
            &&& proof_public_key is Some
            &&& state is Some
            &&& state->Some_0.transfer.endpoint_id == endpoint_id
            &&& state->Some_0.attempt is Some
            &&& state->Some_0.attempt->Some_0.state is InProgress
            &&& state->Some_0.attempt->Some_0.action_id.0 == presented_action_id.0
            &&& credential is CredentialActive
        },
        r matches IssueStep::Store(binding) ==> {
            &&& binding.endpoint_id == endpoint_id
            &&& binding.transfer_id == transfer_id
            &&& binding.artifact_id == state->Some_0.transfer.artifact_id
            &&& binding.direction == state->Some_0.transfer.direction
            &&& binding.attempt_id == state->Some_0.attempt->Some_0.id
            &&& proof_public_key == Some(binding.proof_public_key)
            &&& binding.expires_at.total() - now.total() == service.capability_ttl.total()
            &&& binding.epoch == epoch
        },
        r matches IssueStep::Done(TransferAuthorizationOutcome::ProtocolViolation) <==> {
            &&& proof_public_key is Some
            &&& state is Some
            &&& state->Some_0.transfer.endpoint_id == endpoint_id
            &&& state->Some_0.attempt is Some
            &&& state->Some_0.attempt->Some_0.state is InProgress
            &&& state->Some_0.attempt->Some_0.action_id.0 != presented_action_id.0
        },
        r matches IssueStep::Done(outcome) ==> outcome !is Granted,
{
}

/// A capability is granted under its token until it expires, with where to go, exactly
/// where it was stored under that token.
pub proof fn capability_is_granted_once_stored<
    R,
    S,
    P,
    C,
    K: FnOnce(&String, CapabilityBinding) -> bool,
>(
    service: TransferAuthorizationService<R, S, P, C>,
    token: String,
    binding: CapabilityBinding,
    store: K,
    r: TransferAuthorizationOutcome,
)
    requires
        call_ensures(
            TransferAuthorizationService::<R, S, P, C>::store_capability::<K>,
            (&service, token, binding, store),
            r,
        ),
    ensures
        exists|stored: bool| #[trigger]
            call_ensures(store, (&token, binding), stored) && (stored <==> r is Granted) && (!stored
                <==> r is Denied),
        r matches TransferAuthorizationOutcome::Granted {
            token: granted,
            expires_at,
            data_plane_base_url,
        } ==> granted == token && expires_at == binding.expires_at && data_plane_base_url@
            == service.data_plane_base_url@,
{
}

/// An agent is told its token, the capability's end and where to go, or that it is
/// denied, by whether the capability was stored.
pub proof fn agent_is_told_whether_its_capability_was_stored<R, S, P, C>(
    service: TransferAuthorizationService<R, S, P, C>,
    token: String,
    expires_at: Timestamp,
    stored: bool,
    r: TransferAuthorizationOutcome,
)
    requires
        call_ensures(
            TransferAuthorizationService::<R, S, P, C>::issued,
            (&service, token, expires_at, stored),
            r,
        ),
    ensures
        stored <==> r is Granted,
        !stored <==> r is Denied,
        r matches TransferAuthorizationOutcome::Granted {
            token: granted,
            expires_at: until,
            data_plane_base_url,
        } ==> granted == token && until == expires_at && data_plane_base_url@
            == service.data_plane_base_url@,
{
}

/// A worker is told what the durable manifest holds the chunk to: its algorithm and
/// size, and a digest exactly where the manifest has the chunk, which is then one the
/// manifest has for that very chunk.
pub proof fn worker_is_told_what_the_manifest_holds<R, S, P, C>(
    approved: Option<AuthorizationDurableState>,
    chunk_index: Option<u64>,
    r: WorkerAuthorizationOutcome,
)
    requires
        call_ensures(
            TransferAuthorizationService::<R, S, P, C>::decide,
            (approved, chunk_index),
            r,
        ),
    ensures
        approved is None <==> r is Denied,
        r matches WorkerAuthorizationOutcome::Approved {
            digest_algorithm,
            chunk_size,
            expected_chunk_digest,
        } ==> {
            let manifest = approved->Some_0.manifest;
            &&& digest_algorithm == manifest.digest_algorithm
            &&& chunk_size == manifest.chunk_size
            &&& chunk_index is None ==> expected_chunk_digest is None
            &&& chunk_index matches Some(index) ==> (expected_chunk_digest is Some <==> exists|
                i: int,
            |
                0 <= i < manifest.chunks@.len() && (#[trigger] manifest.chunks@[i]).index == index)
            &&& chunk_index matches Some(index) ==> (expected_chunk_digest matches Some(wire)
                ==> exists|i: int|
                0 <= i < manifest.chunks@.len() && (#[trigger] manifest.chunks@[i]).index == index
                    && manifest.chunks@[i].digest.wire@ == wire@)
        },
{
}

/// A worker is told the transfer as the durable record has it: every held chunk in its
/// place with a digest that the manifest has for it, and the number of chunks exactly
/// where the manifest is sealed. A held chunk that the manifest does not have is a
/// fault.
pub proof fn worker_is_told_what_is_held<R, S, P, C>(
    state: AuthorizationDurableState,
    r: Result<ResumeAuthorizationOutcome, ApplicationError>,
)
    requires
        call_ensures(
            TransferAuthorizationService::<R, S, P, C>::authorize_resume_discovery,
            (Some(state),),
            r,
        ),
    ensures
        r is Ok <==> forall|i: int|
            0 <= i < state.held_chunk_indices@.len() ==> exists|j: int|
                0 <= j < state.manifest.chunks@.len() && (
                #[trigger] state.manifest.chunks@[j]).index == (
                #[trigger] state.held_chunk_indices@[i]),
        r matches Ok(outcome) ==> (outcome matches ResumeAuthorizationOutcome::Approved(snapshot)
            && {
            &&& snapshot.transfer_id == state.transfer.id
            &&& snapshot.sealed == state.manifest.sealed
            &&& snapshot.digest_algorithm == state.manifest.digest_algorithm
            &&& snapshot.chunk_size == state.manifest.chunk_size
            &&& !state.manifest.sealed ==> snapshot.expected_chunk_count is None
            &&& state.manifest.sealed ==> (snapshot.expected_chunk_count is Some
                <==> state.manifest.chunk_count is Some)
            &&& snapshot.expected_chunk_count matches Some(count) ==> count
                == state.manifest.chunk_count->Some_0
            &&& snapshot.held@.len() == state.held_chunk_indices@.len()
            &&& forall|i: int|
                0 <= i < snapshot.held@.len() ==> (#[trigger] snapshot.held@[i]).chunk_index
                    == state.held_chunk_indices@[i] && exists|j: int|
                    0 <= j < state.manifest.chunks@.len() && (
                    #[trigger] state.manifest.chunks@[j]).index == state.held_chunk_indices@[i]
                        && state.manifest.chunks@[j].digest.wire@ == snapshot.held@[i].digest_wire@
        }),
        r matches Err(error) ==> error is Repository,
{
    if let Ok(ResumeAuthorizationOutcome::Approved(snapshot)) = r {
        assert forall|i: int| 0 <= i < state.held_chunk_indices@.len() implies exists|j: int|
            0 <= j < state.manifest.chunks@.len() && (#[trigger] state.manifest.chunks@[j]).index
                == (#[trigger] state.held_chunk_indices@[i]) by {
            assert(snapshot.held@[i].chunk_index == state.held_chunk_indices@[i]);
        }
    }
}

/// A request to resume that is not approved is denied.
pub proof fn unapproved_resume_is_denied<R, S, P, C>(
    r: Result<ResumeAuthorizationOutcome, ApplicationError>,
)
    requires
        call_ensures(
            TransferAuthorizationService::<R, S, P, C>::authorize_resume_discovery,
            (None,),
            r,
        ),
    ensures
        r matches Ok(outcome) && outcome is Denied,
{
}

} // verus!
