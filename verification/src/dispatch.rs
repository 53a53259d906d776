//! Dispatching: the commitment of a step to one attempt, under a reservation of
//! technical capacity, and the one-time transmission of its action.

use vstd::prelude::*;
use std::sync::Arc;
use crate::action_detail::{
    self, transfer_action_parameters, M1_DATA_PLANE_TRANSFER_ACTION_TYPE,
    M1_DATA_PLANE_TRANSFER_ACTION_VERSION, M1_SIMULATED_EXECUTION_ACTION_TYPE,
    M1_SIMULATED_EXECUTION_ACTION_VERSION,
};
use crate::cancellation::AgentDispatchError;
use crate::clock::{SystemClock, Timestamp};
use crate::errors::{ApplicationError, RepositoryError};
use crate::ids::{
    self, fresh_uuid, AttemptId, EndpointId, InventoryRevisionId, JobId, JobStepId, ProtocolId,
    ReservationId, TransferId,
};
use crate::json::{self, json_object};
use crate::model::{
    Actor, Attempt, AttemptState, AuditRecord, CredentialChain, CredentialDimension,
    EndpointAggregate, HardwareConfidence, IdentityState, Job, JobStep, TargetFingerprint, Transfer,
    TrustedBootstrapState,
};
use crate::reservations::{AttemptReservationRegistry, RegistrationOutcome};
use crate::text::{self, append_identity};

verus! {

/// What is durable about a step that is to be dispatched, read under one lock.
#[derive(Debug)]
pub struct FinalDispatchFacts {
    pub job: Job,
    pub endpoint: EndpointAggregate,
    pub existing_active_attempt: bool,
    pub current_inventory_revision_id: Option<InventoryRevisionId>,
}

/// What is known only at the moment of the decision: where the credential
/// stands, whether the agent is connected, and which target the endpoint shows.
#[derive(Debug)]
pub struct FinalDispatchObservations {
    pub credential: CredentialDimension,
    pub agent_present: bool,
    pub current_target_fingerprint: Option<TargetFingerprint>,
}

/// Observes the endpoint of the locked facts at this moment: its own credential,
/// its own session and its own target.
pub fn observe<
    D: FnOnce(&CredentialChain, Timestamp) -> CredentialDimension,
    P: FnOnce(EndpointId) -> bool,
    T: FnOnce(EndpointId) -> Option<TargetFingerprint>,
>(facts: &FinalDispatchFacts, now: Timestamp, dimension: D, is_present: P, target: T) -> (r:
    FinalDispatchObservations)
    requires
        call_requires(dimension, (&facts.endpoint.credential, now)),
        call_requires(is_present, (facts.endpoint.id,)),
        call_requires(target, (facts.endpoint.id,)),
    ensures
        call_ensures(dimension, (&facts.endpoint.credential, now), r.credential),
        call_ensures(is_present, (facts.endpoint.id,), r.agent_present),
        call_ensures(target, (facts.endpoint.id,), r.current_target_fingerprint),
{
    FinalDispatchObservations {
        credential: dimension(&facts.endpoint.credential, now),
        agent_present: is_present(facts.endpoint.id),
        current_target_fingerprint: target(facts.endpoint.id),
    }
}

/// Everything that the guard in front of a destructive step looks at.
#[derive(Debug)]
pub struct FinalDispatchInputs {
    pub job: Job,
    pub step_id: JobStepId,
    pub existing_active_attempt: bool,
    pub identity_enrolled: bool,
    pub credential_active: bool,
    pub agent_present: bool,
    pub current_inventory_revision_id: Option<InventoryRevisionId>,
    pub current_target_fingerprint: Option<TargetFingerprint>,
    pub hardware_confidence: HardwareConfidence,
    pub trusted_bootstrap_established: bool,
}

/// The step and its fresh attempt, as the guard lets them pass.
#[derive(Debug)]
pub struct FinalDispatchOutcome {
    pub job_step: JobStep,
    pub attempt: Attempt,
}

/// Why the guard stays shut, and the step as it is to be put back, if at all.
#[derive(Debug)]
pub struct FinalDispatchDenial<R> {
    pub rejection: R,
    pub pending_job_step: Option<JobStep>,
}

#[derive(Debug)]
pub struct FinalDispatchCommit {
    pub outcome: FinalDispatchOutcome,
    pub audit: AuditRecord,
}

/// The current boot of the endpoint is a trusted one.
pub open spec fn boot_is_trusted(endpoint: EndpointAggregate) -> bool {
    match endpoint.current_boot {
        Some(boot) => boot.trusted_bootstrap is Established,
        None => false,
    }
}

/// What the guard is shown. Every fact is the server's own; none comes from
/// whoever asked for the dispatch.
pub open spec fn guard_inputs(
    facts: FinalDispatchFacts,
    observed: FinalDispatchObservations,
    step_id: JobStepId,
) -> FinalDispatchInputs {
    FinalDispatchInputs {
        job: facts.job,
        step_id,
        existing_active_attempt: facts.existing_active_attempt,
        identity_enrolled: facts.endpoint.identity is Enrolled,
        credential_active: observed.credential is CredentialActive,
        agent_present: observed.agent_present,
        current_inventory_revision_id: facts.current_inventory_revision_id,
        current_target_fingerprint: observed.current_target_fingerprint,
        hardware_confidence: facts.endpoint.hardware_confidence,
        trusted_bootstrap_established: boot_is_trusted(facts.endpoint),
    }
}

fn build_guard_inputs(
    facts: FinalDispatchFacts,
    observed: FinalDispatchObservations,
    step_id: JobStepId,
) -> (r: FinalDispatchInputs)
    ensures
        r == guard_inputs(facts, observed, step_id),
{
    let trusted_bootstrap_established = match &facts.endpoint.current_boot {
        Some(boot) => matches!(boot.trusted_bootstrap, TrustedBootstrapState::Established),
        None => false,
    };
    FinalDispatchInputs {
        job: facts.job,
        step_id,
        existing_active_attempt: facts.existing_active_attempt,
        identity_enrolled: matches!(facts.endpoint.identity, IdentityState::Enrolled),
        credential_active: matches!(observed.credential, CredentialDimension::CredentialActive),
        agent_present: observed.agent_present,
        current_inventory_revision_id: facts.current_inventory_revision_id,
        current_target_fingerprint: observed.current_target_fingerprint,
        hardware_confidence: facts.endpoint.hardware_confidence,
        trusted_bootstrap_established,
    }
}

/// `record` reports that the step was committed to its attempt.
pub open spec fn is_dispatch_audit(
    record: AuditRecord,
    endpoint_id: EndpointId,
    job_id: JobId,
    step_id: JobStepId,
    attempt: Attempt,
    now: Timestamp,
) -> bool {
    &&& ids::is_uuid_v4(record.audit_id)
    &&& record.endpoint_id == endpoint_id
    &&& record.actor is System
    &&& record.occurred_at == now
    &&& record.detail@ == dispatch_text(step_id, attempt)
    &&& record.job_id == Some(job_id)
    &&& record.job_step_id == Some(step_id)
    &&& record.attempt_id == Some(attempt.id)
    &&& record.action_id == Some(attempt.action_id)
}

/// The audit trail's wording of a dispatch.
pub open spec fn dispatch_text(step_id: JobStepId, attempt: Attempt) -> Seq<char> {
    "destructive dispatch committed for job_step "@ + text::identity_text("JobStepId"@, step_id.0)
        + " attempt "@ + text::identity_text("AttemptId"@, attempt.id.0) + " action "@
        + text::identity_text("ActionId"@, attempt.action_id.0)
}

/// `decision` is what follows from the guard's `ruling`.
pub open spec fn dispatch_concludes<R>(
    decision: Result<FinalDispatchCommit, FinalDispatchDenial<R>>,
    ruling: Result<FinalDispatchOutcome, FinalDispatchDenial<R>>,
    endpoint_id: EndpointId,
    job_id: JobId,
    step_id: JobStepId,
    now: Timestamp,
) -> bool {
    match ruling {
        Ok(outcome) => {
            &&& decision matches Ok(commit)
            &&& commit.outcome == outcome
            &&& is_dispatch_audit(commit.audit, endpoint_id, job_id, step_id, outcome.attempt, now)
        },
        Err(denial) => decision == Err::<FinalDispatchCommit, FinalDispatchDenial<R>>(denial),
    }
}

/// Turns the guard's ruling into what is committed.
pub fn conclude_destructive_dispatch<R>(
    ruling: Result<FinalDispatchOutcome, FinalDispatchDenial<R>>,
    endpoint_id: EndpointId,
    job_id: JobId,
    step_id: JobStepId,
    now: Timestamp,
) -> (r: Result<FinalDispatchCommit, FinalDispatchDenial<R>>)
    ensures
        dispatch_concludes(r, ruling, endpoint_id, job_id, step_id, now),
{
    match ruling {
        Err(denial) => Err(denial),
        Ok(outcome) => {
            let mut detail = String::new();
            detail.append("destructive dispatch committed for job_step ");
            append_identity(&mut detail, "JobStepId", step_id.0);
            detail.append(" attempt ");
            append_identity(&mut detail, "AttemptId", outcome.attempt.id.0);
            detail.append(" action ");
            append_identity(&mut detail, "ActionId", outcome.attempt.action_id.0);
            assert(detail@ =~= dispatch_text(step_id, outcome.attempt));
            let audit = AuditRecord {
                audit_id: fresh_uuid(),
                endpoint_id,
                actor: Actor::System,
                occurred_at: now,
                detail,
                job_id: Some(job_id),
                job_step_id: Some(step_id),
                attempt_id: Some(outcome.attempt.id),
                action_id: Some(outcome.attempt.action_id),
            };
            Ok(FinalDispatchCommit { outcome, audit })
        },
    }
}

/// Decides, under the lock, whether a destructive step is dispatched: the guard is
/// shown exactly [`guard_inputs`], and its ruling stands.
pub fn decide_destructive_dispatch<
    R,
    F: FnOnce(&FinalDispatchInputs) -> Result<FinalDispatchOutcome, FinalDispatchDenial<R>>,
>(
    facts: FinalDispatchFacts,
    observed: FinalDispatchObservations,
    job_id: JobId,
    step_id: JobStepId,
    now: Timestamp,
    guard: F,
) -> (r: Result<FinalDispatchCommit, FinalDispatchDenial<R>>)
    requires
        call_requires(guard, (&guard_inputs(facts, observed, step_id),)),
    ensures
        exists|ruling: Result<FinalDispatchOutcome, FinalDispatchDenial<R>>|
            call_ensures(guard, (&guard_inputs(facts, observed, step_id),), ruling)
                && #[trigger] dispatch_concludes(
                r,
                ruling,
                facts.endpoint.id,
                job_id,
                step_id,
                now,
            ),
{
    let endpoint_id = facts.endpoint.id;
    let inputs = build_guard_inputs(facts, observed, step_id);
    let ruling = guard(&inputs);
    conclude_destructive_dispatch(ruling, endpoint_id, job_id, step_id, now)
}

/// No capacity is left for what a dispatch needs.
#[derive(Clone, Copy, Debug, PartialEq, Eq, Structural)]
pub struct InsufficientCapacity;

/// The first step of a dispatch.
#[derive(Clone, Copy, Debug, PartialEq, Eq, Structural)]
pub enum DispatchStart {
    /// Nothing was touched and nothing will be.
    ResourceUnavailable,
    /// The commitment is to be tried under this reservation.
    Commit { reservation: ReservationId },
}

fn start_dispatch(acquired: Result<ReservationId, InsufficientCapacity>) -> (r: DispatchStart)
    ensures
        match acquired {
            Ok(reservation) => r == (DispatchStart::Commit { reservation }),
            Err(_) => r is ResourceUnavailable,
        },
{
    match acquired {
        Ok(reservation) => DispatchStart::Commit { reservation },
        Err(InsufficientCapacity) => DispatchStart::ResourceUnavailable,
    }
}

/// Why a destructive dispatch was not committed.
#[derive(Debug)]
pub enum CommitDestructiveDispatchError<R> {
    Rejected(R),
    JobNotFound(JobId),
    Repository(RepositoryError),
}

/// What whoever asked for a destructive dispatch is told.
#[derive(Debug)]
pub enum FinalDispatchResult<R> {
    ResourceUnavailable,
    Rejected(R),
    Committed { outcome: FinalDispatchOutcome, reservation: ReservationId },
}

/// What whoever asked is told, and whether the reservation is given back.
#[derive(Debug)]
pub struct DispatchEnd<T> {
    pub told: Result<T, ApplicationError>,
    pub release: Option<ReservationId>,
}

/// Dispatches destructive steps.
pub struct FinalDispatchService<J, P, T, A, C> {
    pub repo: Arc<J>,
    pub clock: Arc<C>,
    pub presence: Arc<P>,
    pub target_revalidation: Arc<T>,
    pub arbiter: Arc<A>,
}

impl<J, P, T, A> FinalDispatchService<J, P, T, A, SystemClock> {
    /// With the real clock.
    pub fn new(
        repo: Arc<J>,
        presence: Arc<P>,
        target_revalidation: Arc<T>,
        arbiter: Arc<A>,
    ) -> (r: Self)
        ensures
            r.repo == repo,
            r.presence == presence,
            r.target_revalidation == target_revalidation,
            r.arbiter == arbiter,
    {
        FinalDispatchService { repo, presence, target_revalidation, arbiter, clock: Arc::new(SystemClock) }
    }
}

impl<J, P, T, A, C> FinalDispatchService<J, P, T, A, C> {
    pub fn with_clock(
        repo: Arc<J>,
        clock: Arc<C>,
        presence: Arc<P>,
        target_revalidation: Arc<T>,
        arbiter: Arc<A>,
    ) -> (r: Self)
        ensures
            r.repo == repo,
            r.clock == clock,
            r.presence == presence,
            r.target_revalidation == target_revalidation,
            r.arbiter == arbiter,
    {
        FinalDispatchService { repo, clock, presence, target_revalidation, arbiter }
    }

    /// Starts a destructive dispatch: without capacity nothing else is tried.
    pub fn begin_destructive_dispatch(
        acquired: Result<ReservationId, InsufficientCapacity>,
    ) -> (r: DispatchStart)
        ensures
            match acquired {
                Ok(reservation) => r == (DispatchStart::Commit { reservation }),
                Err(_) => r is ResourceUnavailable,
            },
    {
        start_dispatch(acquired)
    }

    /// Ends a destructive dispatch. The reservation stays held if and only if the
    /// dispatch was committed.
    pub fn commit_destructive_dispatch<R>(
        reservation: ReservationId,
        committed: Result<FinalDispatchOutcome, CommitDestructiveDispatchError<R>>,
    ) -> (r: DispatchEnd<FinalDispatchResult<R>>)
        ensures
            r.release == (if committed is Ok {
                None
            } else {
                Some(reservation)
            }),
            match committed {
                Ok(outcome) => r.told == Ok::<FinalDispatchResult<R>, ApplicationError>(
                    FinalDispatchResult::Committed { outcome, reservation },
                ),
                Err(CommitDestructiveDispatchError::Rejected(rejection)) => r.told == Ok::<
                    FinalDispatchResult<R>,
                    ApplicationError,
                >(FinalDispatchResult::Rejected(rejection)),
                Err(CommitDestructiveDispatchError::JobNotFound(id)) => r.told == Err::<
                    FinalDispatchResult<R>,
                    ApplicationError,
                >(ApplicationError::JobNotFound(id)),
                Err(CommitDestructiveDispatchError::Repository(fault)) => r.told == Err::<
                    FinalDispatchResult<R>,
                    ApplicationError,
                >(ApplicationError::Repository(fault)),
            },
    {
        match committed {
            Ok(outcome) => DispatchEnd {
                told: Ok(FinalDispatchResult::Committed { outcome, reservation }),
                release: None,
            },
            Err(CommitDestructiveDispatchError::Rejected(rejection)) => DispatchEnd {
                told: Ok(FinalDispatchResult::Rejected(rejection)),
                release: Some(reservation),
            },
            Err(CommitDestructiveDispatchError::JobNotFound(id)) => DispatchEnd {
                told: Err(ApplicationError::JobNotFound(id)),
                release: Some(reservation),
            },
            Err(CommitDestructiveDispatchError::Repository(fault)) => DispatchEnd {
                told: Err(ApplicationError::Repository(fault)),
                release: Some(reservation),
            },
        }
    }
}

/// What is durable about a transfer step that is to be dispatched, read under
/// one lock.
#[derive(Debug)]
pub struct TransferDispatchFacts {
    pub job: Job,
    pub existing_active_attempt: bool,
    pub transfer: Transfer,
}

/// Everything that the guard in front of a transfer step looks at. None of the
/// evidence that a destructive step needs is among it.
#[derive(Debug)]
pub struct TransferDispatchInputs {
    pub job: Job,
    pub step_id: JobStepId,
    pub existing_active_attempt: bool,
    pub transfer: Transfer,
}

/// The step, its fresh attempt and the transfer bound to it.
#[derive(Debug)]
pub struct TransferDispatchOutcome {
    pub job_step: JobStep,
    pub attempt: Attempt,
    pub transfer: Transfer,
}

/// What the guard in front of a transfer step is shown.
pub open spec fn transfer_guard_inputs(
    facts: TransferDispatchFacts,
    step_id: JobStepId,
) -> TransferDispatchInputs {
    TransferDispatchInputs {
        job: facts.job,
        step_id,
        existing_active_attempt: facts.existing_active_attempt,
        transfer: facts.transfer,
    }
}

/// Decides, under the lock, whether a transfer step is dispatched: the guard's
/// ruling stands.
pub fn decide_transfer_dispatch<
    D,
    F: FnOnce(&TransferDispatchInputs) -> Result<TransferDispatchOutcome, D>,
>(facts: TransferDispatchFacts, step_id: JobStepId, guard: F) -> (r: Result<
    TransferDispatchOutcome,
    D,
>)
    requires
        call_requires(guard, (&transfer_guard_inputs(facts, step_id),)),
    ensures
        call_ensures(guard, (&transfer_guard_inputs(facts, step_id),), r),
{
    let inputs = TransferDispatchInputs {
        job: facts.job,
        step_id,
        existing_active_attempt: facts.existing_active_attempt,
        transfer: facts.transfer,
    };
    guard(&inputs)
}

/// Why a transfer dispatch was not committed.
#[derive(Debug)]
pub enum CommitTransferDispatchError<R> {
    Rejected(R),
    JobNotFound(JobId),
    TransferNotFound(TransferId),
    Repository(RepositoryError),
}

/// What whoever asked for a transfer dispatch is told.
#[derive(Debug)]
pub enum TransferDispatchResult<R> {
    ResourceUnavailable,
    Rejected(R),
    Committed { outcome: TransferDispatchOutcome, reservation: ReservationId },
}

/// Dispatches transfer steps.
pub struct TransferDispatchService<J, A> {
    pub repo: Arc<J>,
    pub arbiter: Arc<A>,
}

impl<J, A> TransferDispatchService<J, A> {
    pub fn new(repo: Arc<J>, arbiter: Arc<A>) -> (r: Self)
        ensures
            r.repo == repo,
            r.arbiter == arbiter,
    {
        TransferDispatchService { repo, arbiter }
    }

    /// Starts a transfer dispatch: without capacity nothing else is tried.
    pub fn begin_transfer_dispatch(acquired: Result<ReservationId, InsufficientCapacity>) -> (r:
        DispatchStart)
        ensures
            match acquired {
                Ok(reservation) => r == (DispatchStart::Commit { reservation }),
                Err(_) => r is ResourceUnavailable,
            },
    {
        start_dispatch(acquired)
    }

    /// Ends a transfer dispatch. The reservation stays held if and only if the
    /// dispatch was committed.
    pub fn commit_transfer_dispatch<R>(
        reservation: ReservationId,
        committed: Result<TransferDispatchOutcome, CommitTransferDispatchError<R>>,
    ) -> (r: DispatchEnd<TransferDispatchResult<R>>)
        ensures
            r.release == (if committed is Ok {
                None
            } else {
                Some(reservation)
            }),
            match committed {
                Ok(outcome) => r.told == Ok::<TransferDispatchResult<R>, ApplicationError>(
                    TransferDispatchResult::Committed { outcome, reservation },
                ),
                Err(CommitTransferDispatchError::Rejected(rejection)) => r.told == Ok::<
                    TransferDispatchResult<R>,
                    ApplicationError,
                >(TransferDispatchResult::Rejected(rejection)),
                Err(CommitTransferDispatchError::JobNotFound(id)) => r.told == Err::<
                    TransferDispatchResult<R>,
                    ApplicationError,
                >(ApplicationError::JobNotFound(id)),
                Err(CommitTransferDispatchError::TransferNotFound(id)) => r.told == Err::<
                    TransferDispatchResult<R>,
                    ApplicationError,
                >(ApplicationError::TransferNotFound(id)),
                Err(CommitTransferDispatchError::Repository(fault)) => r.told == Err::<
                    TransferDispatchResult<R>,
                    ApplicationError,
                >(ApplicationError::Repository(fault)),
            },
    {
        match committed {
            Ok(outcome) => DispatchEnd {
                told: Ok(TransferDispatchResult::Committed { outcome, reservation }),
                release: None,
            },
            Err(CommitTransferDispatchError::Rejected(rejection)) => DispatchEnd {
                told: Ok(TransferDispatchResult::Rejected(rejection)),
                release: Some(reservation),
            },
            Err(CommitTransferDispatchError::JobNotFound(id)) => DispatchEnd {
                told: Err(ApplicationError::JobNotFound(id)),
                release: Some(reservation),
            },
            Err(CommitTransferDispatchError::TransferNotFound(id)) => DispatchEnd {
                told: Err(ApplicationError::TransferNotFound(id)),
                release: Some(reservation),
            },
            Err(CommitTransferDispatchError::Repository(fault)) => DispatchEnd {
                told: Err(ApplicationError::Repository(fault)),
                release: Some(reservation),
            },
        }
    }
}

/// What became of the transmission of an action. Neither `Sent` nor
/// `SendFailed` says anything about its execution.
#[derive(Clone, Copy, Debug, PartialEq, Eq, Structural)]
pub enum ActionDispatchOutcome {
    Sent,
    SendFailed(AgentDispatchError),
    /// The attempt was handed over before; nothing was sent.
    AlreadyDispatched,
    /// The attempt is not freshly dispatched; nothing was sent.
    NotDispatchable,
}

/// An action as it is handed to the agent's session. The message is correlated
/// to the action that it carries.
#[derive(Debug)]
pub struct ActionDispatch {
    pub endpoint_id: EndpointId,
    pub action_id: ProtocolId,
    pub correlation_id: ProtocolId,
    pub action_type: &'static str,
    pub action_version: &'static str,
    pub parameters: serde_json::Map<String, serde_json::Value>,
}

/// The first step of a transmission.
#[derive(Debug)]
pub enum ActionDispatchStep {
    Send(ActionDispatch),
    Refuse(ActionDispatchOutcome),
}

/// Whether an attempt may be transmitted, by its state and the registry: once,
/// and only while it is freshly dispatched.
pub open spec fn may_send(registry: Map<u128, ReservationId>, attempt: Attempt) -> bool {
    attempt.state is Dispatched && !registry.dom().contains(attempt.id.0)
}

/// The registry after a transmission was asked for. What the transmission comes
/// to has no bearing on it.
pub open spec fn registry_after_dispatch(
    registry: Map<u128, ReservationId>,
    attempt: Attempt,
    reservation: ReservationId,
) -> Map<u128, ReservationId> {
    if may_send(registry, attempt) {
        registry.insert(attempt.id.0, reservation)
    } else {
        registry
    }
}

/// What a refused transmission is told.
pub open spec fn refusal_of(attempt: Attempt) -> ActionDispatchOutcome {
    if attempt.state is Dispatched {
        ActionDispatchOutcome::AlreadyDispatched
    } else {
        ActionDispatchOutcome::NotDispatchable
    }
}

/// `step` hands over `attempt`'s action under its own persisted identity, or
/// refuses, as the registry and the attempt's state have it.
pub open spec fn dispatch_step_follows(
    step: ActionDispatchStep,
    registry: Map<u128, ReservationId>,
    endpoint_id: EndpointId,
    attempt: Attempt,
    action_type: Seq<char>,
    action_version: Seq<char>,
    parameters: Map<Seq<char>, json::JsonMember>,
) -> bool {
    if may_send(registry, attempt) {
        &&& step matches ActionDispatchStep::Send(message)
        &&& message.endpoint_id == endpoint_id
        &&& message.action_id == ProtocolId(attempt.action_id.0)
        &&& message.correlation_id == message.action_id
        &&& message.action_type@ == action_type
        &&& message.action_version@ == action_version
        &&& json::json_members(message.parameters) == parameters
    } else {
        step == ActionDispatchStep::Refuse(refusal_of(attempt))
    }
}

fn admit_dispatch(
    registry: &mut AttemptReservationRegistry,
    attempt: Attempt,
    reservation: ReservationId,
) -> (r: Option<ActionDispatchOutcome>)
    ensures
        final(registry)@ == registry_after_dispatch(old(registry)@, attempt, reservation),
        r == (if may_send(old(registry)@, attempt) {
            None
        } else {
            Some(refusal_of(attempt))
        }),
{
    if !matches!(attempt.state, AttemptState::Dispatched) {
        return Some(ActionDispatchOutcome::NotDispatchable);
    }
    match registry.register(attempt.id, reservation) {
        RegistrationOutcome::AlreadyRegistered => Some(ActionDispatchOutcome::AlreadyDispatched),
        RegistrationOutcome::Registered => None,
    }
}

/// Transmits actions.
pub struct ActionDispatchService<G, T> {
    pub reservations: Arc<G>,
    pub transport: Arc<T>,
}

impl<G, T> ActionDispatchService<G, T> {
    pub fn new(reservations: Arc<G>, transport: Arc<T>) -> (r: Self)
        ensures
            r.reservations == reservations,
            r.transport == transport,
    {
        ActionDispatchService { reservations, transport }
    }

    /// Starts the transmission of a simulated execution, which has no
    /// parameters.
    pub fn dispatch(
        registry: &mut AttemptReservationRegistry,
        endpoint_id: EndpointId,
        attempt: Attempt,
        reservation: ReservationId,
    ) -> (r: ActionDispatchStep)
        requires
            ids::is_uuid_v4(attempt.action_id.0),
        ensures
            final(registry)@ == registry_after_dispatch(old(registry)@, attempt, reservation),
            dispatch_step_follows(
                r,
                old(registry)@,
                endpoint_id,
                attempt,
                M1_SIMULATED_EXECUTION_ACTION_TYPE@,
                M1_SIMULATED_EXECUTION_ACTION_VERSION@,
                json::no_members(),
            ),
    {
        match admit_dispatch(registry, attempt, reservation) {
            Some(refused) => ActionDispatchStep::Refuse(refused),
            None => ActionDispatchStep::Send(
                ActionDispatch {
                    endpoint_id,
                    action_id: ProtocolId(attempt.action_id.0),
                    correlation_id: ProtocolId(attempt.action_id.0),
                    action_type: M1_SIMULATED_EXECUTION_ACTION_TYPE,
                    action_version: M1_SIMULATED_EXECUTION_ACTION_VERSION,
                    parameters: json_object(),
                },
            ),
        }
    }

    /// Starts the transmission of a data-plane transfer, with the parameters of
    /// the durable transfer.
    pub fn dispatch_transfer(
        registry: &mut AttemptReservationRegistry,
        endpoint_id: EndpointId,
        attempt: Attempt,
        reservation: ReservationId,
        transfer: &Transfer,
    ) -> (r: ActionDispatchStep)
        requires
            ids::is_uuid_v4(attempt.action_id.0),
        ensures
            final(registry)@ == registry_after_dispatch(old(registry)@, attempt, reservation),
            dispatch_step_follows(
                r,
                old(registry)@,
                endpoint_id,
                attempt,
                M1_DATA_PLANE_TRANSFER_ACTION_TYPE@,
                M1_DATA_PLANE_TRANSFER_ACTION_VERSION@,
                action_detail::transfer_parameters(transfer),
            ),
    {
        match admit_dispatch(registry, attempt, reservation) {
            Some(refused) => ActionDispatchStep::Refuse(refused),
            None => ActionDispatchStep::Send(
                ActionDispatch {
                    endpoint_id,
                    action_id: ProtocolId(attempt.action_id.0),
                    correlation_id: ProtocolId(attempt.action_id.0),
                    action_type: M1_DATA_PLANE_TRANSFER_ACTION_TYPE,
                    action_version: M1_DATA_PLANE_TRANSFER_ACTION_VERSION,
                    parameters: transfer_action_parameters(transfer),
                },
            ),
        }
    }

    /// What a transmission came to. A failure is reported; the reservation stays
    /// registered, and nothing is sent again.
    pub fn dispatch_sent(sent: Result<(), AgentDispatchError>) -> (r: ActionDispatchOutcome)
        ensures
            match sent {
                Ok(()) => r is Sent,
                Err(error) => r == ActionDispatchOutcome::SendFailed(error),
            },
    {
        match sent {
            Ok(()) => ActionDispatchOutcome::Sent,
            Err(error) => ActionDispatchOutcome::SendFailed(error),
        }
    }
}

/// An attempt is handed over at most once: asked again, with whatever
/// reservation, the service refuses and keeps the first one.
pub proof fn attempt_is_sent_at_most_once(
    registry: Map<u128, ReservationId>,
    attempt: Attempt,
    again: Attempt,
    first: ReservationId,
    second: ReservationId,
)
    requires
        may_send(registry, attempt),
        again.id == attempt.id,
    ensures
        !may_send(registry_after_dispatch(registry, attempt, first), again),
        registry_after_dispatch(registry_after_dispatch(registry, attempt, first), again, second)
            == registry.insert(attempt.id.0, first),
{
}

/// An attempt that is past `Dispatched` is refused and leaves no trace.
pub proof fn stale_attempt_leaves_no_trace(
    registry: Map<u128, ReservationId>,
    attempt: Attempt,
    reservation: ReservationId,
)
    requires
        attempt.state !is Dispatched,
    ensures
        !may_send(registry, attempt),
        refusal_of(attempt) is NotDispatchable,
        registry_after_dispatch(registry, attempt, reservation) == registry,
{
}

/// The guard in front of a destructive step rules on what is locked and what was
/// observed, fact by fact, and its ruling is what comes of the dispatch.
pub proof fn guard_rules_on_what_is_locked_and_observed<
    R,
    F: FnOnce(&FinalDispatchInputs) -> Result<FinalDispatchOutcome, FinalDispatchDenial<R>>,
>(
    facts: FinalDispatchFacts,
    observed: FinalDispatchObservations,
    job_id: JobId,
    step_id: JobStepId,
    now: Timestamp,
    guard: F,
    decided: Result<FinalDispatchCommit, FinalDispatchDenial<R>>,
)
    requires
        call_ensures(
            decide_destructive_dispatch::<R, F>,
            (facts, observed, job_id, step_id, now, guard),
            decided,
        ),
    ensures
        exists|
            inputs: FinalDispatchInputs,
            ruling: Result<FinalDispatchOutcome, FinalDispatchDenial<R>>,
        |
            #[trigger] call_ensures(guard, (&inputs,), ruling) && {
                &&& inputs.job == facts.job
                &&& inputs.step_id == step_id
                &&& inputs.existing_active_attempt == facts.existing_active_attempt
                &&& inputs.identity_enrolled <==> facts.endpoint.identity is Enrolled
                &&& inputs.credential_active <==> observed.credential is CredentialActive
                &&& inputs.agent_present == observed.agent_present
                &&& inputs.current_inventory_revision_id == facts.current_inventory_revision_id
                &&& inputs.current_target_fingerprint == observed.current_target_fingerprint
                &&& inputs.hardware_confidence == facts.endpoint.hardware_confidence
                &&& inputs.trusted_bootstrap_established <==> (facts.endpoint.current_boot
                    matches Some(boot) && boot.trusted_bootstrap is Established)
                &&& decided is Ok <==> ruling is Ok
                &&& ruling matches Ok(outcome) ==> decided->Ok_0.outcome == outcome
                &&& ruling matches Err(denial) ==> decided->Err_0 == denial
            },
{
    let inputs = guard_inputs(facts, observed, step_id);
    let ruling = choose|ruling: Result<FinalDispatchOutcome, FinalDispatchDenial<R>>|
        call_ensures(guard, (&inputs,), ruling) && #[trigger] dispatch_concludes(
            decided,
            ruling,
            facts.endpoint.id,
            job_id,
            step_id,
            now,
        );
    assert(call_ensures(guard, (&inputs,), ruling));
}

/// A guard that refuses a second attempt beside an active one keeps it from being
/// dispatched, whatever else holds.
pub proof fn no_attempt_is_dispatched_beside_an_active_one<
    R,
    F: FnOnce(&FinalDispatchInputs) -> Result<FinalDispatchOutcome, FinalDispatchDenial<R>>,
>(
    facts: FinalDispatchFacts,
    observed: FinalDispatchObservations,
    job_id: JobId,
    step_id: JobStepId,
    now: Timestamp,
    guard: F,
    decided: Result<FinalDispatchCommit, FinalDispatchDenial<R>>,
)
    requires
        forall|
            inputs: FinalDispatchInputs,
            ruling: Result<FinalDispatchOutcome, FinalDispatchDenial<R>>,
        |
            #[trigger] call_ensures(guard, (&inputs,), ruling) && inputs.existing_active_attempt
                ==> ruling is Err,
        call_ensures(
            decide_destructive_dispatch::<R, F>,
            (facts, observed, job_id, step_id, now, guard),
            decided,
        ),
        facts.existing_active_attempt,
    ensures
        decided is Err,
{
    guard_rules_on_what_is_locked_and_observed(
        facts,
        observed,
        job_id,
        step_id,
        now,
        guard,
        decided,
    );
}

/// Under a guard that asks for every precaution, a destructive step is committed
/// exactly where the server's own records and observations meet every one.
pub proof fn destructive_step_needs_every_precaution<
    R,
    F: FnOnce(&FinalDispatchInputs) -> Result<FinalDispatchOutcome, FinalDispatchDenial<R>>,
>(
    facts: FinalDispatchFacts,
    observed: FinalDispatchObservations,
    job_id: JobId,
    step_id: JobStepId,
    now: Timestamp,
    guard: F,
    decided: Result<FinalDispatchCommit, FinalDispatchDenial<R>>,
)
    requires
        forall|
            inputs: FinalDispatchInputs,
            ruling: Result<FinalDispatchOutcome, FinalDispatchDenial<R>>,
        |
            #[trigger] call_ensures(guard, (&inputs,), ruling) ==> (ruling is Ok <==> {
                &&& !inputs.existing_active_attempt
                &&& inputs.identity_enrolled
                &&& inputs.credential_active
                &&& inputs.agent_present
                &&& inputs.current_inventory_revision_id is Some
                &&& inputs.current_target_fingerprint is Some
                &&& inputs.hardware_confidence is Consistent
                &&& inputs.trusted_bootstrap_established
            }),
        call_ensures(
            decide_destructive_dispatch::<R, F>,
            (facts, observed, job_id, step_id, now, guard),
            decided,
        ),
    ensures
        decided is Ok <==> {
            &&& !facts.existing_active_attempt
            &&& facts.endpoint.identity == IdentityState::Enrolled
            &&& observed.credential == CredentialDimension::CredentialActive
            &&& observed.agent_present
            &&& facts.current_inventory_revision_id is Some
            &&& observed.current_target_fingerprint is Some
            &&& facts.endpoint.hardware_confidence == HardwareConfidence::Consistent
            &&& facts.endpoint.current_boot matches Some(boot) && boot.trusted_bootstrap
                == TrustedBootstrapState::Established
        },
{
    guard_rules_on_what_is_locked_and_observed(
        facts,
        observed,
        job_id,
        step_id,
        now,
        guard,
        decided,
    );
}

/// A committed destructive step is in the audit trail once, on the system's own
/// authority, at the moment of the decision, under the endpoint, the job, the step,
/// the attempt and the action that were committed.
pub proof fn committed_dispatch_is_audited<
    R,
    F: FnOnce(&FinalDispatchInputs) -> Result<FinalDispatchOutcome, FinalDispatchDenial<R>>,
>(
    facts: FinalDispatchFacts,
    observed: FinalDispatchObservations,
    job_id: JobId,
    step_id: JobStepId,
    now: Timestamp,
    guard: F,
    commit: FinalDispatchCommit,
)
    requires
        call_ensures(
            decide_destructive_dispatch::<R, F>,
            (facts, observed, job_id, step_id, now, guard),
            Ok(commit),
        ),
    ensures
        ids::is_uuid_v4(commit.audit.audit_id),
        commit.audit.endpoint_id == facts.endpoint.id,
        commit.audit.actor == Actor::System,
        commit.audit.occurred_at == now,
        commit.audit.job_id == Some(job_id),
        commit.audit.job_step_id == Some(step_id),
        commit.audit.attempt_id == Some(commit.outcome.attempt.id),
        commit.audit.action_id == Some(commit.outcome.attempt.action_id),
        commit.audit.detail@ == "destructive dispatch committed for job_step "@
            + text::identity_text("JobStepId"@, step_id.0) + " attempt "@ + text::identity_text(
            "AttemptId"@,
            commit.outcome.attempt.id.0,
        ) + " action "@ + text::identity_text("ActionId"@, commit.outcome.attempt.action_id.0),
{
}

/// What is observed for a dispatch is observed of the locked endpoint: its own
/// credential at this moment, its own session, its own target.
pub proof fn observations_are_of_the_locked_endpoint<
    D: FnOnce(&CredentialChain, Timestamp) -> CredentialDimension,
    P: FnOnce(EndpointId) -> bool,
    T: FnOnce(EndpointId) -> Option<TargetFingerprint>,
>(
    facts: FinalDispatchFacts,
    now: Timestamp,
    dimension: D,
    is_present: P,
    target: T,
    observed: FinalDispatchObservations,
)
    requires
        call_ensures(observe::<D, P, T>, (&facts, now, dimension, is_present, target), observed),
        forall|chain: CredentialChain, at: Timestamp, answer: CredentialDimension| #[trigger]
            call_ensures(dimension, (&chain, at), answer) ==> (answer is CredentialActive
                <==> !chain.revoked),
        forall|id: EndpointId, answer: bool| #[trigger]
            call_ensures(is_present, (id,), answer) ==> answer == (id == facts.endpoint.id),
        forall|id: EndpointId, answer: Option<TargetFingerprint>| #[trigger]
            call_ensures(target, (id,), answer) ==> answer is Some == (id == facts.endpoint.id),
    ensures
        observed.credential is CredentialActive <==> !facts.endpoint.credential.revoked,
        observed.agent_present,
        observed.current_target_fingerprint is Some,
{
}

/// The guard in front of a transfer step rules on the locked job, the step, whether
/// an attempt is active already, and the locked transfer.
pub proof fn transfer_guard_rules_on_what_is_locked<
    D,
    F: FnOnce(&TransferDispatchInputs) -> Result<TransferDispatchOutcome, D>,
>(
    facts: TransferDispatchFacts,
    step_id: JobStepId,
    guard: F,
    decided: Result<TransferDispatchOutcome, D>,
)
    requires
        call_ensures(decide_transfer_dispatch::<D, F>, (facts, step_id, guard), decided),
    ensures
        exists|inputs: TransferDispatchInputs| #[trigger]
            call_ensures(guard, (&inputs,), decided) && {
                &&& inputs.job == facts.job
                &&& inputs.step_id == step_id
                &&& inputs.existing_active_attempt == facts.existing_active_attempt
                &&& inputs.transfer == facts.transfer
            },
{
    assert(call_ensures(guard, (&transfer_guard_inputs(facts, step_id),), decided));
}

/// A guard that refuses a transfer that is bound already, or a second attempt, keeps
/// such a transfer from being dispatched again.
pub proof fn bound_transfer_is_not_dispatched_again<
    D,
    F: FnOnce(&TransferDispatchInputs) -> Result<TransferDispatchOutcome, D>,
>(
    facts: TransferDispatchFacts,
    step_id: JobStepId,
    guard: F,
    decided: Result<TransferDispatchOutcome, D>,
)
    requires
        forall|inputs: TransferDispatchInputs, ruling: Result<TransferDispatchOutcome, D>| #[trigger]
            call_ensures(guard, (&inputs,), ruling) && (inputs.transfer.attempt_id is Some
                || inputs.existing_active_attempt) ==> ruling is Err,
        call_ensures(decide_transfer_dispatch::<D, F>, (facts, step_id, guard), decided),
        facts.transfer.attempt_id is Some || facts.existing_active_attempt,
    ensures
        decided is Err,
{
    transfer_guard_rules_on_what_is_locked(facts, step_id, guard, decided);
}

/// Nothing is tried without a reservation, and a reservation that was acquired is
/// the one that the commitment is tried under.
pub proof fn dispatch_starts_under_its_reservation<J, P, T, A, C>(
    acquired: Result<ReservationId, InsufficientCapacity>,
    destructive: DispatchStart,
    transfer: DispatchStart,
)
    requires
        call_ensures(
            FinalDispatchService::<J, P, T, A, C>::begin_destructive_dispatch,
            (acquired,),
            destructive,
        ),
        call_ensures(
            TransferDispatchService::<J, A>::begin_transfer_dispatch,
            (acquired,),
            transfer,
        ),
    ensures
        destructive == transfer,
        acquired is Err <==> destructive is ResourceUnavailable,
        acquired matches Ok(reservation) ==> destructive matches DispatchStart::Commit {
            reservation: under,
        } && under == reservation,
{
}

/// A reservation is given back exactly where nothing was committed under it; and
/// where something was, whoever asked is told which reservation holds it.
pub proof fn destructive_reservation_is_held_or_given_back<J, P, T, A, C, R>(
    reservation: ReservationId,
    committed: Result<FinalDispatchOutcome, CommitDestructiveDispatchError<R>>,
    end: DispatchEnd<FinalDispatchResult<R>>,
)
    requires
        call_ensures(
            FinalDispatchService::<J, P, T, A, C>::commit_destructive_dispatch::<R>,
            (reservation, committed),
            end,
        ),
    ensures
        committed is Err <==> end.release == Some(reservation),
        committed is Ok <==> end.release is None,
        committed is Ok <==> (end.told matches Ok(FinalDispatchResult::Committed {
            reservation: held,
            ..
        }) && held == reservation),
        committed matches Ok(outcome) ==> end.told matches Ok(FinalDispatchResult::Committed {
            outcome: told,
            ..
        }) && told == outcome,
        committed matches Err(CommitDestructiveDispatchError::Rejected(rejection))
            ==> end.told matches Ok(FinalDispatchResult::Rejected(told)) && told == rejection,
        committed matches Err(CommitDestructiveDispatchError::JobNotFound(id))
            ==> end.told matches Err(ApplicationError::JobNotFound(told)) && told == id,
        committed matches Err(CommitDestructiveDispatchError::Repository(fault))
            ==> end.told matches Err(ApplicationError::Repository(told)) && told == fault,
{
}

/// The same of a transfer's reservation.
pub proof fn transfer_reservation_is_held_or_given_back<J, A, R>(
    reservation: ReservationId,
    committed: Result<TransferDispatchOutcome, CommitTransferDispatchError<R>>,
    end: DispatchEnd<TransferDispatchResult<R>>,
)
    requires
        call_ensures(
            TransferDispatchService::<J, A>::commit_transfer_dispatch::<R>,
            (reservation, committed),
            end,
        ),
    ensures
        committed is Err <==> end.release == Some(reservation),
        committed is Ok <==> end.release is None,
        committed matches Ok(outcome) ==> end.told matches Ok(TransferDispatchResult::Committed {
            outcome: told,
            reservation: held,
        }) && told == outcome && held == reservation,
        committed matches Err(CommitTransferDispatchError::Rejected(rejection))
            ==> end.told matches Ok(TransferDispatchResult::Rejected(told)) && told == rejection,
        committed matches Err(CommitTransferDispatchError::JobNotFound(id))
            ==> end.told matches Err(ApplicationError::JobNotFound(told)) && told == id,
        committed matches Err(CommitTransferDispatchError::TransferNotFound(id))
            ==> end.told matches Err(ApplicationError::TransferNotFound(told)) && told == id,
        committed matches Err(CommitTransferDispatchError::Repository(fault))
            ==> end.told matches Err(ApplicationError::Repository(told)) && told == fault,
{
}

/// An action goes out exactly where its attempt is freshly dispatched and was never
/// registered; it then carries the attempt's own action to the endpoint, correlated
/// to itself, and the registry holds the attempt's reservation. Any other request
/// sends nothing and changes nothing.
pub proof fn action_is_sent_once_to_its_endpoint<G, T>(
    registry: &mut AttemptReservationRegistry,
    endpoint_id: EndpointId,
    attempt: Attempt,
    reservation: ReservationId,
    step: ActionDispatchStep,
)
    requires
        call_ensures(
            ActionDispatchService::<G, T>::dispatch,
            (registry, endpoint_id, attempt, reservation),
            step,
        ),
    ensures
        step is Send <==> attempt.state == AttemptState::Dispatched
            && !old(registry)@.dom().contains(attempt.id.0),
        step matches ActionDispatchStep::Send(message) ==> {
            &&& message.endpoint_id == endpoint_id
            &&& message.action_id.0 == attempt.action_id.0
            &&& message.correlation_id.0 == attempt.action_id.0
            &&& message.action_type@ == "bamep.m1.simulated-execution"@
            &&& message.action_version@ == "1"@
            &&& json::json_members(message.parameters).dom() =~= Set::<Seq<char>>::empty()
            &&& final(registry)@ == old(registry)@.insert(attempt.id.0, reservation)
        },
        step matches ActionDispatchStep::Refuse(outcome) ==> {
            &&& final(registry)@ == old(registry)@
            &&& outcome == ActionDispatchOutcome::AlreadyDispatched <==> attempt.state
                == AttemptState::Dispatched
            &&& outcome == ActionDispatchOutcome::NotDispatchable <==> attempt.state
                != AttemptState::Dispatched
        },
{
}

/// The same of a transfer's action, which tells the agent the durable transfer and
/// its artifact.
pub proof fn transfer_action_is_sent_once_to_its_endpoint<G, T>(
    registry: &mut AttemptReservationRegistry,
    endpoint_id: EndpointId,
    attempt: Attempt,
    reservation: ReservationId,
    transfer: Transfer,
    step: ActionDispatchStep,
)
    requires
        call_ensures(
            ActionDispatchService::<G, T>::dispatch_transfer,
            (registry, endpoint_id, attempt, reservation, &transfer),
            step,
        ),
    ensures
        step is Send <==> attempt.state == AttemptState::Dispatched
            && !old(registry)@.dom().contains(attempt.id.0),
        step matches ActionDispatchStep::Send(message) ==> {
            &&& message.endpoint_id == endpoint_id
            &&& message.action_id.0 == attempt.action_id.0
            &&& message.correlation_id.0 == attempt.action_id.0
            &&& message.action_type@ == "bamep.m1.data-plane-transfer"@
            &&& message.action_version@ == "1"@
            &&& json::json_members(message.parameters) == action_detail::transfer_parameters(
                &transfer,
            )
            &&& final(registry)@ == old(registry)@.insert(attempt.id.0, reservation)
        },
        step matches ActionDispatchStep::Refuse(outcome) ==> {
            &&& final(registry)@ == old(registry)@
            &&& outcome == ActionDispatchOutcome::AlreadyDispatched <==> attempt.state
                == AttemptState::Dispatched
            &&& outcome == ActionDispatchOutcome::NotDispatchable <==> attempt.state
                != AttemptState::Dispatched
        },
{
}

/// What a transmission came to is told as it came.
pub proof fn transmission_is_told_as_it_came<G, T>(
    sent: Result<(), AgentDispatchError>,
    outcome: ActionDispatchOutcome,
)
    requires
        call_ensures(ActionDispatchService::<G, T>::dispatch_sent, (sent,), outcome),
    ensures
        sent is Ok <==> outcome is Sent,
        sent matches Err(error) ==> outcome == ActionDispatchOutcome::SendFailed(error),
{
}

} // verus!
