use bamep_server::action_detail::{
    M1_DATA_PLANE_TRANSFER_ACTION_TYPE, M1_DATA_PLANE_TRANSFER_ACTION_VERSION,
    M1_SIMULATED_EXECUTION_ACTION_TYPE, M1_SIMULATED_EXECUTION_ACTION_VERSION,
};
use bamep_server::cancellation::AgentDispatchError;
use bamep_server::clock::Timestamp;
use bamep_server::dispatch::{
    decide_destructive_dispatch, decide_transfer_dispatch, observe, ActionDispatch,
    ActionDispatchOutcome, ActionDispatchService, ActionDispatchStep, CommitDestructiveDispatchError,
    CommitTransferDispatchError, DispatchStart, FinalDispatchCommit, FinalDispatchDenial,
    FinalDispatchFacts, FinalDispatchInputs, FinalDispatchObservations, FinalDispatchOutcome,
    FinalDispatchResult, FinalDispatchService, InsufficientCapacity, TransferDispatchFacts,
    TransferDispatchInputs, TransferDispatchOutcome, TransferDispatchResult,
    TransferDispatchService,
};
use bamep_server::errors::{ApplicationError, RepositoryError};
use bamep_server::ids::{
    ActionId, ArtifactId, AttemptId, EndpointId, InventoryRevisionId, JobId, JobStepId, ProtocolId,
    ReservationId, TransferId,
};
use bamep_server::job_store::{commit_destructive_dispatch, DispatchTransaction};
use bamep_server::model::{
    Actor, Attempt, AttemptState, CredentialChain, CredentialDimension, CredentialSlot,
    CurrentBoot, DestructiveIntent, DigestAlgorithm, EndpointAggregate, HardwareConfidence,
    IdentityState, Job, JobState, JobStep, JobStepState, TargetFingerprint, Transfer,
    TransferDirection, TrustedBootstrapState,
};
use bamep_server::reservations::AttemptReservationRegistry;

type Dispatcher = ActionDispatchService<(), ()>;
type FinalDispatcher = FinalDispatchService<(), (), (), (), ()>;
type TransferDispatcher = TransferDispatchService<(), ()>;

const ENDPOINT: EndpointId = EndpointId(0xE0);
const JOB: JobId = JobId(0x10B);
const STEP: JobStepId = JobStepId(0x57E9);
const REVISION: InventoryRevisionId = InventoryRevisionId(0x1);
const ACTION: u128 = 0x6f9619ff_8b86_4d01_b42d_00cf4fc964ff;
const NOW: Timestamp = Timestamp { seconds: 1_700_000_000, nanos: 0 };

#[derive(Debug, PartialEq)]
enum Rejection {
    AgentNotPresent,
    CredentialNotActive,
    StaleInventory,
    TargetMismatch,
    HardwareConfidenceNotConsistent,
    TrustedBootstrapNotEstablished,
    JobNotRunning,
    TransferAlreadyBound,
}

fn dispatched_attempt() -> Attempt {
    Attempt {
        id: AttemptId(0xA7),
        job_step_id: STEP,
        action_id: ActionId(ACTION),
        state: AttemptState::Dispatched,
    }
}

fn step(state: JobStepState) -> JobStep {
    JobStep {
        id: STEP,
        job_id: JOB,
        order: 0,
        state,
        destructive_intent: Some(DestructiveIntent {
            authorized_inventory_revision_id: REVISION,
            authorized_target_fingerprint: TargetFingerprint::new("disk-a"),
        }),
        failure_reason: None,
    }
}

fn job() -> Job {
    Job {
        id: JOB,
        endpoint_id: ENDPOINT,
        state: JobState::Running,
        steps: vec![step(JobStepState::PreconditionsSatisfied)],
    }
}

fn endpoint(hardware_confidence: HardwareConfidence, trusted: bool) -> EndpointAggregate {
    EndpointAggregate {
        id: ENDPOINT,
        inventory_signal: "sim-final-dispatch".to_string(),
        identity: IdentityState::Enrolled,
        credential: CredentialChain {
            predecessor: CredentialSlot {
                lookup_id: vec![1; 16],
                hash: vec![2; 48],
                issued_at: NOW,
                expires_at: NOW,
            },
            successor: None,
            revoked: false,
        },
        hardware_confidence,
        current_boot: Some(CurrentBoot {
            boot_context_id: vec![3; 16],
            boot_nonce: vec![4; 32],
            trusted_bootstrap: if trusted {
                TrustedBootstrapState::Established
            } else {
                TrustedBootstrapState::NotEstablished
            },
        }),
        created_at: NOW,
        updated_at: NOW,
    }
}

fn facts() -> FinalDispatchFacts {
    FinalDispatchFacts {
        job: job(),
        endpoint: endpoint(HardwareConfidence::Consistent, true),
        existing_active_attempt: false,
        current_inventory_revision_id: Some(REVISION),
    }
}

fn observed() -> FinalDispatchObservations {
    FinalDispatchObservations {
        credential: CredentialDimension::CredentialActive,
        agent_present: true,
        current_target_fingerprint: Some(TargetFingerprint::new("disk-a")),
    }
}

fn guard(
    inputs: &FinalDispatchInputs,
) -> Result<FinalDispatchOutcome, FinalDispatchDenial<Rejection>> {
    let intent = inputs.job.steps[0].destructive_intent.as_ref().unwrap();
    let target = inputs.current_target_fingerprint.as_ref().map(|target| target.as_str());
    let rejection = if !inputs.credential_active {
        Some(Rejection::CredentialNotActive)
    } else if !inputs.agent_present {
        Some(Rejection::AgentNotPresent)
    } else if inputs.current_inventory_revision_id
        != Some(intent.authorized_inventory_revision_id)
    {
        Some(Rejection::StaleInventory)
    } else if target != Some(intent.authorized_target_fingerprint.as_str()) {
        Some(Rejection::TargetMismatch)
    } else if inputs.hardware_confidence != HardwareConfidence::Consistent {
        Some(Rejection::HardwareConfidenceNotConsistent)
    } else if !inputs.trusted_bootstrap_established {
        Some(Rejection::TrustedBootstrapNotEstablished)
    } else {
        None
    };
    match rejection {
        Some(rejection) => Err(FinalDispatchDenial {
            rejection,
            pending_job_step: Some(step(JobStepState::Pending)),
        }),
        None => Ok(FinalDispatchOutcome {
            job_step: step(JobStepState::Dispatching),
            attempt: dispatched_attempt(),
        }),
    }
}

fn decided(
    facts: FinalDispatchFacts,
    observed: FinalDispatchObservations,
) -> Result<FinalDispatchCommit, FinalDispatchDenial<Rejection>> {
    assert!(facts.endpoint.identity == IdentityState::Enrolled);
    decide_destructive_dispatch(facts, observed, JOB, STEP, NOW, guard)
}

fn rejection(facts: FinalDispatchFacts, observed: FinalDispatchObservations) -> Rejection {
    decided(facts, observed).err().unwrap().rejection
}

#[test]
fn all_pass_commits_dispatching_step_and_one_dispatched_attempt() {
    let commit = decided(facts(), observed()).unwrap();
    assert_eq!(commit.outcome.job_step.state, JobStepState::Dispatching);
    assert_eq!(commit.outcome.attempt.state, AttemptState::Dispatched);
    assert!(matches!(commit.audit.actor, Actor::System));
    assert_eq!(
        commit.audit.detail,
        "destructive dispatch committed for job_step JobStepId(00000000-0000-0000-0000-0000000057e9) \
         attempt AttemptId(00000000-0000-0000-0000-0000000000a7) \
         action ActionId(6f9619ff-8b86-4d01-b42d-00cf4fc964ff)"
    );
    match commit_destructive_dispatch::<Rejection>(STEP, Ok(commit)) {
        DispatchTransaction::Commit { step_state, attempt, audit, .. } => {
            assert_eq!(step_state, JobStepState::Dispatching);
            assert_eq!(attempt.state, AttemptState::Dispatched);
            assert_eq!(attempt.action_id, ACTION);
            assert_eq!(attempt.job_step_id, STEP.0);
            assert_eq!(audit.action_id, Some(ACTION));
            assert_eq!(audit.actor_label, None);
        }
        other => panic!("expected a commit, got {:?}", other),
    }
}

#[test]
fn credential_active_without_presence_blocks_dispatch() {
    let absent = FinalDispatchObservations { agent_present: false, ..observed() };
    assert_eq!(rejection(facts(), absent), Rejection::AgentNotPresent);
}

#[test]
fn presence_with_inactive_credential_blocks_dispatch() {
    let inactive = FinalDispatchObservations {
        credential: CredentialDimension::CredentialInactive,
        ..observed()
    };
    assert_eq!(rejection(facts(), inactive), Rejection::CredentialNotActive);
}

#[test]
fn current_inventory_equality_cannot_compensate_for_target_mismatch() {
    let moved = FinalDispatchObservations {
        current_target_fingerprint: Some(TargetFingerprint::new("disk-mismatch")),
        ..observed()
    };
    assert_eq!(rejection(facts(), moved), Rejection::TargetMismatch);
}

#[test]
fn matching_target_cannot_compensate_for_stale_inventory() {
    let stale = FinalDispatchFacts {
        current_inventory_revision_id: Some(InventoryRevisionId(2)),
        ..facts()
    };
    assert_eq!(rejection(stale, observed()), Rejection::StaleInventory);
}

#[test]
fn consistent_hardware_confidence_is_required_independently() {
    let lowered = FinalDispatchFacts {
        endpoint: endpoint(HardwareConfidence::LoweredConfidence, true),
        ..facts()
    };
    assert_eq!(rejection(lowered, observed()), Rejection::HardwareConfidenceNotConsistent);
}

#[test]
fn trusted_bootstrap_is_required_independently() {
    let untrusted = FinalDispatchFacts {
        endpoint: endpoint(HardwareConfidence::Consistent, false),
        ..facts()
    };
    assert_eq!(rejection(untrusted, observed()), Rejection::TrustedBootstrapNotEstablished);
    let mut never_booted = endpoint(HardwareConfidence::Consistent, true);
    never_booted.current_boot = None;
    let unbooted = FinalDispatchFacts { endpoint: never_booted, ..facts() };
    assert_eq!(rejection(unbooted, observed()), Rejection::TrustedBootstrapNotEstablished);
}

#[test]
fn mod_resource_unavailable_leaves_step_preconditions_satisfied_without_persisting() {
    assert_eq!(
        FinalDispatcher::begin_destructive_dispatch(Err(InsufficientCapacity)),
        DispatchStart::ResourceUnavailable
    );
    assert_eq!(
        TransferDispatcher::begin_transfer_dispatch(Err(InsufficientCapacity)),
        DispatchStart::ResourceUnavailable
    );
    assert_eq!(
        FinalDispatcher::begin_destructive_dispatch(Ok(ReservationId(1))),
        DispatchStart::Commit { reservation: ReservationId(1) }
    );
    assert_eq!(
        TransferDispatcher::begin_transfer_dispatch(Ok(ReservationId(1))),
        DispatchStart::Commit { reservation: ReservationId(1) }
    );
}

#[test]
fn a_refused_step_goes_back_to_pending_and_frees_the_reservation() {
    let moved = FinalDispatchObservations {
        current_target_fingerprint: Some(TargetFingerprint::new("disk-mismatch")),
        ..observed()
    };
    let denial = decided(facts(), moved).err().unwrap();
    match commit_destructive_dispatch(STEP, Err::<FinalDispatchCommit, _>(denial)) {
        DispatchTransaction::PutBack { step_state, rejection } => {
            assert_eq!(step_state, JobStepState::Pending);
            assert_eq!(rejection, Rejection::TargetMismatch);
        }
        other => panic!("expected the step to be put back, got {:?}", other),
    }
    let end = FinalDispatcher::commit_destructive_dispatch(
        ReservationId(9),
        Err(CommitDestructiveDispatchError::Rejected(Rejection::TargetMismatch)),
    );
    assert_eq!(end.release, Some(ReservationId(9)));
    assert!(matches!(end.told, Ok(FinalDispatchResult::Rejected(Rejection::TargetMismatch))));
}

#[test]
fn a_refusal_without_a_step_to_put_back_writes_nothing() {
    let denial = FinalDispatchDenial { rejection: 3u8, pending_job_step: None };
    assert!(matches!(
        commit_destructive_dispatch(STEP, Err::<FinalDispatchCommit, _>(denial)),
        DispatchTransaction::Rollback { rejection: 3 }
    ));
}

#[test]
fn mod_persistence_failure_releases_reservation_and_creates_nothing() {
    let fault = || RepositoryError::Backend("simulated persistence failure".to_string());
    let end = FinalDispatcher::commit_destructive_dispatch::<Rejection>(
        ReservationId(9),
        Err(CommitDestructiveDispatchError::Repository(fault())),
    );
    assert_eq!(end.release, Some(ReservationId(9)));
    assert!(matches!(end.told, Err(ApplicationError::Repository(_))));
    let end = TransferDispatcher::commit_transfer_dispatch::<Rejection>(
        ReservationId(9),
        Err(CommitTransferDispatchError::Repository(fault())),
    );
    assert_eq!(end.release, Some(ReservationId(9)));
    assert!(matches!(end.told, Err(ApplicationError::Repository(_))));
}

#[test]
fn a_dispatch_of_something_missing_releases_the_reservation() {
    let end = FinalDispatcher::commit_destructive_dispatch::<Rejection>(
        ReservationId(4),
        Err(CommitDestructiveDispatchError::JobNotFound(JOB)),
    );
    assert_eq!(end.release, Some(ReservationId(4)));
    assert!(matches!(end.told, Err(ApplicationError::JobNotFound(JOB))));
    let end = TransferDispatcher::commit_transfer_dispatch::<Rejection>(
        ReservationId(4),
        Err(CommitTransferDispatchError::TransferNotFound(TransferId(5))),
    );
    assert!(matches!(end.told, Err(ApplicationError::TransferNotFound(TransferId(5)))));
    let end = TransferDispatcher::commit_transfer_dispatch::<Rejection>(
        ReservationId(4),
        Err(CommitTransferDispatchError::JobNotFound(JOB)),
    );
    assert!(matches!(end.told, Err(ApplicationError::JobNotFound(JOB))));
}

#[test]
fn success_keeps_the_reservation_held() {
    let outcome = FinalDispatchOutcome {
        job_step: step(JobStepState::Dispatching),
        attempt: dispatched_attempt(),
    };
    let end =
        FinalDispatcher::commit_destructive_dispatch::<Rejection>(ReservationId(2), Ok(outcome));
    assert_eq!(end.release, None);
    match end.told {
        Ok(FinalDispatchResult::Committed { reservation, .. }) => {
            assert_eq!(reservation, ReservationId(2));
        }
        other => panic!("expected Committed, got {:?}", other),
    }
}

fn transfer_fixture() -> Transfer {
    Transfer {
        id: TransferId(0x7),
        endpoint_id: ENDPOINT,
        job_id: JOB,
        job_step_id: STEP,
        artifact_id: ArtifactId(0xa),
        direction: TransferDirection::AgentToServer,
        digest_algorithm: DigestAlgorithm::Sha256,
        chunk_size: 4096,
        source_provenance: "disk-0".to_string(),
        attempt_id: None,
    }
}

#[test]
fn the_endpoint_of_the_locked_facts_is_the_one_observed() {
    let observed = observe(
        &facts(),
        NOW,
        |chain: &CredentialChain, now| {
            assert_eq!((chain.predecessor.lookup_id.clone(), now), (vec![1; 16], NOW));
            CredentialDimension::CredentialInactive
        },
        |endpoint_id| endpoint_id == ENDPOINT,
        |endpoint_id| {
            assert_eq!(endpoint_id, ENDPOINT);
            Some(TargetFingerprint::new("disk-b"))
        },
    );
    assert!(matches!(observed.credential, CredentialDimension::CredentialInactive));
    assert!(observed.agent_present);
    assert_eq!(observed.current_target_fingerprint.unwrap().value, "disk-b");
}

/// A rejection, and the step as it is to be put back.
struct TransferDenial {
    rejection: Rejection,
    pending_job_step: Option<JobStep>,
}

fn transfer_guard(
    inputs: &TransferDispatchInputs,
) -> Result<TransferDispatchOutcome, TransferDenial> {
    assert_eq!(inputs.step_id, STEP);
    let denied = |rejection| TransferDenial {
        rejection,
        pending_job_step: Some(step(JobStepState::Pending)),
    };
    if inputs.job.state != JobState::Running {
        return Err(denied(Rejection::JobNotRunning));
    }
    if inputs.transfer.attempt_id.is_some() {
        return Err(denied(Rejection::TransferAlreadyBound));
    }
    let attempt = dispatched_attempt();
    Ok(TransferDispatchOutcome {
        job_step: step(JobStepState::Dispatching),
        attempt,
        transfer: Transfer { attempt_id: Some(attempt.id), ..transfer_fixture() },
    })
}

/// What a transfer dispatch leaves behind in the store.
struct TransferStore {
    step_state: JobStepState,
    attempts: Vec<Attempt>,
    bound: Option<AttemptId>,
}

impl TransferStore {
    fn before(transfer: &Transfer) -> TransferStore {
        TransferStore {
            step_state: JobStepState::PreconditionsSatisfied,
            attempts: Vec::new(),
            bound: transfer.attempt_id,
        }
    }

    fn commit(
        &mut self,
        decided: Result<TransferDispatchOutcome, TransferDenial>,
    ) -> Result<TransferDispatchOutcome, CommitTransferDispatchError<Rejection>> {
        match decided {
            Ok(outcome) => {
                self.step_state = outcome.job_step.state;
                self.attempts.push(outcome.attempt);
                self.bound = outcome.transfer.attempt_id;
                Ok(outcome)
            }
            Err(denial) => {
                if let Some(pending) = denial.pending_job_step {
                    self.step_state = pending.state;
                }
                Err(CommitTransferDispatchError::Rejected(denial.rejection))
            }
        }
    }
}

fn transfer_facts(transfer: Transfer) -> TransferDispatchFacts {
    TransferDispatchFacts { job: job(), existing_active_attempt: false, transfer }
}

#[test]
fn eligible_transfer_dispatch_commits_and_binds_the_exact_transfer() {
    let mut store = TransferStore::before(&transfer_fixture());
    let decided =
        decide_transfer_dispatch(transfer_facts(transfer_fixture()), STEP, transfer_guard);
    let committed = store.commit(decided);
    let end = TransferDispatcher::commit_transfer_dispatch(ReservationId(2), committed);
    match end.told {
        Ok(TransferDispatchResult::Committed { outcome, reservation }) => {
            assert_eq!(reservation, ReservationId(2));
            assert_eq!(outcome.transfer.id, TransferId(0x7));
            assert_eq!(outcome.transfer.attempt_id, Some(outcome.attempt.id));
        }
        other => panic!("expected Committed, got {:?}", other),
    }
    assert_eq!(store.step_state, JobStepState::Dispatching);
    assert_eq!(store.attempts, vec![dispatched_attempt()]);
    assert_eq!(store.bound, Some(dispatched_attempt().id));
}

#[test]
fn success_keeps_the_reservation_held_for_number_26() {
    let mut store = TransferStore::before(&transfer_fixture());
    let decided =
        decide_transfer_dispatch(transfer_facts(transfer_fixture()), STEP, transfer_guard);
    let committed = store.commit(decided);
    let end = TransferDispatcher::commit_transfer_dispatch(ReservationId(2), committed);
    assert!(matches!(end.told, Ok(TransferDispatchResult::Committed { .. })));
    assert_eq!(end.release, None);
}

#[test]
fn revalidation_failure_releases_reservation_and_returns_step_to_pending() {
    let mut store = TransferStore::before(&transfer_fixture());
    let mut facts = transfer_facts(transfer_fixture());
    facts.job.state = JobState::Cancelling;
    let committed = store.commit(decide_transfer_dispatch(facts, STEP, transfer_guard));
    let end = TransferDispatcher::commit_transfer_dispatch(ReservationId(6), committed);
    assert!(matches!(end.told, Ok(TransferDispatchResult::Rejected(Rejection::JobNotRunning))));
    assert_eq!(store.step_state, JobStepState::Pending);
    assert!(store.attempts.is_empty());
    assert_eq!(store.bound, None);
    assert_eq!(end.release, Some(ReservationId(6)));
}

#[test]
fn an_already_bound_transfer_is_rejected_without_a_second_attempt() {
    let bound = Transfer { attempt_id: Some(AttemptId(1)), ..transfer_fixture() };
    let mut store = TransferStore::before(&bound);
    let committed =
        store.commit(decide_transfer_dispatch(transfer_facts(bound), STEP, transfer_guard));
    let end = TransferDispatcher::commit_transfer_dispatch(ReservationId(6), committed);
    assert!(matches!(
        end.told,
        Ok(TransferDispatchResult::Rejected(Rejection::TransferAlreadyBound))
    ));
    assert!(store.attempts.is_empty());
    assert_eq!(store.bound, Some(AttemptId(1)));
    assert_eq!(end.release, Some(ReservationId(6)));
}

fn sent(step: ActionDispatchStep) -> ActionDispatch {
    match step {
        ActionDispatchStep::Send(message) => message,
        other => panic!("expected a message to send, got {:?}", other),
    }
}

fn refused(step: ActionDispatchStep) -> ActionDispatchOutcome {
    match step {
        ActionDispatchStep::Refuse(outcome) => outcome,
        other => panic!("expected a refusal, got {:?}", other),
    }
}

#[test]
fn first_dispatch_sends_and_registers_the_reservation() {
    let mut registry = AttemptReservationRegistry::new();
    let attempt = dispatched_attempt();
    sent(Dispatcher::dispatch(&mut registry, ENDPOINT, attempt, ReservationId(1)));
    assert_eq!(Dispatcher::dispatch_sent(Ok(())), ActionDispatchOutcome::Sent);
    assert_eq!(registry.take(attempt.id), Some(ReservationId(1)));
}

#[test]
fn repeated_call_for_the_same_attempt_sends_nothing() {
    let mut registry = AttemptReservationRegistry::new();
    let attempt = dispatched_attempt();
    sent(Dispatcher::dispatch(&mut registry, ENDPOINT, attempt, ReservationId(1)));
    let second = Dispatcher::dispatch(&mut registry, ENDPOINT, attempt, ReservationId(2));
    assert_eq!(refused(second), ActionDispatchOutcome::AlreadyDispatched);
    assert_eq!(registry.take(attempt.id), Some(ReservationId(1)));
}

#[test]
fn repeated_call_after_first_send_failed_still_sends_nothing() {
    let mut registry = AttemptReservationRegistry::new();
    let attempt = dispatched_attempt();
    sent(Dispatcher::dispatch(&mut registry, ENDPOINT, attempt, ReservationId(1)));
    assert_eq!(
        Dispatcher::dispatch_sent(Err(AgentDispatchError::SendFailed)),
        ActionDispatchOutcome::SendFailed(AgentDispatchError::SendFailed)
    );
    let second = Dispatcher::dispatch(&mut registry, ENDPOINT, attempt, ReservationId(2));
    assert_eq!(refused(second), ActionDispatchOutcome::AlreadyDispatched);
    assert_eq!(registry.take(attempt.id), Some(ReservationId(1)));
}

#[test]
fn a_non_dispatched_attempt_is_rejected_without_registering_or_sending() {
    let mut registry = AttemptReservationRegistry::new();
    let attempt = Attempt { state: AttemptState::Succeeded, ..dispatched_attempt() };
    let step = Dispatcher::dispatch(&mut registry, ENDPOINT, attempt, ReservationId(1));
    assert_eq!(refused(step), ActionDispatchOutcome::NotDispatchable);
    assert_eq!(registry.take(attempt.id), None);
}

#[test]
fn dispatch_transfer_sends_the_exact_rf005_action() {
    let mut registry = AttemptReservationRegistry::new();
    let transfer = transfer_fixture();
    let attempt = dispatched_attempt();
    let message = sent(Dispatcher::dispatch_transfer(
        &mut registry,
        ENDPOINT,
        attempt,
        ReservationId(1),
        &transfer,
    ));
    assert_eq!(message.endpoint_id, ENDPOINT);
    assert_eq!(message.action_id, ProtocolId(attempt.action_id.0));
    assert_eq!(message.action_type, M1_DATA_PLANE_TRANSFER_ACTION_TYPE);
    assert_eq!(message.action_version, M1_DATA_PLANE_TRANSFER_ACTION_VERSION);
    assert_eq!(message.correlation_id, ProtocolId(attempt.action_id.0));
    let params = &message.parameters;
    assert_eq!(params.len(), 5);
    assert_eq!(
        params.get("transfer_id").and_then(|v| v.as_str()),
        Some("00000000-0000-0000-0000-000000000007")
    );
    assert_eq!(
        params.get("artifact_id").and_then(|v| v.as_str()),
        Some("00000000-0000-0000-0000-00000000000a")
    );
    assert_eq!(params.get("direction").and_then(|v| v.as_str()), Some("agent_to_server"));
    assert_eq!(params.get("digest_algorithm").and_then(|v| v.as_str()), Some("sha256"));
    assert_eq!(params.get("chunk_size").and_then(|v| v.as_u64()), Some(4096));
}

#[test]
fn dispatch_transfer_registers_the_reservation_like_dispatch() {
    let mut registry = AttemptReservationRegistry::new();
    let attempt = dispatched_attempt();
    Dispatcher::dispatch_transfer(
        &mut registry,
        ENDPOINT,
        attempt,
        ReservationId(1),
        &transfer_fixture(),
    );
    assert_eq!(registry.take(attempt.id), Some(ReservationId(1)));
}

#[test]
fn dispatch_transfer_repeated_call_sends_nothing_a_second_time() {
    let mut registry = AttemptReservationRegistry::new();
    let transfer = transfer_fixture();
    let attempt = dispatched_attempt();
    sent(Dispatcher::dispatch_transfer(
        &mut registry,
        ENDPOINT,
        attempt,
        ReservationId(1),
        &transfer,
    ));
    let second = Dispatcher::dispatch_transfer(
        &mut registry,
        ENDPOINT,
        attempt,
        ReservationId(2),
        &transfer,
    );
    assert_eq!(refused(second), ActionDispatchOutcome::AlreadyDispatched);
}

#[test]
fn dispatch_transfer_a_non_dispatched_attempt_is_rejected() {
    let mut registry = AttemptReservationRegistry::new();
    let attempt = Attempt { state: AttemptState::Succeeded, ..dispatched_attempt() };
    let step = Dispatcher::dispatch_transfer(
        &mut registry,
        ENDPOINT,
        attempt,
        ReservationId(1),
        &transfer_fixture(),
    );
    assert_eq!(refused(step), ActionDispatchOutcome::NotDispatchable);
}

#[test]
fn existing_simulated_execution_dispatch_is_unaffected() {
    let mut registry = AttemptReservationRegistry::new();
    let message =
        sent(Dispatcher::dispatch(&mut registry, ENDPOINT, dispatched_attempt(), ReservationId(1)));
    assert_eq!(message.action_type, M1_SIMULATED_EXECUTION_ACTION_TYPE);
    assert_eq!(message.action_version, M1_SIMULATED_EXECUTION_ACTION_VERSION);
    assert!(message.parameters.is_empty());
}
