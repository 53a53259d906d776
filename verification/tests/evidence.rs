use bamep_server::action_detail::{
    m1_result_detail_matches, parse_transfer_result_detail, ActionResultOutcome,
    TransferResultCode, TransferResultDetail, TransferResultDetailError,
};
use bamep_server::cancellation::{
    decide_request, AgentDispatchError, CancelActionSendOutcome, CancellationFacts,
    CancellationRequestDecided, CancellationRequestError, CancellationRequestOutcome,
    CancellationRequestResult, CancellationService, CancellationStep, RequestCancellationResult,
};
use bamep_server::clock::Timestamp;
use bamep_server::errors::{
    ApplicationError, ApplyActionEvidenceError, CloseIndeterminateError, RepositoryError,
    RequestCancellationError,
};
use bamep_server::evidence::{
    decide_action_evidence, decide_cancel_ack, decide_status_report, decide_transfer_cancel_ack,
    decide_transfer_status_report_cancelled, decide_transfer_terminal_evidence, fail_incomplete,
    ActionEvidence, CancelAckEvidence, EvidenceApplied, EvidenceDecision, EvidenceFacts,
    EvidenceOutcome, EvidenceResult, SettlementOutcome, StatusReportEvidence, TransferDecision,
    TransferEvidenceFacts,
};
use bamep_server::evidence_service::{
    ActionEvidenceService, ClassificationStep, TransferActionClassification,
    TransferCancelAckOutcome, TransferEvidenceResult, TransferStatusReportOutcome,
    TransferTerminalEvidenceService, TransferTerminalOutcome,
};
use bamep_server::ids::{
    uuid_is_v4, ActionId, ArtifactId, AttemptId, EndpointId, JobId, JobStepId, ProtocolId,
    ReservationId, TransferId,
};
use bamep_server::model::{
    Actor, Artifact, ArtifactState, Attempt, AttemptState, CaptureConsistency, DigestAlgorithm,
    DomainEvent, DomainEventBody, Job, JobState, JobStep, JobStepState, Transfer,
    TransferDirection,
};
use bamep_server::reconciliation::{
    decide_close_indeterminate, decide_mark_uncertain, CloseIndeterminateDecision,
    CloseIndeterminateOutcome, CloseIndeterminateResult, ReconciliationService, SessionStartStep,
    StatusQuerySendOutcome,
};
use bamep_server::reservations::AttemptReservationRegistry;

type Evidence = ActionEvidenceService<(), (), (), ()>;
type TransferEvidence = TransferTerminalEvidenceService<(), (), (), ()>;
type Cancellation = CancellationService<(), (), (), (), ()>;
type Reconciliation = ReconciliationService<(), (), (), (), ()>;

const NOW: Timestamp = Timestamp { seconds: 1_700_000_000, nanos: 0 };
const ACTION: u128 = 0x6f9619ff_8b86_4d01_b42d_00cf4fc964ff;
const ENDPOINT: EndpointId = EndpointId(0xe);
const ATTEMPT: AttemptId = AttemptId(0xa);

fn attempt(state: AttemptState) -> Attempt {
    Attempt { id: ATTEMPT, job_step_id: JobStepId(0x5), action_id: ActionId(ACTION), state }
}

fn step(state: JobStepState) -> JobStep {
    JobStep {
        id: JobStepId(0x5),
        job_id: JobId(0x1),
        order: 0,
        state,
        destructive_intent: None,
        failure_reason: None,
    }
}

fn job(state: JobState) -> Job {
    Job { id: JobId(0x1), endpoint_id: ENDPOINT, state, steps: Vec::new() }
}

fn facts() -> EvidenceFacts {
    EvidenceFacts {
        job: job(JobState::Running),
        job_step: step(JobStepState::Dispatching),
        attempt: attempt(AttemptState::InProgress),
    }
}

fn applied(state: AttemptState, terminal: bool) -> EvidenceApplied {
    EvidenceApplied {
        attempt: attempt(state),
        job_step: step(JobStepState::Succeeded),
        job: job(JobState::Succeeded),
        events: Vec::new(),
        terminal,
    }
}

const ENDED: &str = "attempt AttemptId(00000000-0000-0000-0000-00000000000a) \
    action ActionId(6f9619ff-8b86-4d01-b42d-00cf4fc964ff) reached terminal state ";
const FOR_STEP: &str = " for job_step JobStepId(00000000-0000-0000-0000-000000000005)";

fn audit_detail(decision: EvidenceDecision) -> Option<String> {
    match decision {
        EvidenceDecision::Applied(commit) => commit.audit.map(|record| {
            assert!(uuid_is_v4(record.audit_id));
            assert!(matches!(record.actor, Actor::System));
            assert_eq!(record.endpoint_id, ENDPOINT);
            assert_eq!(record.occurred_at, NOW);
            assert_eq!(record.attempt_id, Some(ATTEMPT));
            record.detail
        }),
        other => panic!("expected applied evidence, got {:?}", other),
    }
}

#[test]
fn an_ended_attempt_is_audited() {
    let decision = decide_action_evidence(
        &facts(),
        ActionEvidence::ResultSucceeded,
        NOW,
        |facts: &EvidenceFacts, evidence, now| {
            assert_eq!(evidence, ActionEvidence::ResultSucceeded);
            assert_eq!(now, NOW);
            assert_eq!(facts.attempt.state, AttemptState::InProgress);
            EvidenceOutcome::Applied(applied(AttemptState::Succeeded, true))
        },
    );
    assert_eq!(audit_detail(decision), Some(format!("{}Succeeded{}", ENDED, FOR_STEP)));
}

#[test]
fn an_open_attempt_is_not_audited() {
    let decision = decide_action_evidence(
        &facts(),
        ActionEvidence::AckAccepted,
        NOW,
        |_: &EvidenceFacts, _, _| EvidenceOutcome::Applied(applied(AttemptState::InProgress, false)),
    );
    assert_eq!(audit_detail(decision), None);
}

#[test]
fn repeated_and_conflicting_evidence_commits_nothing() {
    let repeated = decide_action_evidence(
        &facts(),
        ActionEvidence::AckAccepted,
        NOW,
        |_: &EvidenceFacts, _, _| EvidenceOutcome::NoOp,
    );
    assert!(matches!(repeated, EvidenceDecision::NoOp));
    let conflicting = decide_action_evidence(
        &facts(),
        ActionEvidence::ResultFailed,
        NOW,
        |_: &EvidenceFacts, _, _| EvidenceOutcome::Conflict,
    );
    assert!(matches!(conflicting, EvidenceDecision::Conflict));
}

#[test]
fn the_audit_says_by_which_evidence_an_attempt_ended() {
    let cancelled = decide_cancel_ack(
        &facts(),
        CancelAckEvidence::Cancelled,
        NOW,
        |_: &EvidenceFacts, _, _| {
            SettlementOutcome::Applied(applied(AttemptState::Cancelled, true))
        },
    );
    assert_eq!(
        audit_detail(cancelled),
        Some(format!("{}Cancelled{} via cancellation evidence", ENDED, FOR_STEP))
    );
    let reported = decide_status_report(
        &facts(),
        StatusReportEvidence::Failed,
        NOW,
        |_: &EvidenceFacts, _, _| SettlementOutcome::Applied(applied(AttemptState::Failed, true)),
    );
    assert_eq!(
        audit_detail(reported),
        Some(format!("{}Failed{} via reconciliation evidence", ENDED, FOR_STEP))
    );
    assert!(matches!(
        decide_status_report(
            &facts(),
            StatusReportEvidence::Unknown,
            NOW,
            |_: &EvidenceFacts, _, _| SettlementOutcome::NoOp
        ),
        EvidenceDecision::NoOp
    ));
}

fn artifact(state: ArtifactState) -> Artifact {
    Artifact { id: ArtifactId(0xf), state, capture_consistency: CaptureConsistency::NotApplicable }
}

fn transfer_facts(state: ArtifactState) -> TransferEvidenceFacts {
    TransferEvidenceFacts {
        workflow: facts(),
        transfer: Transfer {
            id: TransferId(0x7),
            endpoint_id: ENDPOINT,
            job_id: JobId(0x1),
            job_step_id: JobStepId(0x5),
            artifact_id: ArtifactId(0xf),
            direction: TransferDirection::AgentToServer,
            digest_algorithm: DigestAlgorithm::Sha256,
            chunk_size: 4096,
            source_provenance: "disk-0".to_string(),
            attempt_id: Some(ATTEMPT),
        },
        artifact: artifact(state),
    }
}

fn terminal(code: TransferResultCode, artifact_id: u128, state: ArtifactState) -> TransferDecision {
    decide_transfer_terminal_evidence(
        TransferResultDetail { code, artifact_id },
        &transfer_facts(state),
        NOW,
        |_: &EvidenceFacts, evidence, _| {
            let state = match evidence {
                ActionEvidence::ResultSucceeded => AttemptState::Succeeded,
                _ => AttemptState::Failed,
            };
            EvidenceOutcome::Applied(applied(state, true))
        },
    )
}

fn committed(decision: TransferDecision) -> (String, Option<ArtifactState>) {
    match decision {
        TransferDecision::Applied { commit, artifact_failed } => {
            (commit.audit.unwrap().detail, artifact_failed.map(|artifact| artifact.state))
        }
        other => panic!("expected applied evidence, got {:?}", other),
    }
}

#[test]
fn success_is_committed_only_for_a_verified_artifact() {
    assert_eq!(
        committed(terminal(TransferResultCode::TransferVerified, 0xf, ArtifactState::Verified)),
        (
            format!(
                "{}Succeeded{} (bamep.m1.data-plane-transfer: TransferVerified)",
                ENDED, FOR_STEP
            ),
            None
        )
    );
    for state in [ArtifactState::Incomplete, ArtifactState::PendingVerification, ArtifactState::Failed]
    {
        assert!(matches!(
            terminal(TransferResultCode::TransferVerified, 0xf, state),
            TransferDecision::FailClosed
        ));
    }
}

#[test]
fn an_abandoned_capture_fails_its_incomplete_artifact() {
    assert_eq!(
        committed(terminal(TransferResultCode::TransferAbandoned, 0xf, ArtifactState::Incomplete)),
        (
            format!(
                "{}Failed{} (bamep.m1.data-plane-transfer: TransferAbandoned, artifact Incomplete -> Failed)",
                ENDED, FOR_STEP
            ),
            Some(ArtifactState::Failed)
        )
    );
    for state in [ArtifactState::PendingVerification, ArtifactState::Verified, ArtifactState::Failed] {
        assert!(matches!(
            terminal(TransferResultCode::ChunkVerificationFailed, 0xf, state),
            TransferDecision::FailClosed
        ));
        assert_eq!(fail_incomplete(&artifact(state)), None);
    }
}

#[test]
fn a_failed_verification_needs_a_failed_artifact() {
    let (detail, failed) = committed(terminal(
        TransferResultCode::ArtifactVerificationFailed,
        0xf,
        ArtifactState::Failed,
    ));
    assert_eq!(
        detail,
        format!(
            "{}Failed{} (bamep.m1.data-plane-transfer: ArtifactVerificationFailed)",
            ENDED, FOR_STEP
        )
    );
    assert_eq!(failed, None);
    assert!(matches!(
        terminal(TransferResultCode::ArtifactVerificationFailed, 0xf, ArtifactState::Incomplete),
        TransferDecision::FailClosed
    ));
}

#[test]
fn a_result_about_another_artifact_fails_closed() {
    assert!(matches!(
        terminal(TransferResultCode::TransferVerified, 0xd, ArtifactState::Verified),
        TransferDecision::FailClosed
    ));
    let mut unbound = transfer_facts(ArtifactState::Verified);
    unbound.transfer.attempt_id = None;
    let decision = decide_transfer_terminal_evidence(
        TransferResultDetail { code: TransferResultCode::TransferVerified, artifact_id: 0xf },
        &unbound,
        NOW,
        |_: &EvidenceFacts, _, _| panic!("the workflow must not be asked"),
    );
    assert!(matches!(decision, TransferDecision::FailClosed));
}

fn transfer_cancelled(state: ArtifactState, end: AttemptState, terminal: bool) -> TransferDecision {
    decide_transfer_cancel_ack(
        CancelAckEvidence::Cancelled,
        &transfer_facts(state),
        NOW,
        |_: &EvidenceFacts, _, _| SettlementOutcome::Applied(applied(end, terminal)),
    )
}

#[test]
fn a_cancelled_transfer_fails_its_incomplete_artifact_only() {
    assert_eq!(
        committed(transfer_cancelled(ArtifactState::Incomplete, AttemptState::Cancelled, true)),
        (
            format!(
                "{}Cancelled{} via cancellation evidence (bamep.m1.data-plane-transfer: artifact Incomplete -> Failed)",
                ENDED, FOR_STEP
            ),
            Some(ArtifactState::Failed)
        )
    );
    assert_eq!(
        committed(transfer_cancelled(ArtifactState::Verified, AttemptState::Cancelled, true)),
        (format!("{}Cancelled{} via cancellation evidence", ENDED, FOR_STEP), None)
    );
    assert_eq!(
        committed(transfer_cancelled(ArtifactState::Incomplete, AttemptState::Succeeded, true)).1,
        None
    );
    match transfer_cancelled(ArtifactState::Incomplete, AttemptState::AwaitingReconciliation, false) {
        TransferDecision::Applied { commit, artifact_failed } => {
            assert!(commit.audit.is_none());
            assert!(artifact_failed.is_none());
        }
        other => panic!("expected applied evidence, got {:?}", other),
    }
}

#[test]
fn a_transfer_reported_as_cancelled_fails_its_incomplete_artifact() {
    let decision = decide_transfer_status_report_cancelled(
        &transfer_facts(ArtifactState::Incomplete),
        NOW,
        |_: &EvidenceFacts, evidence, _| {
            assert_eq!(evidence, StatusReportEvidence::Cancelled);
            SettlementOutcome::Applied(applied(AttemptState::Cancelled, true))
        },
    );
    assert_eq!(
        committed(decision),
        (
            format!(
                "{}Cancelled{} via reconciliation evidence, artifact Incomplete -> Failed",
                ENDED, FOR_STEP
            ),
            Some(ArtifactState::Failed)
        )
    );
    let mut unbound = transfer_facts(ArtifactState::Incomplete);
    unbound.artifact.id = ArtifactId(0x99);
    assert!(matches!(
        decide_transfer_status_report_cancelled(&unbound, NOW, |_: &EvidenceFacts, _, _| panic!(
            "the workflow must not be asked"
        )),
        TransferDecision::NoOp
    ));
}

fn registry() -> AttemptReservationRegistry {
    let mut registry = AttemptReservationRegistry::new();
    registry.register(ATTEMPT, ReservationId(1));
    registry.register(AttemptId(0xb), ReservationId(2));
    registry
}

#[test]
fn the_end_of_an_attempt_releases_its_reservation_once() {
    let mut registry = registry();
    let end = || Ok(EvidenceResult::Applied(applied(AttemptState::Succeeded, true)));
    let first = Evidence::apply(&mut registry, end());
    assert_eq!(first.release, Some(ReservationId(1)));
    assert!(matches!(first.told, Ok(EvidenceResult::Applied(_))));
    let second = Reconciliation::apply_status_report(&mut registry, end());
    assert_eq!(second.release, None);
    assert_eq!(registry.take(AttemptId(0xb)), Some(ReservationId(2)));
}

#[test]
fn evidence_that_leaves_the_outcome_open_releases_nothing() {
    let mut registry = registry();
    let open = Cancellation::apply_cancel_ack(
        &mut registry,
        Ok(EvidenceResult::Applied(applied(AttemptState::InProgress, false))),
    );
    assert_eq!(open.release, None);
    assert!(matches!(
        Evidence::apply(&mut registry, Ok(EvidenceResult::Conflict)).told,
        Ok(EvidenceResult::Conflict)
    ));
    assert!(matches!(
        Evidence::apply(&mut registry, Ok(EvidenceResult::NoOp)).told,
        Ok(EvidenceResult::NoOp)
    ));
    let refused = Evidence::apply(&mut registry, Err(ApplyActionEvidenceError::UnknownAction));
    assert!(matches!(refused.told, Err(ApplicationError::UnknownAction)));
    assert_eq!(refused.release, None);
    assert_eq!(registry.take(ATTEMPT), Some(ReservationId(1)));
}

#[test]
fn actions_are_classified_by_durable_facts() {
    let fault = || RepositoryError::Backend("down".to_string());
    assert!(matches!(TransferEvidence::classify(Ok(true)), ClassificationStep::AskForBoundTransfer));
    assert!(matches!(
        TransferEvidence::classify(Ok(false)),
        ClassificationStep::Done(Ok(TransferActionClassification::Unknown))
    ));
    assert!(matches!(
        TransferEvidence::classify(Err(fault())),
        ClassificationStep::Done(Err(ApplicationError::Repository(_)))
    ));
    assert!(matches!(
        TransferEvidence::classify_bound(Ok(true)),
        Ok(TransferActionClassification::DataPlaneTransfer)
    ));
    assert!(matches!(
        TransferEvidence::classify_bound(Ok(false)),
        Ok(TransferActionClassification::SimulatedExecution)
    ));
    assert!(TransferEvidence::classify_bound(Err(fault())).is_err());
    assert!(matches!(Evidence::action_belongs_to_endpoint(Ok(true)), Ok(true)));
    assert!(Evidence::action_belongs_to_endpoint(Err(fault())).is_err());
}

#[test]
fn transfer_evidence_is_told_by_what_was_committed() {
    let mut registry = registry();
    let end = TransferEvidenceResult::Applied(applied(AttemptState::Failed, true));
    let settled = TransferEvidence::apply(&mut registry, Ok(end));
    assert!(matches!(settled.told, Ok(TransferTerminalOutcome::Consumed)));
    assert_eq!(settled.release, Some(ReservationId(1)));
    for (result, told) in [
        (TransferEvidenceResult::NoOp, TransferTerminalOutcome::Consumed),
        (TransferEvidenceResult::Conflict, TransferTerminalOutcome::Consumed),
        (TransferEvidenceResult::FailClosed, TransferTerminalOutcome::FailClosed),
        (TransferEvidenceResult::NotTransferAction, TransferTerminalOutcome::FailClosed),
    ] {
        assert_eq!(TransferEvidence::apply(&mut registry, Ok(result)).told.unwrap(), told);
    }
}

#[test]
fn cancellation_evidence_that_cannot_be_is_a_fault() {
    let mut registry = registry();
    let ack = |registry: &mut AttemptReservationRegistry, result| {
        TransferEvidence::apply_cancel_ack(registry, Ok(result)).told
    };
    let report = |registry: &mut AttemptReservationRegistry, result| {
        TransferEvidence::apply_status_report_cancelled(registry, Ok(result)).told
    };
    assert_eq!(
        ack(&mut registry, TransferEvidenceResult::Conflict).unwrap_err().message(),
        "transfer CancelAck evidence produced an unexpected Conflict"
    );
    assert_eq!(
        ack(&mut registry, TransferEvidenceResult::FailClosed).unwrap_err().message(),
        "transfer CancelAck evidence produced an unexpected FailClosed"
    );
    assert_eq!(
        report(&mut registry, TransferEvidenceResult::Conflict).unwrap_err().message(),
        "transfer StatusReport cancellation produced an unexpected Conflict"
    );
    assert_eq!(
        report(&mut registry, TransferEvidenceResult::FailClosed).unwrap_err().message(),
        "transfer StatusReport cancellation produced an unexpected FailClosed"
    );
    assert!(matches!(
        ack(&mut registry, TransferEvidenceResult::NotTransferAction),
        Ok(TransferCancelAckOutcome::NotTransferAction)
    ));
    assert!(matches!(
        report(&mut registry, TransferEvidenceResult::NoOp),
        Ok(TransferStatusReportOutcome::Consumed)
    ));
    let end = TransferEvidenceResult::Applied(applied(AttemptState::Cancelled, true));
    let settled = TransferEvidence::apply_cancel_ack(&mut registry, Ok(end));
    assert_eq!(settled.release, Some(ReservationId(1)));
}

fn operator() -> Actor {
    Actor::Operator { label: "op-1".to_string() }
}

fn cancellation_facts() -> CancellationFacts {
    CancellationFacts {
        job: job(JobState::Running),
        active_attempt: Some(attempt(AttemptState::InProgress)),
    }
}

#[test]
fn a_cancellation_request_is_audited_where_it_changes_the_job() {
    let decided = decide_request(
        &cancellation_facts(),
        operator(),
        NOW,
        |_: &CancellationFacts, _| {
            Ok(CancellationRequestOutcome::EnteredCancelling {
                job: job(JobState::Cancelling),
                attempt_id: ATTEMPT,
                action_id: ActionId(ACTION),
            })
        },
    );
    match decided {
        Ok(CancellationRequestDecided::EnteredCancelling { audit, attempt_id, .. }) => {
            assert_eq!(attempt_id, ATTEMPT);
            assert_eq!(
                audit.detail,
                "operator cancellation requested for job JobId(00000000-0000-0000-0000-000000000001); \
                 attempt AttemptId(00000000-0000-0000-0000-00000000000a) \
                 action ActionId(6f9619ff-8b86-4d01-b42d-00cf4fc964ff) remains active"
            );
            assert!(matches!(audit.actor, Actor::Operator { label } if label == "op-1"));
        }
        other => panic!("expected a cancelling job, got {:?}", other),
    }
    let event = DomainEvent {
        event_id: 1,
        endpoint_id: ENDPOINT,
        job_id: Some(JobId(0x1)),
        job_step_id: None,
        occurred_at: NOW,
        body: DomainEventBody::JobCancelled,
    };
    let decided = decide_request(
        &CancellationFacts { job: job(JobState::Pending), active_attempt: None },
        operator(),
        NOW,
        move |_: &CancellationFacts, _| {
            Ok(CancellationRequestOutcome::CompletedImmediately {
                job: job(JobState::Cancelled),
                event,
            })
        },
    );
    match decided {
        Ok(CancellationRequestDecided::CompletedImmediately { audit, .. }) => {
            assert_eq!(
                audit.detail,
                "operator cancellation completed immediately for job \
                 JobId(00000000-0000-0000-0000-000000000001) (no active attempt)"
            );
            assert_eq!(audit.attempt_id, None);
        }
        other => panic!("expected a cancelled job, got {:?}", other),
    }
    assert!(matches!(
        decide_request(&cancellation_facts(), operator(), NOW, |_: &CancellationFacts, _| Ok(
            CancellationRequestOutcome::AlreadyCancelling
        )),
        Ok(CancellationRequestDecided::AlreadyCancelling)
    ));
    assert!(matches!(
        decide_request(&cancellation_facts(), operator(), NOW, |_: &CancellationFacts, _| Ok(
            CancellationRequestOutcome::AlreadyTerminal
        )),
        Ok(CancellationRequestDecided::AlreadyTerminal)
    ));
    assert!(matches!(
        decide_request(&cancellation_facts(), operator(), NOW, |_: &CancellationFacts, _| Err(
            CancellationRequestError::NotEligible
        )),
        Err(CancellationRequestError::NotEligible)
    ));
}

#[test]
fn the_agent_is_told_only_when_the_job_enters_cancelling() {
    let entered = Ok(RequestCancellationResult::EnteredCancelling {
        attempt_id: ATTEMPT,
        action_id: ActionId(ACTION),
        endpoint_id: ENDPOINT,
    });
    assert!(matches!(
        Cancellation::request(entered),
        CancellationStep::SendCancel { endpoint_id: ENDPOINT, action_id: ProtocolId(ACTION) }
    ));
    assert!(matches!(
        Cancellation::request(Ok(RequestCancellationResult::CompletedImmediately)),
        CancellationStep::Done(Ok(CancellationRequestResult::CompletedImmediately))
    ));
    assert!(matches!(
        Cancellation::request(Ok(RequestCancellationResult::AlreadyCancelling)),
        CancellationStep::Done(Ok(CancellationRequestResult::AlreadyCancelling))
    ));
    assert!(matches!(
        Cancellation::request(Ok(RequestCancellationResult::AlreadyTerminal)),
        CancellationStep::Done(Ok(CancellationRequestResult::AlreadyTerminal))
    ));
    assert!(matches!(
        Cancellation::request(Err(RequestCancellationError::NotEligible(JobId(1)))),
        CancellationStep::Done(Err(ApplicationError::JobNotEligibleForCancellation(JobId(1))))
    ));
    assert_eq!(
        Cancellation::request_sent(Err(AgentDispatchError::NoSession)),
        CancellationRequestResult::EnteredCancelling {
            send: CancelActionSendOutcome::SendFailed(AgentDispatchError::NoSession)
        }
    );
    assert_eq!(
        Cancellation::request_sent(Ok(())),
        CancellationRequestResult::EnteredCancelling { send: CancelActionSendOutcome::Sent }
    );
}

#[test]
fn only_the_lost_sessions_own_attempt_becomes_uncertain() {
    let active = attempt(AttemptState::InProgress);
    let uncertain = |attempt: &Attempt| {
        Some(Attempt { state: AttemptState::AwaitingReconciliation, ..*attempt })
    };
    assert_eq!(
        decide_mark_uncertain(&active, ActionId(ACTION), uncertain).map(|attempt| attempt.state),
        Some(AttemptState::AwaitingReconciliation)
    );
    assert_eq!(decide_mark_uncertain(&active, ActionId(3), uncertain), None);
}

#[test]
fn closing_an_uncertain_attempt_is_audited_and_ends_it() {
    let decision = decide_close_indeterminate(
        &facts(),
        operator(),
        NOW,
        |_: &EvidenceFacts, _| {
            CloseIndeterminateOutcome::Applied(applied(AttemptState::Indeterminate, true))
        },
    );
    match decision {
        CloseIndeterminateDecision::Applied { audit, .. } => assert_eq!(
            audit.detail,
            "operator closed attempt AttemptId(00000000-0000-0000-0000-00000000000a) \
             action ActionId(6f9619ff-8b86-4d01-b42d-00cf4fc964ff) Indeterminate for job_step \
             JobStepId(00000000-0000-0000-0000-000000000005) \
             (job JobId(00000000-0000-0000-0000-000000000001)): \
             authoritative execution outcome could not be established"
        ),
        other => panic!("expected a closed attempt, got {:?}", other),
    }
    assert!(matches!(
        decide_close_indeterminate(&facts(), operator(), NOW, |_: &EvidenceFacts, _| {
            CloseIndeterminateOutcome::NotEligible
        }),
        CloseIndeterminateDecision::NotEligible
    ));
    let mut registry = registry();
    let closed = Reconciliation::close_indeterminate(
        &mut registry,
        Ok(CloseIndeterminateResult::Applied(applied(AttemptState::Indeterminate, true))),
    );
    assert_eq!(closed.release, Some(ReservationId(1)));
    let again = Reconciliation::close_indeterminate(
        &mut registry,
        Ok(CloseIndeterminateResult::AlreadyIndeterminate),
    );
    assert_eq!(again.release, None);
    let refused = Reconciliation::close_indeterminate(
        &mut registry,
        Err(CloseIndeterminateError::NoUncertainAttempt(JobId(1))),
    );
    assert_eq!(
        refused.told.unwrap_err().message(),
        "job JobId(00000000-0000-0000-0000-000000000001) has no attempt currently awaiting reconciliation"
    );
}

#[test]
fn a_session_start_asks_about_the_uncertain_action() {
    assert!(matches!(
        Reconciliation::reconcile_on_session_start(ENDPOINT, Ok(Some(ActionId(ACTION)))),
        SessionStartStep::SendStatusQuery { endpoint_id: ENDPOINT, action_id: ProtocolId(ACTION) }
    ));
    assert!(matches!(
        Reconciliation::reconcile_on_session_start(ENDPOINT, Ok(None)),
        SessionStartStep::Done(Ok(StatusQuerySendOutcome::NoneNeeded))
    ));
    assert_eq!(Reconciliation::status_query_sent(Ok(())), StatusQuerySendOutcome::Sent);
    assert_eq!(
        Reconciliation::status_query_sent(Err(AgentDispatchError::SendFailed)),
        StatusQuerySendOutcome::SendFailed(AgentDispatchError::SendFailed)
    );
    assert!(matches!(Reconciliation::mark_endpoint_uncertain(Ok(Some(ATTEMPT))), Ok(Some(ATTEMPT))));
    assert_eq!(Reconciliation::reconcile_on_startup(Ok(vec![ATTEMPT])).unwrap(), vec![ATTEMPT]);
}

fn detail(members: &[(&str, &str)]) -> serde_json::Map<String, serde_json::Value> {
    let mut object = serde_json::Map::new();
    for (key, value) in members {
        object.insert(key.to_string(), serde_json::Value::String(value.to_string()));
    }
    object
}

#[test]
fn simulated_results_are_known_by_their_code() {
    let completion = detail(&[("code", "SIMULATED_COMPLETION"), ("extra", "1")]);
    let failure = detail(&[("code", "SIMULATED_FAILURE")]);
    assert!(m1_result_detail_matches(ActionResultOutcome::Succeeded, &completion));
    assert!(m1_result_detail_matches(ActionResultOutcome::Failed, &failure));
    assert!(!m1_result_detail_matches(ActionResultOutcome::Succeeded, &failure));
    assert!(!m1_result_detail_matches(ActionResultOutcome::Failed, &completion));
    assert!(!m1_result_detail_matches(ActionResultOutcome::Cancelled, &completion));
    assert!(!m1_result_detail_matches(ActionResultOutcome::Succeeded, &detail(&[])));
    let mut numeric = detail(&[]);
    numeric.insert("code".to_string(), serde_json::Value::Number(1.into()));
    assert!(!m1_result_detail_matches(ActionResultOutcome::Succeeded, &numeric));
}

#[test]
fn each_fault_of_a_transfer_result_has_its_error() {
    let id = "6f9619ff-8b86-4d01-b42d-00cf4fc964ff";
    let read = |outcome, members: &[(&str, &str)]| {
        parse_transfer_result_detail(outcome, &detail(members))
    };
    assert_eq!(
        read(ActionResultOutcome::Succeeded, &[("code", "TRANSFER_VERIFIED"), ("artifact_id", id)]),
        Ok(TransferResultDetail { code: TransferResultCode::TransferVerified, artifact_id: ACTION })
    );
    for (text, code) in [
        ("ARTIFACT_VERIFICATION_FAILED", TransferResultCode::ArtifactVerificationFailed),
        ("CHUNK_VERIFICATION_FAILED", TransferResultCode::ChunkVerificationFailed),
        ("TRANSFER_ABANDONED", TransferResultCode::TransferAbandoned),
    ] {
        assert_eq!(
            read(ActionResultOutcome::Failed, &[("code", text), ("artifact_id", id)]),
            Ok(TransferResultDetail { code, artifact_id: ACTION })
        );
        assert_eq!(
            read(ActionResultOutcome::Succeeded, &[("code", text), ("artifact_id", id)]),
            Err(TransferResultDetailError::OutcomeCodeMismatch)
        );
    }
    assert_eq!(
        read(ActionResultOutcome::Failed, &[("artifact_id", id)]),
        Err(TransferResultDetailError::MissingCode)
    );
    assert_eq!(
        read(ActionResultOutcome::Failed, &[("code", "transfer_abandoned"), ("artifact_id", id)]),
        Err(TransferResultDetailError::UnknownCode)
    );
    assert_eq!(
        read(ActionResultOutcome::Cancelled, &[("code", "TRANSFER_ABANDONED")]),
        Err(TransferResultDetailError::OutcomeCodeMismatch)
    );
    assert_eq!(
        read(ActionResultOutcome::Failed, &[("code", "TRANSFER_ABANDONED")]),
        Err(TransferResultDetailError::MissingArtifactId)
    );
    assert_eq!(
        read(
            ActionResultOutcome::Failed,
            &[("code", "TRANSFER_ABANDONED"), ("artifact_id", "6F9619FF-8B86-4D01-B42D-00CF4FC964FF")]
        ),
        Err(TransferResultDetailError::MalformedArtifactId)
    );
    assert_eq!(
        TransferResultDetailError::MalformedArtifactId.message(),
        "detail.artifact_id is not a canonical lowercase-hyphenated UUID"
    );
}
