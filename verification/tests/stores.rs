use bamep_server::cancellation::{
    CancellationRequestDecided, CancellationRequestError, RequestCancellationResult,
};
use bamep_server::clock::Timestamp;
use bamep_server::dispatch::CommitDestructiveDispatchError;
use bamep_server::endpoint_rows::{
    credential_columns, endpoint_columns, load_boot_context, lookup_id_from_bytes,
    persist_lookup_projection, persist_transition, row_to_aggregate, row_to_current_boot,
    verifier_from_bytes, BootColumns, BootContextRow, CredentialSlotRole, EndpointRow,
    TransitionOutcome,
};
use bamep_server::errors::{
    AdmitJobError, ApplicationError, ApplyActionEvidenceError, CreateWorkflowError,
    EndpointUpdateError, RepositoryError, RequestCancellationError, SatisfyStepPreconditionsError,
};
use bamep_server::event_rows::{
    actor_label, event_payload, event_rows, event_type, AuditActorKind, DomainEventType,
};
use bamep_server::evidence::{EvidenceApplied, EvidenceCommit, EvidenceDecision, EvidenceResult};
use bamep_server::ids::{
    ActionId, AttemptId, EndpointId, InventoryRevisionId, JobId, JobStepId,
};
use bamep_server::inventory_store::{
    find_current_inventory, record_inventory, row_to_revision, InventoryChange, InventoryRevision,
    InventoryRow,
};
use bamep_server::job_store::{
    admit_job, apply_action_evidence, create_workflow, decide_admission, fetch_job_steps,
    find_job, lock_admission, lock_preconditions, request_cancellation,
    satisfy_current_step_preconditions, AfterJobLock, AfterRescan, AfterScan, AttemptRow,
    CancellationScan, CancellationTransaction, DispatchJob, EvidenceTransaction, GuardedUpdate,
    JobAdmissionError, JobAdmissionOutcome, JobRow, JobStepEligibilityError, JobStepRow,
    LockedAttempt, MAX_PASSES,
};
use bamep_server::model::{
    Actor, Attempt, AttemptState, AuditRecord, CredentialChain, CredentialSlot, CurrentBoot,
    DomainEvent, DomainEventBody, EndpointAggregate, HardwareConfidence, IdentityState, Job,
    JobState, JobStep, JobStepFailureReason, JobStepState, TrustedBootstrapState,
};

const NOW: Timestamp = Timestamp { seconds: 1_700_000_000, nanos: 0 };
const LATER: Timestamp = Timestamp { seconds: 1_700_000_600, nanos: 5 };
const ENDPOINT: EndpointId = EndpointId(0xe);
const JOB: JobId = JobId(0x1);
const STEP: JobStepId = JobStepId(0x5);

fn told(error: RepositoryError) -> String {
    ApplicationError::Repository(error).message()
}

fn slot(seed: u8) -> CredentialSlot {
    CredentialSlot {
        lookup_id: vec![seed; 16],
        hash: vec![seed; 48],
        issued_at: NOW,
        expires_at: LATER,
    }
}

fn endpoint(successor: bool, booted: bool) -> EndpointAggregate {
    EndpointAggregate {
        id: ENDPOINT,
        inventory_signal: "sim-1".to_string(),
        identity: IdentityState::Enrolled,
        credential: CredentialChain {
            predecessor: slot(1),
            successor: if successor { Some(slot(2)) } else { None },
            revoked: true,
        },
        hardware_confidence: HardwareConfidence::LoweredConfidence,
        current_boot: if booted {
            Some(CurrentBoot {
                boot_context_id: vec![3; 16],
                boot_nonce: vec![4; 32],
                trusted_bootstrap: TrustedBootstrapState::Established,
            })
        } else {
            None
        },
        created_at: NOW,
        updated_at: LATER,
    }
}

fn stored(endpoint: &EndpointAggregate) -> EndpointRow {
    let columns = endpoint_columns(endpoint);
    let credentials = credential_columns(endpoint);
    let mut predecessor_lookup_id = None;
    let mut successor_lookup_id = None;
    for row in persist_lookup_projection(endpoint.id, &endpoint.credential) {
        assert_eq!(row.endpoint_id, endpoint.id.0);
        match row.slot {
            CredentialSlotRole::Predecessor => predecessor_lookup_id = Some(row.lookup_id),
            CredentialSlotRole::Successor => successor_lookup_id = Some(row.lookup_id),
        }
    }
    let null = || RepositoryError::Backend("unexpected null".to_string());
    EndpointRow {
        id: columns.id,
        inventory_signal: columns.inventory_signal,
        identity_state: columns.identity_state,
        hardware_confidence: columns.hardware_confidence,
        created_at: columns.created_at,
        updated_at: columns.updated_at,
        current_boot: columns.current_boot,
        predecessor_verifier: credentials.predecessor_verifier,
        predecessor_issued_at: credentials.predecessor_issued_at,
        predecessor_expires_at: credentials.predecessor_expires_at,
        predecessor_lookup_id,
        successor_verifier: credentials.successor_verifier,
        successor_lookup_id,
        successor_issued_at: credentials.successor_issued_at.ok_or_else(null),
        successor_expires_at: credentials.successor_expires_at.ok_or_else(null),
        revoked: credentials.revoked,
    }
}

#[test]
fn an_endpoint_survives_storage() {
    for (successor, booted) in [(false, false), (true, false), (false, true), (true, true)] {
        let written = endpoint(successor, booted);
        let read = row_to_aggregate(stored(&written)).unwrap();
        assert_eq!(format!("{:?}", read), format!("{:?}", written));
    }
}

fn read_error(row: EndpointRow) -> String {
    told(row_to_aggregate(row).unwrap_err())
}

#[test]
fn rows_that_do_not_add_up_to_an_endpoint_are_faults() {
    let row = || stored(&endpoint(true, true));
    assert_eq!(
        read_error(EndpointRow { predecessor_lookup_id: None, ..row() }),
        "persisted predecessor credential is missing its lookup mapping"
    );
    assert_eq!(
        read_error(EndpointRow { successor_lookup_id: None, ..row() }),
        "persisted successor verifier and lookup mapping disagree on presence"
    );
    assert_eq!(
        read_error(EndpointRow { predecessor_verifier: vec![0; 47], ..row() }),
        "credential verifier has unexpected length 47 (expected 48)"
    );
    assert_eq!(
        read_error(EndpointRow { successor_lookup_id: Some(vec![0; 3]), ..row() }),
        "credential lookup id has unexpected length 3 (expected 16)"
    );
    assert_eq!(
        read_error(EndpointRow {
            successor_issued_at: Err(RepositoryError::Backend("unexpected null".to_string())),
            ..row()
        }),
        "unexpected null"
    );
    let partial = BootColumns {
        context_id: Some(vec![3; 16]),
        nonce: None,
        trusted_bootstrap: Some(TrustedBootstrapState::Established),
    };
    assert_eq!(
        read_error(EndpointRow { current_boot: partial, ..row() }),
        "persisted endpoint current-boot projection is partially populated"
    );
    let short = BootColumns {
        context_id: Some(vec![3; 16]),
        nonce: Some(vec![4; 31]),
        trusted_bootstrap: Some(TrustedBootstrapState::NotEstablished),
    };
    assert_eq!(
        told(row_to_current_boot(short).unwrap_err()),
        "current_boot_nonce has unexpected length 31 (expected 32)"
    );
    assert_eq!(verifier_from_bytes(vec![1; 48]).unwrap(), vec![1; 48]);
    assert_eq!(lookup_id_from_bytes(vec![1; 16]).unwrap(), vec![1; 16]);
}

fn context_row(boot_nonce: Option<Vec<u8>>) -> BootContextRow {
    BootContextRow {
        boot_context_id: vec![3; 16],
        verifier: vec![5; 48],
        issued_at: NOW,
        expires_at: LATER,
        inventory_signal: "sim-1".to_string(),
        resolved_endpoint_id: Some(0xe),
        boot_nonce,
    }
}

#[test]
fn a_boot_context_without_a_nonce_of_its_own_is_not_redeemed() {
    assert!(load_boot_context(None).unwrap().is_none());
    let context = load_boot_context(Some(context_row(Some(vec![4; 32])))).unwrap().unwrap();
    assert_eq!(context.boot_nonce, vec![4; 32]);
    assert_eq!(context.resolved_endpoint_id, Some(ENDPOINT));
    assert_eq!(context.expires_at, LATER);
    assert_eq!(
        told(load_boot_context(Some(context_row(None))).unwrap_err()),
        "boot context has no boot_nonce (a historical, pre-trusted-bootstrap row); \
         it cannot be redeemed through the current credential-redemption flow"
    );
    assert_eq!(
        told(load_boot_context(Some(context_row(Some(vec![4; 8])))).unwrap_err()),
        "boot context boot_nonce has unexpected length 8 (expected 32)"
    );
}

fn event(body: DomainEventBody) -> DomainEvent {
    DomainEvent {
        event_id: 0x99,
        endpoint_id: ENDPOINT,
        job_id: Some(JOB),
        job_step_id: Some(STEP),
        occurred_at: NOW,
        body,
    }
}

fn operator() -> Actor {
    Actor::Operator { label: "op-1".to_string() }
}

fn audit(actor: Actor) -> AuditRecord {
    AuditRecord {
        audit_id: 0x77,
        endpoint_id: ENDPOINT,
        actor,
        occurred_at: NOW,
        detail: "something happened".to_string(),
        job_id: Some(JOB),
        job_step_id: Some(STEP),
        attempt_id: Some(AttemptId(0xa)),
        action_id: Some(ActionId(0xac)),
    }
}

#[test]
fn a_change_of_an_endpoint_is_filed_under_no_job() {
    let outcome = TransitionOutcome {
        endpoint: endpoint(false, false),
        events: vec![
            event(DomainEventBody::EndpointEnrolled),
            event(DomainEventBody::OperatorDecisionRecorded {
                decision: "approve".to_string(),
                actor: operator(),
            }),
        ],
        audit: Some(audit(operator())),
    };
    let writes = persist_transition(&outcome);
    assert_eq!(writes.endpoint.id, 0xe);
    assert!(writes.credentials.revoked);
    let kinds: Vec<DomainEventType> = writes.events.iter().map(|row| row.event_type).collect();
    assert_eq!(
        kinds,
        vec![DomainEventType::EndpointEnrolled, DomainEventType::OperatorDecisionRecorded]
    );
    assert!(writes.events.iter().all(|row| row.job_id.is_none() && row.event_version == 1));
    let row = writes.audit.unwrap();
    assert_eq!(row.actor_kind, AuditActorKind::Operator);
    assert_eq!(row.actor_label.as_deref(), Some("op-1"));
    assert_eq!(row.detail, "something happened");
    assert_eq!((row.job_id, row.job_step_id, row.attempt_id, row.action_id), (None, None, None, None));
}

#[test]
fn a_payload_holds_what_no_column_holds() {
    let payload = event_payload(&event(DomainEventBody::OperatorDecisionRecorded {
        decision: "approve".to_string(),
        actor: operator(),
    }));
    assert_eq!(payload.len(), 3);
    assert_eq!(payload["decision"], "approve");
    assert_eq!(payload["actor_kind"], "operator");
    assert_eq!(payload["actor_label"], "op-1");
    let payload = event_payload(&event(DomainEventBody::OperatorDecisionRecorded {
        decision: "approve".to_string(),
        actor: Actor::System,
    }));
    assert_eq!(payload["actor_kind"], "system");
    assert!(payload["actor_label"].is_null());
    let payload = event_payload(&event(DomainEventBody::InventoryRevisionRecorded {
        inventory_revision_id: InventoryRevisionId(0x12),
    }));
    assert_eq!(payload.len(), 1);
    assert_eq!(payload["inventory_revision_id"], "00000000-0000-0000-0000-000000000012");
    assert!(event_payload(&event(DomainEventBody::JobStarted)).is_empty());
    assert_eq!(actor_label(&Actor::System), None);
}

#[test]
fn every_event_has_its_type() {
    for (body, kind) in [
        (
            DomainEventBody::EndpointPendingEnrollment,
            DomainEventType::EndpointPendingEnrollment,
        ),
        (DomainEventBody::JobStarted, DomainEventType::JobStarted),
        (DomainEventBody::JobSucceeded, DomainEventType::JobSucceeded),
        (DomainEventBody::JobFailed, DomainEventType::JobFailed),
        (DomainEventBody::JobStepFailed, DomainEventType::JobStepFailed),
        (DomainEventBody::JobCancelled, DomainEventType::JobCancelled),
        (DomainEventBody::AttemptIndeterminate, DomainEventType::AttemptIndeterminate),
    ] {
        assert_eq!(event_type(&event(body)), kind);
    }
    let rows = event_rows(&vec![event(DomainEventBody::JobFailed)]);
    assert_eq!((rows[0].job_id, rows[0].job_step_id), (Some(0x1), Some(0x5)));
    assert_eq!((rows[0].event_id, rows[0].endpoint_id), (0x99, 0xe));
}

fn step_row(id: u128, order: i32) -> JobStepRow {
    JobStepRow {
        id,
        job_id: JOB.0,
        step_order: order,
        state: JobStepState::Pending,
        authorized_inventory_revision_id: Some(0x12),
        authorized_target_fingerprint: Some("disk-a".to_string()),
        failure_reason: Some(JobStepFailureReason::ExecutionFailed),
    }
}

const JOB_ROW: JobRow = JobRow { endpoint_id: 0xe, state: JobState::Running };

#[test]
fn a_job_is_read_with_its_steps_in_order() {
    assert!(find_job(JOB, None).unwrap().is_none());
    let job = find_job(JOB, Some((JOB_ROW, vec![step_row(5, 0), step_row(6, 1)])))
        .unwrap()
        .unwrap();
    assert_eq!((job.id, job.endpoint_id, job.state), (JOB, ENDPOINT, JobState::Running));
    let steps: Vec<(u128, i32)> = job.steps.iter().map(|step| (step.id.0, step.order)).collect();
    assert_eq!(steps, vec![(5, 0), (6, 1)]);
    let intent = job.steps[0].destructive_intent.as_ref().unwrap();
    assert_eq!(intent.authorized_inventory_revision_id, InventoryRevisionId(0x12));
    assert_eq!(intent.authorized_target_fingerprint.as_str(), "disk-a");
    let half = JobStepRow { authorized_target_fingerprint: None, ..step_row(6, 1) };
    assert_eq!(
        told(fetch_job_steps(vec![step_row(5, 0), half]).unwrap_err()),
        "persisted job_steps destructive intent is partially populated"
    );
}

fn plain_step(state: JobStepState) -> JobStep {
    JobStep {
        id: STEP,
        job_id: JOB,
        order: 0,
        state,
        destructive_intent: None,
        failure_reason: None,
    }
}

fn job(state: JobState) -> Job {
    Job { id: JOB, endpoint_id: ENDPOINT, state, steps: vec![plain_step(JobStepState::Pending)] }
}

#[test]
fn only_an_enrolled_endpoint_gets_a_workflow() {
    let rows = create_workflow(&job(JobState::Pending), Some(IdentityState::Enrolled)).unwrap();
    assert_eq!((rows.id, rows.endpoint_id, rows.state), (0x1, 0xe, JobState::Pending));
    assert_eq!(rows.steps.len(), 1);
    assert_eq!((rows.steps[0].id, rows.steps[0].job_id), (0x5, 0x1));
    assert!(matches!(
        create_workflow(&job(JobState::Pending), None),
        Err(CreateWorkflowError::EndpointNotFound(ENDPOINT))
    ));
    for identity in [IdentityState::PendingEnrollment, IdentityState::Retired] {
        assert!(matches!(
            create_workflow(&job(JobState::Pending), Some(identity)),
            Err(CreateWorkflowError::EndpointNotEnrolled(ENDPOINT))
        ));
    }
}

#[test]
fn a_workflow_survives_storage() {
    let mut written = job(JobState::Pending);
    written.steps.push(JobStep {
        id: JobStepId(0x6),
        order: 1,
        ..plain_step(JobStepState::Pending)
    });
    let rows = create_workflow(&written, Some(IdentityState::Enrolled)).unwrap();
    let steps = || -> Vec<JobStepRow> {
        rows.steps
            .iter()
            .map(|step| JobStepRow {
                id: step.id,
                job_id: step.job_id,
                step_order: step.step_order,
                state: step.state,
                authorized_inventory_revision_id: None,
                authorized_target_fingerprint: None,
                failure_reason: None,
            })
            .collect()
    };
    let row = JobRow { endpoint_id: rows.endpoint_id, state: rows.state };
    let read = find_job(JobId(rows.id), Some((row, steps()))).unwrap().unwrap();
    assert_eq!(format!("{:?}", read), format!("{:?}", written));

    let mut authorized = steps();
    authorized[1].authorized_inventory_revision_id = Some(0x12);
    authorized[1].authorized_target_fingerprint = Some("disk-a".to_string());
    let read = fetch_job_steps(authorized).unwrap();
    let intent = read[1].destructive_intent.as_ref().unwrap();
    assert_eq!(intent.authorized_inventory_revision_id, InventoryRevisionId(0x12));
    assert_eq!(intent.authorized_target_fingerprint.value, "disk-a");
    assert!(read[0].destructive_intent.is_none());
}

#[test]
fn an_admission_is_guarded_by_the_jobs_old_state() {
    assert!(matches!(lock_admission(JOB, None), Err(AdmitJobError::JobNotFound(JOB))));
    assert_eq!(lock_admission(JOB, Some((JOB_ROW, vec![]))).unwrap().id, JOB);
    assert!(matches!(
        decide_admission(JOB, Err(JobAdmissionError::NotPending)),
        Err(AdmitJobError::NotEligible(JOB))
    ));
    let (writes, admitted) = decide_admission(
        JOB,
        Ok(JobAdmissionOutcome {
            job: job(JobState::Running),
            event: event(DomainEventBody::JobStarted),
        }),
    )
    .unwrap();
    assert_eq!(writes.state, JobState::Running);
    assert_eq!((writes.event.job_id, writes.event.job_step_id), (Some(0x1), None));
    assert!(admit_job(JOB, admitted, GuardedUpdate::Changed(1)).is_ok());
    assert!(matches!(
        admit_job(JOB, job(JobState::Running), GuardedUpdate::Changed(0)),
        Err(AdmitJobError::NotEligible(JOB))
    ));
    assert!(matches!(
        admit_job(JOB, job(JobState::Running), GuardedUpdate::UniqueViolation),
        Err(AdmitJobError::EndpointNotAvailable)
    ));
    let fault = RepositoryError::Backend("down".to_string());
    assert!(matches!(
        admit_job(JOB, job(JobState::Running), GuardedUpdate::Failed(fault)),
        Err(AdmitJobError::Repository(_))
    ));
}

#[test]
fn preconditions_are_refused_by_their_reason() {
    assert!(matches!(
        lock_preconditions(JOB, None),
        Err(SatisfyStepPreconditionsError::JobNotFound(JOB))
    ));
    let decide = |decided| satisfy_current_step_preconditions(JOB, STEP, decided);
    assert!(matches!(
        decide(Ok(plain_step(JobStepState::PreconditionsSatisfied))),
        Ok(step) if step.state == JobStepState::PreconditionsSatisfied
    ));
    assert!(matches!(
        decide(Err(JobStepEligibilityError::JobNotRunning)),
        Err(SatisfyStepPreconditionsError::JobNotRunning(JOB))
    ));
    assert!(matches!(
        decide(Err(JobStepEligibilityError::StepNotFound)),
        Err(SatisfyStepPreconditionsError::JobStepNotFound(STEP, JOB))
    ));
    assert!(matches!(
        decide(Err(JobStepEligibilityError::NotCurrent)),
        Err(SatisfyStepPreconditionsError::NotCurrent(STEP))
    ));
}

#[test]
fn a_dispatch_is_decided_on_what_was_locked() {
    assert!(matches!(
        DispatchJob::lock::<u8>(JOB, None),
        Err(CommitDestructiveDispatchError::JobNotFound(JOB))
    ));
    let locked = || DispatchJob::lock::<u8>(JOB, Some((JOB_ROW, vec![step_row(5, 0)]))).unwrap();
    match locked().with_endpoint::<u8>(Ok(None)) {
        Err(CommitDestructiveDispatchError::Repository(error)) => {
            assert_eq!(told(error), "job references an endpoint that no longer exists");
        }
        other => panic!("expected a fault, got {:?}", other),
    }
    let facts =
        locked().with_endpoint::<u8>(Ok(Some(endpoint(false, true)))).unwrap().facts(Some(0x12), true);
    assert_eq!(facts.current_inventory_revision_id, Some(InventoryRevisionId(0x12)));
    assert!(facts.existing_active_attempt);
    assert_eq!(facts.job.steps.len(), 1);
}

fn attempt_row(state: AttemptState) -> AttemptRow {
    AttemptRow { id: 0xa, job_step_id: 0x5, action_id: 0xac, state }
}

fn attempt(state: AttemptState) -> Attempt {
    Attempt { id: AttemptId(0xa), job_step_id: STEP, action_id: ActionId(0xac), state }
}

#[test]
fn evidence_about_a_foreign_action_is_unknown() {
    assert!(matches!(LockedAttempt::lock(None), Err(ApplyActionEvidenceError::UnknownAction)));
    let locked = || LockedAttempt::lock(Some(attempt_row(AttemptState::InProgress))).unwrap();
    match locked().with_step(None) {
        Err(ApplyActionEvidenceError::Repository(error)) => {
            assert_eq!(told(error), "attempt references a job_step that no longer exists");
        }
        other => panic!("expected a fault, got {:?}", other),
    }
    let with_step = || locked().with_step(Some(step_row(5, 0))).unwrap();
    match with_step().with_job(None) {
        Err(ApplyActionEvidenceError::Repository(error)) => {
            assert_eq!(told(error), "job_step references a job that no longer exists");
        }
        other => panic!("expected a fault, got {:?}", other),
    }
    let with_job = || with_step().with_job(Some(JOB_ROW)).unwrap();
    let facts = with_job().facts(vec![step_row(5, 0)], ENDPOINT).unwrap();
    assert_eq!(facts.attempt, attempt(AttemptState::InProgress));
    assert_eq!(facts.job.id, JOB);
    assert!(matches!(
        with_job().facts(vec![step_row(5, 0)], EndpointId(0xbad)),
        Err(ApplyActionEvidenceError::UnknownAction)
    ));
}

#[test]
fn applied_evidence_is_written_whole() {
    assert!(matches!(
        apply_action_evidence(EvidenceDecision::NoOp),
        EvidenceTransaction::Rollback { result: EvidenceResult::NoOp }
    ));
    assert!(matches!(
        apply_action_evidence(EvidenceDecision::Conflict),
        EvidenceTransaction::Rollback { result: EvidenceResult::Conflict }
    ));
    let mut ended = plain_step(JobStepState::Failed);
    ended.failure_reason = Some(JobStepFailureReason::ExecutionFailed);
    let decision = EvidenceDecision::Applied(EvidenceCommit {
        outcome: EvidenceApplied {
            attempt: attempt(AttemptState::Failed),
            job_step: ended,
            job: job(JobState::Failed),
            events: vec![event(DomainEventBody::JobStepFailed), event(DomainEventBody::JobFailed)],
            terminal: true,
        },
        audit: Some(audit(Actor::System)),
    });
    match apply_action_evidence(decision) {
        EvidenceTransaction::Commit { writes, applied } => {
            assert!(applied.terminal);
            assert_eq!(writes.attempt_state, AttemptState::Failed);
            assert_eq!(writes.job_step_state, JobStepState::Failed);
            assert_eq!(writes.failure_reason, Some(JobStepFailureReason::ExecutionFailed));
            assert_eq!(writes.job_state, JobState::Failed);
            assert_eq!(writes.events.len(), 2);
            let row = writes.audit.unwrap();
            assert_eq!((row.job_id, row.attempt_id), (Some(0x1), Some(0xa)));
            assert_eq!(row.actor_kind, AuditActorKind::System);
        }
        other => panic!("expected a commit, got {:?}", other),
    }
}

#[test]
fn a_cancellation_decides_on_the_attempt_that_is_active_under_lock() {
    let locked = |state| {
        let scan = CancellationScan::begin(JOB);
        let candidate = match scan.scanned(&vec![0xa]).unwrap() {
            AfterScan::LockAttempt(candidate) => candidate,
            other => panic!("expected a candidate, got {:?}", other),
        };
        assert_eq!(candidate.attempt_id, AttemptId(0xa));
        let job_lock = candidate.locked(Some(attempt_row(state))).unwrap();
        match job_lock.locked(Some(JOB_ROW)).unwrap() {
            AfterJobLock::Read(read) => read.facts(vec![step_row(5, 0)]).unwrap(),
            other => panic!("expected the job to be read, got {:?}", other),
        }
    };
    assert_eq!(
        locked(AttemptState::AwaitingReconciliation).active_attempt,
        Some(attempt(AttemptState::AwaitingReconciliation))
    );
    assert_eq!(locked(AttemptState::Succeeded).active_attempt, None);
}

#[test]
fn an_attempt_that_shows_up_late_is_looked_for_again() {
    let mut scan = CancellationScan::begin(JOB);
    let mut passes = 0;
    let error = loop {
        passes += 1;
        let job_lock = match scan.scanned(&vec![]).unwrap() {
            AfterScan::LockJob(job_lock) => job_lock,
            other => panic!("expected no candidate, got {:?}", other),
        };
        let rescan = match job_lock.locked(Some(JOB_ROW)).unwrap() {
            AfterJobLock::Rescan(rescan) => rescan,
            other => panic!("expected a second scan, got {:?}", other),
        };
        assert!(matches!(rescan.rescanned(&vec![]), Ok(AfterRescan::Read(_))));
        match rescan.rescanned(&vec![0xa]) {
            Ok(AfterRescan::Again(again)) => scan = again,
            Ok(other) => panic!("expected another pass, got {:?}", other),
            Err(error) => break error,
        }
    };
    assert_eq!(passes, MAX_PASSES as usize - 1);
    match error {
        RequestCancellationError::Repository(error) => assert_eq!(
            told(error),
            "request_cancellation: exceeded retry budget resolving the active Attempt race against final dispatch"
        ),
        other => panic!("expected a fault, got {:?}", other),
    }
}

#[test]
fn a_cancellation_never_picks_one_of_two_attempts() {
    let scan = CancellationScan::begin(JOB);
    match scan.scanned(&vec![1, 2]) {
        Err(RequestCancellationError::Repository(error)) => assert_eq!(
            told(error),
            "invariant violation: more than one simultaneously active/uncertain attempt for job"
        ),
        other => panic!("expected a fault, got {:?}", other),
    }
    match scan.scanned(&vec![1]).unwrap() {
        AfterScan::LockAttempt(candidate) => match candidate.locked(None) {
            Err(RequestCancellationError::Repository(error)) => {
                assert_eq!(told(error), "candidate active attempt disappeared under lock");
            }
            other => panic!("expected a fault, got {:?}", other),
        },
        other => panic!("expected a candidate, got {:?}", other),
    }
    match scan.scanned(&vec![]).unwrap() {
        AfterScan::LockJob(job_lock) => assert!(matches!(
            job_lock.locked(None),
            Err(RequestCancellationError::JobNotFound(JOB))
        )),
        other => panic!("expected no candidate, got {:?}", other),
    }
}

#[test]
fn only_a_cancellation_that_changes_the_job_is_written() {
    assert!(matches!(
        request_cancellation(JOB, Err(CancellationRequestError::NotEligible)),
        CancellationTransaction::Rollback(Err(RequestCancellationError::NotEligible(JOB)))
    ));
    assert!(matches!(
        request_cancellation(JOB, Ok(CancellationRequestDecided::AlreadyCancelling)),
        CancellationTransaction::Rollback(Ok(RequestCancellationResult::AlreadyCancelling))
    ));
    assert!(matches!(
        request_cancellation(JOB, Ok(CancellationRequestDecided::AlreadyTerminal)),
        CancellationTransaction::Rollback(Ok(RequestCancellationResult::AlreadyTerminal))
    ));
    match request_cancellation(
        JOB,
        Ok(CancellationRequestDecided::EnteredCancelling {
            job: job(JobState::Cancelling),
            attempt_id: AttemptId(0xa),
            action_id: ActionId(0xac),
            audit: audit(operator()),
        }),
    ) {
        CancellationTransaction::Commit { job_state, event, result, .. } => {
            assert_eq!(job_state, JobState::Cancelling);
            assert!(event.is_none());
            assert!(matches!(
                result,
                RequestCancellationResult::EnteredCancelling { endpoint_id: ENDPOINT, .. }
            ));
        }
        other => panic!("expected a commit, got {:?}", other),
    }
    match request_cancellation(
        JOB,
        Ok(CancellationRequestDecided::CompletedImmediately {
            job: job(JobState::Cancelled),
            event: event(DomainEventBody::JobCancelled),
            audit: audit(operator()),
        }),
    ) {
        CancellationTransaction::Commit { job_state, event, audit, .. } => {
            assert_eq!(job_state, JobState::Cancelled);
            assert_eq!(event.unwrap().job_step_id, None);
            assert_eq!(audit.actor_label.as_deref(), Some("op-1"));
        }
        other => panic!("expected a commit, got {:?}", other),
    }
}

fn snapshot() -> serde_json::Map<String, serde_json::Value> {
    let mut disks = serde_json::Map::new();
    disks.insert("serial".to_string(), "X1".into());
    let mut object = serde_json::Map::new();
    object.insert("memory".to_string(), 64.into());
    object.insert(
        "disks".to_string(),
        serde_json::Value::Array(vec![serde_json::Value::Object(disks)]),
    );
    object
}

#[test]
fn a_revision_survives_storage() {
    assert!(record_inventory(ENDPOINT, &None).is_none());
    let change = InventoryChange {
        revision: InventoryRevision {
            id: InventoryRevisionId(0x12),
            endpoint_id: ENDPOINT,
            snapshot: snapshot(),
            recorded_at: LATER,
        },
        event: event(DomainEventBody::InventoryRevisionRecorded {
            inventory_revision_id: InventoryRevisionId(0x12),
        }),
    };
    let writes = record_inventory(ENDPOINT, &Some(change)).unwrap();
    assert_eq!((writes.event.endpoint_id, writes.event.job_id), (0xe, None));
    let read = find_current_inventory(ENDPOINT, true, Some(writes.revision)).unwrap().unwrap();
    assert_eq!(read.id, InventoryRevisionId(0x12));
    assert_eq!(read.endpoint_id, ENDPOINT);
    assert_eq!(read.snapshot, snapshot());
    assert_eq!(read.recorded_at, LATER);
}

#[test]
fn an_inventory_is_an_object_of_a_known_endpoint() {
    let row = |inventory| InventoryRow {
        endpoint_id: 0xe,
        revision_id: 0x12,
        inventory,
        recorded_at: NOW,
    };
    for inventory in [
        serde_json::Value::Null,
        serde_json::Value::Array(vec![]),
        serde_json::Value::String("{}".to_string()),
    ] {
        match row_to_revision(row(inventory)) {
            Err(EndpointUpdateError::Repository(error)) => {
                assert_eq!(told(error), "persisted inventory revision is not a JSON object");
            }
            other => panic!("expected a fault, got {:?}", other),
        }
    }
    assert!(matches!(
        find_current_inventory(ENDPOINT, false, None),
        Err(EndpointUpdateError::NotFound(ENDPOINT))
    ));
    assert!(find_current_inventory(ENDPOINT, true, None).unwrap().is_none());
}
