use bamep_server::clock::Timestamp;
use bamep_server::errors::{
    AdmitJobError, ApplicationError, AuthorizeDestructiveIntentError, CreateWorkflowError,
    DomainFault, EndpointUpdateError, RepositoryError, SatisfyStepPreconditionsError,
};
use bamep_server::ids::{EndpointId, InventoryRevisionId, JobId, JobStepId};
use bamep_server::job_store::{
    authorize_destructive_intent, intent_columns, lock_intent_step, DestructiveIntentError,
    JobAdmissionError, JobStepEligibilityError, JobStepRow,
};
use bamep_server::model::{
    DestructiveIntent, Job, JobState, JobStep, JobStepState, TargetFingerprint,
};
use bamep_server::scheduling::{
    DestructiveIntentService, InventoryService, JobSchedulingService, JobService,
};

type Intents = DestructiveIntentService<(), (), ()>;

const ENDPOINT: EndpointId = EndpointId(1);
const JOB: JobId = JobId(2);
const STEP: JobStepId = JobStepId(3);
const REVISION: InventoryRevisionId = InventoryRevisionId(4);

fn row(state: JobStepState) -> JobStepRow {
    JobStepRow {
        id: STEP.0,
        job_id: JOB.0,
        step_order: 0,
        state,
        authorized_inventory_revision_id: None,
        authorized_target_fingerprint: None,
        failure_reason: None,
    }
}

fn job() -> Job {
    Job {
        id: JOB,
        endpoint_id: ENDPOINT,
        state: JobState::Pending,
        steps: vec![lock_intent_step(JOB, STEP, Some(row(JobStepState::Pending))).unwrap()],
    }
}

fn workflow(
    step: &JobStep,
    job_id: JobId,
    revision: InventoryRevisionId,
    target: TargetFingerprint,
) -> Result<DestructiveIntent, DestructiveIntentError> {
    if step.job_id != job_id {
        Err(DestructiveIntentError::WrongJob)
    } else if step.state != JobStepState::Pending {
        Err(DestructiveIntentError::NotEligible)
    } else if step.destructive_intent.is_some() {
        Err(DestructiveIntentError::AlreadyAuthorized)
    } else {
        Ok(DestructiveIntent {
            authorized_inventory_revision_id: revision,
            authorized_target_fingerprint: target,
        })
    }
}

fn authorized(found: JobStepRow) -> Result<DestructiveIntent, ApplicationError> {
    let evidence = Intents::authorize(JOB, STEP, Ok(Some(job())))?
        .with_inventory(Ok(Some(REVISION)))?
        .with_target(Some(TargetFingerprint::new("disk-a")))?;
    let step = match lock_intent_step(JOB, STEP, Some(found)) {
        Ok(step) => step,
        Err(error) => return Intents::authorized(Err(error)),
    };
    let decided = evidence.decide(&step, workflow);
    Intents::authorized(authorize_destructive_intent(JOB, STEP, decided))
}

#[test]
fn captures_current_inventory_revision_and_target_fingerprint() {
    let intent = authorized(row(JobStepState::Pending)).unwrap();
    assert_eq!(intent.authorized_inventory_revision_id, REVISION);
    assert_eq!(intent.authorized_target_fingerprint.value, "disk-a");
}

#[test]
fn missing_current_inventory_blocks_authorization_without_persisting() {
    let request = Intents::authorize(JOB, STEP, Ok(Some(job()))).unwrap();
    let err = request.with_inventory(Ok(None)).unwrap_err();
    assert!(matches!(err, ApplicationError::NoCurrentInventory(id) if id == ENDPOINT));
    assert_eq!(
        err.message(),
        "endpoint EndpointId(00000000-0000-0000-0000-000000000001) has no current durable inventory revision"
    );
}

#[test]
fn missing_current_target_blocks_authorization_without_persisting() {
    let request = Intents::authorize(JOB, STEP, Ok(Some(job()))).unwrap();
    let err = request.with_inventory(Ok(Some(REVISION))).unwrap().with_target(None).unwrap_err();
    assert!(matches!(err, ApplicationError::NoCurrentTarget(id) if id == ENDPOINT));
}

#[test]
fn wrong_job_step_correlation_is_rejected() {
    let unrelated = JobStepId(99);
    let err = Intents::authorize(JOB, unrelated, Ok(Some(job()))).unwrap_err();
    assert!(matches!(
        err,
        ApplicationError::JobStepNotFound(step_id, job_id) if step_id == unrelated && job_id == JOB
    ));
    let foreign = JobStepRow { job_id: 77, ..row(JobStepState::Pending) };
    assert!(matches!(
        authorized(foreign),
        Err(ApplicationError::JobStepNotFound(STEP, JOB))
    ));
    assert!(matches!(
        lock_intent_step(JOB, STEP, None),
        Err(AuthorizeDestructiveIntentError::JobStepNotFound(STEP, JOB))
    ));
}

#[test]
fn ineligible_non_pending_step_is_rejected() {
    let err = authorized(row(JobStepState::PreconditionsSatisfied)).unwrap_err();
    assert!(matches!(err, ApplicationError::JobStepNotEligible(id) if id == STEP));
}

#[test]
fn an_already_authorized_step_cannot_be_silently_reauthorized() {
    let already = JobStepRow {
        authorized_inventory_revision_id: Some(8),
        authorized_target_fingerprint: Some("disk-z".to_string()),
        ..row(JobStepState::Pending)
    };
    let err = authorized(already).unwrap_err();
    assert!(matches!(err, ApplicationError::JobStepAlreadyAuthorized(id) if id == STEP));
}

#[test]
fn a_second_authorization_leaves_the_first_stored() {
    let first = authorized(row(JobStepState::Pending)).unwrap();
    let written = intent_columns(&first);
    assert_eq!(written.authorized_inventory_revision_id, REVISION.0);
    assert_eq!(written.authorized_target_fingerprint, "disk-a");
    let stored = || JobStepRow {
        authorized_inventory_revision_id: Some(written.authorized_inventory_revision_id),
        authorized_target_fingerprint: Some(written.authorized_target_fingerprint.clone()),
        ..row(JobStepState::Pending)
    };
    let err = authorized(stored()).unwrap_err();
    assert!(matches!(err, ApplicationError::JobStepAlreadyAuthorized(id) if id == STEP));
    let read = lock_intent_step(JOB, STEP, Some(stored())).unwrap().destructive_intent.unwrap();
    assert_eq!(read.authorized_inventory_revision_id, REVISION);
    assert_eq!(read.authorized_target_fingerprint.value, "disk-a");
}

#[test]
fn persistence_failure_leaves_no_half_intent() {
    let fault = RepositoryError::Backend("simulated persistence failure".to_string());
    let told = Intents::authorized(Err(AuthorizeDestructiveIntentError::Repository(fault)));
    assert!(matches!(told, Err(ApplicationError::Repository(_))));
}

#[test]
fn a_half_stored_intent_is_a_fault() {
    let half = JobStepRow {
        authorized_inventory_revision_id: Some(8),
        ..row(JobStepState::Pending)
    };
    match authorized(half) {
        Err(ApplicationError::Repository(fault)) => assert_eq!(
            ApplicationError::Repository(fault).message(),
            "persisted job_steps destructive intent is partially populated"
        ),
        other => panic!("expected a fault, got {:?}", other),
    }
}

#[test]
fn a_job_that_is_not_there_cannot_be_authorized() {
    assert!(matches!(
        Intents::authorize(JOB, STEP, Ok(None)),
        Err(ApplicationError::JobNotFound(JOB))
    ));
    let fault = RepositoryError::Backend("down".to_string());
    assert!(matches!(
        Intents::authorize(JOB, STEP, Err(fault)),
        Err(ApplicationError::Repository(_))
    ));
    let request = Intents::authorize(JOB, STEP, Ok(Some(job()))).unwrap();
    assert!(matches!(
        request.with_inventory(Err(EndpointUpdateError::NotFound(ENDPOINT))),
        Err(ApplicationError::EndpointNotFound(ENDPOINT))
    ));
}

#[test]
fn workflows_are_told_as_they_were_stored() {
    let fault = DomainFault { message: "a workflow needs a step".to_string() };
    assert!(matches!(
        JobService::<()>::create_workflow(Err(fault)),
        Err(ApplicationError::EmptyWorkflow(_))
    ));
    assert_eq!(JobService::<()>::create_workflow(Ok(job())).unwrap().id, JOB);
    let constructed = JobService::<()>::construct_workflow(ENDPOINT, 3, |endpoint_id, steps| {
        assert_eq!((endpoint_id, steps), (ENDPOINT, 3));
        Ok(job())
    });
    assert_eq!(constructed.unwrap().id, JOB);
    assert!(matches!(
        JobService::<()>::construct_workflow(ENDPOINT, 0, |_, steps| {
            Err(DomainFault { message: format!("{} steps", steps) })
        }),
        Err(ApplicationError::EmptyWorkflow(fault)) if fault.message == "0 steps"
    ));
    assert!(JobService::<()>::workflow_persisted(job(), Ok(())).is_ok());
    assert!(matches!(
        JobService::<()>::workflow_persisted(
            job(),
            Err(CreateWorkflowError::EndpointNotEnrolled(ENDPOINT))
        ),
        Err(ApplicationError::EndpointNotEnrolled(ENDPOINT))
    ));
}

#[test]
fn scheduling_tells_each_refusal_apart() {
    type Scheduling = JobSchedulingService<(), ()>;
    assert!(matches!(
        Scheduling::admit_job(Err(AdmitJobError::NotEligible(JOB))),
        Err(ApplicationError::JobNotEligibleForAdmission(JOB))
    ));
    assert!(matches!(
        Scheduling::admit_job(Err(AdmitJobError::EndpointNotAvailable)),
        Err(ApplicationError::EndpointNotAvailable)
    ));
    assert!(matches!(
        Scheduling::satisfy_current_step_preconditions(Err(
            SatisfyStepPreconditionsError::NotCurrent(STEP)
        )),
        Err(ApplicationError::JobStepNotCurrent(STEP))
    ));
    assert!(matches!(
        Scheduling::satisfy_current_step_preconditions(Err(
            SatisfyStepPreconditionsError::JobNotRunning(JOB)
        )),
        Err(ApplicationError::JobNotRunning(JOB))
    ));
    assert!(matches!(InventoryService::<(), ()>::record::<u8>(Ok(None)), Ok(None)));
}

#[test]
fn scheduling_is_ruled_on_by_the_locked_job() {
    type Scheduling = JobSchedulingService<(), ()>;
    let now = Timestamp { seconds: 1_700_000_000, nanos: 0 };
    let admitted = Scheduling::decide_admission(&job(), now, |found: &Job, at| {
        assert_eq!((found.id, at), (JOB, now));
        Err(JobAdmissionError::NotPending)
    });
    assert!(matches!(admitted, Err(JobAdmissionError::NotPending)));
    let satisfied = Scheduling::decide_preconditions(&job(), STEP, |found: &Job, step_id| {
        assert_eq!((found.id, step_id), (JOB, STEP));
        Ok(lock_intent_step(JOB, STEP, Some(row(JobStepState::PreconditionsSatisfied))).unwrap())
    });
    assert_eq!(satisfied.unwrap().state, JobStepState::PreconditionsSatisfied);
    let refused = Scheduling::decide_preconditions(&job(), STEP, |_: &Job, _| {
        Err(JobStepEligibilityError::JobNotRunning)
    });
    assert!(matches!(refused, Err(JobStepEligibilityError::JobNotRunning)));
}
