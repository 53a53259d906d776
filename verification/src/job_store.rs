//! Jobs as they are stored: what is read under which lock, what follows from
//! what was found, and what is written when a decision was made.
//!
//! Each operation runs in one transaction. Locks are taken in one order wherever
//! more than one is taken for evidence or a cancellation: the attempt, then its
//! step, then the job. The types here follow that order: each one has the method
//! that leads to the next.

use vstd::prelude::*;
use crate::cancellation::{
    CancellationFacts, CancellationRequestDecided, CancellationRequestError,
    RequestCancellationResult,
};
use crate::dispatch::{
    CommitDestructiveDispatchError, FinalDispatchCommit, FinalDispatchDenial, FinalDispatchFacts,
    FinalDispatchOutcome,
};
use crate::endpoint_rows;
use crate::errors::{
    AdmitJobError, ApplyActionEvidenceError, AuthorizeDestructiveIntentError, CreateWorkflowError,
    RepositoryError, RequestCancellationError, SatisfyStepPreconditionsError,
};
use crate::event_rows::{
    self, audit_row, event_row, event_rows, optional_audit_row, AuditRow, EventRow,
};
use crate::evidence::{
    EvidenceApplied, EvidenceCommit, EvidenceDecision, EvidenceFacts, EvidenceResult,
};
use crate::ids::{ActionId, AttemptId, EndpointId, InventoryRevisionId, JobId, JobStepId};
use crate::model::{
    Attempt, AttemptState, DestructiveIntent, DomainEvent, EndpointAggregate, IdentityState, Job,
    JobState, JobStep, JobStepFailureReason, JobStepState, TargetFingerprint,
};

verus! {

/// A step as it is read.
#[derive(Debug)]
pub struct JobStepRow {
    pub id: u128,
    pub job_id: u128,
    pub step_order: i32,
    pub state: JobStepState,
    pub authorized_inventory_revision_id: Option<u128>,
    pub authorized_target_fingerprint: Option<String>,
    pub failure_reason: Option<JobStepFailureReason>,
}

impl JobStepRow {
    /// The step in this row. Its authorization is stored whole or not at all.
    pub open spec fn job_step(self) -> Result<JobStep, Seq<char>> {
        let step = JobStep {
            id: JobStepId(self.id),
            job_id: JobId(self.job_id),
            order: self.step_order,
            state: self.state,
            destructive_intent: None,
            failure_reason: self.failure_reason,
        };
        match (self.authorized_inventory_revision_id, self.authorized_target_fingerprint) {
            (Some(revision), Some(value)) => Ok(
                JobStep {
                    destructive_intent: Some(
                        DestructiveIntent {
                            authorized_inventory_revision_id: InventoryRevisionId(revision),
                            authorized_target_fingerprint: TargetFingerprint { value },
                        },
                    ),
                    ..step
                },
            ),
            (None, None) => Ok(step),
            _ => Err("persisted job_steps destructive intent is partially populated"@),
        }
    }
}

/// Reads a step.
pub fn row_to_job_step(row: JobStepRow) -> (r: Result<JobStep, RepositoryError>)
    ensures
        endpoint_rows::told(r, row.job_step()),
{
    let destructive_intent = match (
        row.authorized_inventory_revision_id,
        row.authorized_target_fingerprint,
    ) {
        (Some(revision), Some(value)) => Some(
            DestructiveIntent {
                authorized_inventory_revision_id: InventoryRevisionId(revision),
                authorized_target_fingerprint: TargetFingerprint { value },
            },
        ),
        (None, None) => None,
        _ => {
            return Err(
                RepositoryError::backend(
                    "persisted job_steps destructive intent is partially populated",
                ),
            );
        },
    };
    Ok(
        JobStep {
            id: JobStepId(row.id),
            job_id: JobId(row.job_id),
            order: row.step_order,
            state: row.state,
            destructive_intent,
            failure_reason: row.failure_reason,
        },
    )
}

/// `r` is the steps in the rows, in their order, or the failure of a row that
/// could not be read.
pub open spec fn reads_steps(
    rows: Seq<JobStepRow>,
    r: Result<Vec<JobStep>, RepositoryError>,
) -> bool {
    match r {
        Ok(steps) => holds_steps(rows, steps@),
        Err(error) => exists|i: int|
            0 <= i < rows.len() && (#[trigger] rows[i]).job_step() == Err::<JobStep, Seq<char>>(
                error.text(),
            ),
    }
}

/// The steps are those in the rows, in their order.
pub open spec fn holds_steps(rows: Seq<JobStepRow>, steps: Seq<JobStep>) -> bool {
    &&& steps.len() == rows.len()
    &&& forall|i: int|
        0 <= i < rows.len() ==> (#[trigger] rows[i]).job_step() == Ok::<JobStep, Seq<char>>(
            steps[i],
        )
}

/// Reads a job's steps.
pub fn fetch_job_steps(rows: Vec<JobStepRow>) -> (r: Result<Vec<JobStep>, RepositoryError>)
    ensures
        reads_steps(rows@, r),
{
    let ghost all = rows@;
    let mut rest = rows;
    let mut steps: Vec<JobStep> = Vec::new();
    while rest.len() > 0
        invariant
            all == rows@,
            steps@.len() + rest@.len() == all.len(),
            rest@ =~= all.subrange(steps@.len() as int, all.len() as int),
            holds_steps(all.subrange(0, steps@.len() as int), steps@),
        decreases rest@.len(),
    {
        let ghost at = steps@.len() as int;
        let row = rest.remove(0);
        assert(row == all[at]);
        match row_to_job_step(row) {
            Ok(step) => {
                let ghost before = steps@;
                steps.push(step);
                assert(holds_steps(all.subrange(0, at + 1), steps@)) by {
                    assert forall|i: int| 0 <= i < at + 1 implies (#[trigger] all.subrange(
                        0,
                        at + 1,
                    )[i]).job_step() == Ok::<JobStep, Seq<char>>(steps@[i]) by {
                        if i < at {
                            assert(all.subrange(0, at)[i] == all[i]);
                            assert(before[i] == steps@[i]);
                        }
                    }
                }
            },
            Err(error) => {
                assert(all[at].job_step() == Err::<JobStep, Seq<char>>(error.text()));
                return Err(error);
            },
        }
    }
    assert(all.subrange(0, steps@.len() as int) =~= all);
    Ok(steps)
}

/// A job as it is read, its steps aside.
#[derive(Clone, Copy, Debug, PartialEq, Eq, Structural)]
pub struct JobRow {
    pub endpoint_id: u128,
    pub state: JobState,
}

/// `r` is the job in the rows, or the failure of a step that could not be read.
pub open spec fn reads_job(
    id: JobId,
    row: JobRow,
    rows: Seq<JobStepRow>,
    r: Result<Job, RepositoryError>,
) -> bool {
    match r {
        Ok(job) => {
            &&& job.id == id
            &&& job.endpoint_id.0 == row.endpoint_id
            &&& job.state == row.state
            &&& holds_steps(rows, job.steps@)
        },
        Err(error) => exists|i: int|
            0 <= i < rows.len() && (#[trigger] rows[i]).job_step() == Err::<JobStep, Seq<char>>(
                error.text(),
            ),
    }
}

/// Reads a job.
pub fn read_job(id: JobId, row: JobRow, rows: Vec<JobStepRow>) -> (r: Result<Job, RepositoryError>)
    ensures
        reads_job(id, row, rows@, r),
{
    match fetch_job_steps(rows) {
        Ok(steps) => Ok(
            Job { id, endpoint_id: EndpointId(row.endpoint_id), state: row.state, steps },
        ),
        Err(error) => Err(error),
    }
}

/// Reads a job that may not be there.
pub fn find_job(id: JobId, found: Option<(JobRow, Vec<JobStepRow>)>) -> (r: Result<
    Option<Job>,
    RepositoryError,
>)
    ensures
        match found {
            None => r == Ok::<Option<Job>, RepositoryError>(None),
            Some((row, rows)) => match r {
                Ok(job) => job matches Some(job) && reads_job(
                    id,
                    row,
                    rows@,
                    Ok::<Job, RepositoryError>(job),
                ),
                Err(error) => reads_job(id, row, rows@, Err::<Job, RepositoryError>(error)),
            },
        },
{
    match found {
        None => Ok(None),
        Some((row, rows)) => match read_job(id, row, rows) {
            Ok(job) => Ok(Some(job)),
            Err(error) => Err(error),
        },
    }
}

/// A step as it is first written.
#[derive(Clone, Copy, Debug, PartialEq, Eq, Structural)]
pub struct NewStepRow {
    pub id: u128,
    pub job_id: u128,
    pub step_order: i32,
    pub state: JobStepState,
}

/// A job as it is first written: the job's own row, then one for each step.
#[derive(Debug)]
pub struct WorkflowRows {
    pub id: u128,
    pub endpoint_id: u128,
    pub state: JobState,
    pub steps: Vec<NewStepRow>,
}

/// The rows are those of `job`, its steps in their order.
pub open spec fn holds_workflow(rows: WorkflowRows, job: Job) -> bool {
    &&& rows.id == job.id.0
    &&& rows.endpoint_id == job.endpoint_id.0
    &&& rows.state == job.state
    &&& rows.steps@.len() == job.steps@.len()
    &&& forall|i: int|
        0 <= i < rows.steps@.len() ==> (#[trigger] rows.steps@[i]) == (NewStepRow {
            id: job.steps@[i].id.0,
            job_id: job.steps@[i].job_id.0,
            step_order: job.steps@[i].order,
            state: job.steps@[i].state,
        })
}

/// The row is read back from one that was written by [`create_workflow`] and not
/// touched since: the columns that were not written are empty.
pub open spec fn reads_back_step(row: JobStepRow, written: NewStepRow) -> bool {
    &&& row.id == written.id
    &&& row.job_id == written.job_id
    &&& row.step_order == written.step_order
    &&& row.state == written.state
    &&& row.authorized_inventory_revision_id is None
    &&& row.authorized_target_fingerprint is None
    &&& row.failure_reason is None
}

/// A workflow that is written and read back is the workflow that was written: the
/// same job with the same steps in the same order. Its steps are fresh, none of
/// them authorized or failed yet.
pub proof fn workflow_survives_storage(
    job: Job,
    written: WorkflowRows,
    steps: Seq<JobStepRow>,
    read: Result<Job, RepositoryError>,
)
    requires
        forall|i: int|
            0 <= i < job.steps@.len() ==> (#[trigger] job.steps@[i]).destructive_intent is None
                && job.steps@[i].failure_reason is None,
        holds_workflow(written, job),
        steps.len() == written.steps@.len(),
        forall|i: int|
            0 <= i < steps.len() ==> reads_back_step(#[trigger] steps[i], written.steps@[i]),
        reads_job(
            JobId(written.id),
            JobRow { endpoint_id: written.endpoint_id, state: written.state },
            steps,
            read,
        ),
    ensures
        read matches Ok(same) && {
            &&& same.id == job.id
            &&& same.endpoint_id == job.endpoint_id
            &&& same.state == job.state
            &&& same.steps@ == job.steps@
        },
{
    assert forall|i: int| 0 <= i < steps.len() implies (#[trigger] steps[i]).job_step() == Ok::<
        JobStep,
        Seq<char>,
    >(job.steps@[i]) by {
        let step = job.steps@[i];
        assert(reads_back_step(steps[i], written.steps@[i]));
        assert(step.destructive_intent is None && step.failure_reason is None);
    }
    match read {
        Ok(same) => {
            assert forall|i: int| 0 <= i < steps.len() implies same.steps@[i] == job.steps@[i] by {
                assert(steps[i].job_step() == Ok::<JobStep, Seq<char>>(same.steps@[i]));
            }
            assert(same.steps@ =~= job.steps@);
        },
        Err(_) => {},
    }
}

/// Decides, under the endpoint's lock, whether a workflow is written, and lays
/// it out. Only an enrolled endpoint gets one.
pub fn create_workflow(job: &Job, identity: Option<IdentityState>) -> (r: Result<
    WorkflowRows,
    CreateWorkflowError,
>)
    ensures
        match identity {
            None => r == Err::<WorkflowRows, CreateWorkflowError>(
                CreateWorkflowError::EndpointNotFound(job.endpoint_id),
            ),
            Some(IdentityState::Enrolled) => r matches Ok(rows) && holds_workflow(rows, *job),
            Some(_) => r == Err::<WorkflowRows, CreateWorkflowError>(
                CreateWorkflowError::EndpointNotEnrolled(job.endpoint_id),
            ),
        },
{
    match identity {
        None => {
            return Err(CreateWorkflowError::EndpointNotFound(job.endpoint_id));
        },
        Some(IdentityState::Enrolled) => {},
        Some(_) => {
            return Err(CreateWorkflowError::EndpointNotEnrolled(job.endpoint_id));
        },
    }
    let mut steps: Vec<NewStepRow> = Vec::new();
    let mut i: usize = 0;
    while i < job.steps.len()
        invariant
            i <= job.steps@.len(),
            steps@.len() == i,
            forall|j: int|
                0 <= j < i ==> (#[trigger] steps@[j]) == (NewStepRow {
                    id: job.steps@[j].id.0,
                    job_id: job.steps@[j].job_id.0,
                    step_order: job.steps@[j].order,
                    state: job.steps@[j].state,
                }),
        decreases job.steps@.len() - i,
    {
        let step = &job.steps[i];
        steps.push(
            NewStepRow {
                id: step.id.0,
                job_id: step.job_id.0,
                step_order: step.order,
                state: step.state,
            },
        );
        i = i + 1;
    }
    Ok(WorkflowRows { id: job.id.0, endpoint_id: job.endpoint_id.0, state: job.state, steps })
}

/// Why the workflow refuses to authorize a destructive step.
#[derive(Clone, Copy, Debug, PartialEq, Eq, Structural)]
pub enum DestructiveIntentError {
    WrongJob,
    NotEligible,
    AlreadyAuthorized,
}

/// The locked step of an authorization. One that is not there is told apart from
/// one that is.
pub fn lock_intent_step(job_id: JobId, step_id: JobStepId, found: Option<JobStepRow>) -> (r: Result<
    JobStep,
    AuthorizeDestructiveIntentError,
>)
    ensures
        match found {
            None => r == Err::<JobStep, AuthorizeDestructiveIntentError>(
                AuthorizeDestructiveIntentError::JobStepNotFound(step_id, job_id),
            ),
            Some(row) => match row.job_step() {
                Ok(step) => r == Ok::<JobStep, AuthorizeDestructiveIntentError>(step),
                Err(text) => r matches Err(AuthorizeDestructiveIntentError::Repository(error))
                    && error.text() == text,
            },
        },
{
    match found {
        None => Err(AuthorizeDestructiveIntentError::JobStepNotFound(step_id, job_id)),
        Some(row) => match row_to_job_step(row) {
            Ok(step) => Ok(step),
            Err(error) => Err(AuthorizeDestructiveIntentError::Repository(error)),
        },
    }
}

/// What comes of an authorization: it is written and committed, or nothing is.
pub fn authorize_destructive_intent(
    job_id: JobId,
    step_id: JobStepId,
    decided: Result<DestructiveIntent, DestructiveIntentError>,
) -> (r: Result<DestructiveIntent, AuthorizeDestructiveIntentError>)
    ensures
        r == (match decided {
            Ok(intent) => Ok::<DestructiveIntent, AuthorizeDestructiveIntentError>(intent),
            Err(DestructiveIntentError::WrongJob) => Err::<
                DestructiveIntent,
                AuthorizeDestructiveIntentError,
            >(AuthorizeDestructiveIntentError::JobStepNotFound(step_id, job_id)),
            Err(DestructiveIntentError::NotEligible) => Err::<
                DestructiveIntent,
                AuthorizeDestructiveIntentError,
            >(AuthorizeDestructiveIntentError::NotEligible(step_id)),
            Err(DestructiveIntentError::AlreadyAuthorized) => Err::<
                DestructiveIntent,
                AuthorizeDestructiveIntentError,
            >(AuthorizeDestructiveIntentError::AlreadyAuthorized(step_id)),
        }),
{
    match decided {
        Ok(intent) => Ok(intent),
        Err(DestructiveIntentError::WrongJob) => Err(
            AuthorizeDestructiveIntentError::JobStepNotFound(step_id, job_id),
        ),
        Err(DestructiveIntentError::NotEligible) => Err(
            AuthorizeDestructiveIntentError::NotEligible(step_id),
        ),
        Err(DestructiveIntentError::AlreadyAuthorized) => Err(
            AuthorizeDestructiveIntentError::AlreadyAuthorized(step_id),
        ),
    }
}

/// An intent as it is written into the step's row.
#[derive(Debug)]
pub struct IntentColumns {
    pub authorized_inventory_revision_id: u128,
    pub authorized_target_fingerprint: String,
}

/// What an authorized intent writes.
pub fn intent_columns(intent: &DestructiveIntent) -> (r: IntentColumns)
    ensures
        r.authorized_inventory_revision_id == intent.authorized_inventory_revision_id.0,
        r.authorized_target_fingerprint@ == intent.authorized_target_fingerprint.value@,
{
    IntentColumns {
        authorized_inventory_revision_id: intent.authorized_inventory_revision_id.0,
        authorized_target_fingerprint: intent.authorized_target_fingerprint.value.clone(),
    }
}

/// The step's row once the transaction of an authorization has ended: the intent
/// is written where there is one, and nothing is written otherwise.
pub open spec fn row_after_authorization(
    before: JobStepRow,
    authorized: Result<DestructiveIntent, AuthorizeDestructiveIntentError>,
) -> JobStepRow {
    match authorized {
        Ok(intent) => JobStepRow {
            authorized_inventory_revision_id: Some(intent.authorized_inventory_revision_id.0),
            authorized_target_fingerprint: Some(intent.authorized_target_fingerprint.value),
            ..before
        },
        Err(_) => before,
    }
}

/// A step's authorization that is written and read back is the one that was
/// written, and nothing else about the step changed.
pub proof fn authorization_survives_storage(
    intent: DestructiveIntent,
    before: JobStepRow,
    step: JobStep,
)
    requires
        before.job_step() == Ok::<JobStep, Seq<char>>(step),
    ensures
        row_after_authorization(
            before,
            Ok::<DestructiveIntent, AuthorizeDestructiveIntentError>(intent),
        ).job_step() == Ok::<JobStep, Seq<char>>(
            JobStep { destructive_intent: Some(intent), ..step },
        ),
{
}

/// The workflow's refusal to admit a job.
#[derive(Clone, Copy, Debug, PartialEq, Eq, Structural)]
pub enum JobAdmissionError {
    NotPending,
}

/// A job that the workflow admits, and the event of it.
#[derive(Debug)]
pub struct JobAdmissionOutcome {
    pub job: Job,
    pub event: DomainEvent,
}

/// The locked job of an admission.
pub fn lock_admission(job_id: JobId, found: Option<(JobRow, Vec<JobStepRow>)>) -> (r: Result<
    Job,
    AdmitJobError,
>)
    ensures
        match found {
            None => r == Err::<Job, AdmitJobError>(AdmitJobError::JobNotFound(job_id)),
            Some((row, rows)) => match r {
                Ok(job) => reads_job(job_id, row, rows@, Ok::<Job, RepositoryError>(job)),
                Err(error) => error matches AdmitJobError::Repository(fault) && reads_job(
                    job_id,
                    row,
                    rows@,
                    Err::<Job, RepositoryError>(fault),
                ),
            },
        },
{
    match found {
        None => Err(AdmitJobError::JobNotFound(job_id)),
        Some((row, rows)) => match read_job(job_id, row, rows) {
            Ok(job) => Ok(job),
            Err(error) => Err(AdmitJobError::Repository(error)),
        },
    }
}

/// What an admission writes: the job's new state, guarded by the old one, and
/// the event.
#[derive(Debug)]
pub struct AdmissionWrites {
    pub job_id: JobId,
    pub state: JobState,
    pub event: EventRow,
}

/// Lays an admission out for writing; a job that is not pending is refused.
pub fn decide_admission(job_id: JobId, decided: Result<JobAdmissionOutcome, JobAdmissionError>) -> (r:
    Result<(AdmissionWrites, Job), AdmitJobError>)
    ensures
        match decided {
            Err(JobAdmissionError::NotPending) => r == Err::<
                (AdmissionWrites, Job),
                AdmitJobError,
            >(AdmitJobError::NotEligible(job_id)),
            Ok(outcome) => {
                &&& r matches Ok((writes, job))
                &&& job == outcome.job
                &&& writes.job_id == job_id
                &&& writes.state == outcome.job.state
                &&& event_rows::holds_event(writes.event, outcome.event, Some(job_id), None)
            },
        },
{
    match decided {
        Err(JobAdmissionError::NotPending) => Err(AdmitJobError::NotEligible(job_id)),
        Ok(outcome) => {
            let writes = AdmissionWrites {
                job_id,
                state: outcome.job.state,
                event: event_row(&outcome.event, Some(job_id), None),
            };
            Ok((writes, outcome.job))
        },
    }
}

/// What writing a job's new state came to.
#[derive(Debug)]
pub enum GuardedUpdate {
    /// So many rows were in the old state.
    Changed(u64),
    /// Another job of the endpoint is active.
    UniqueViolation,
    Failed(RepositoryError),
}

/// What comes of an admission once its write was tried: the job, or why it was
/// not admitted after all.
pub fn admit_job(job_id: JobId, job: Job, updated: GuardedUpdate) -> (r: Result<Job, AdmitJobError>)
    ensures
        match updated {
            GuardedUpdate::Changed(count) => if count == 1 {
                r == Ok::<Job, AdmitJobError>(job)
            } else {
                r == Err::<Job, AdmitJobError>(AdmitJobError::NotEligible(job_id))
            },
            GuardedUpdate::UniqueViolation => r == Err::<Job, AdmitJobError>(
                AdmitJobError::EndpointNotAvailable,
            ),
            GuardedUpdate::Failed(error) => r == Err::<Job, AdmitJobError>(
                AdmitJobError::Repository(error),
            ),
        },
{
    match updated {
        GuardedUpdate::Changed(count) => if count == 1 {
            Ok(job)
        } else {
            Err(AdmitJobError::NotEligible(job_id))
        },
        GuardedUpdate::UniqueViolation => Err(AdmitJobError::EndpointNotAvailable),
        GuardedUpdate::Failed(error) => Err(AdmitJobError::Repository(error)),
    }
}

/// Why a step's preconditions cannot be satisfied.
#[derive(Clone, Copy, Debug, PartialEq, Eq, Structural)]
pub enum JobStepEligibilityError {
    JobNotRunning,
    StepNotFound,
    NotCurrent,
}

/// The locked job whose step's preconditions are to be satisfied.
pub fn lock_preconditions(job_id: JobId, found: Option<(JobRow, Vec<JobStepRow>)>) -> (r: Result<
    Job,
    SatisfyStepPreconditionsError,
>)
    ensures
        match found {
            None => r == Err::<Job, SatisfyStepPreconditionsError>(
                SatisfyStepPreconditionsError::JobNotFound(job_id),
            ),
            Some((row, rows)) => match r {
                Ok(job) => reads_job(job_id, row, rows@, Ok::<Job, RepositoryError>(job)),
                Err(error) => error matches SatisfyStepPreconditionsError::Repository(fault)
                    && reads_job(job_id, row, rows@, Err::<Job, RepositoryError>(fault)),
            },
        },
{
    match found {
        None => Err(SatisfyStepPreconditionsError::JobNotFound(job_id)),
        Some((row, rows)) => match read_job(job_id, row, rows) {
            Ok(job) => Ok(job),
            Err(error) => Err(SatisfyStepPreconditionsError::Repository(error)),
        },
    }
}

/// What comes of satisfying a step's preconditions: the step, whose new state is
/// written, or why nothing is written.
pub fn satisfy_current_step_preconditions(
    job_id: JobId,
    step_id: JobStepId,
    decided: Result<JobStep, JobStepEligibilityError>,
) -> (r: Result<JobStep, SatisfyStepPreconditionsError>)
    ensures
        r == (match decided {
            Ok(step) => Ok::<JobStep, SatisfyStepPreconditionsError>(step),
            Err(JobStepEligibilityError::JobNotRunning) => Err::<
                JobStep,
                SatisfyStepPreconditionsError,
            >(SatisfyStepPreconditionsError::JobNotRunning(job_id)),
            Err(JobStepEligibilityError::StepNotFound) => Err::<
                JobStep,
                SatisfyStepPreconditionsError,
            >(SatisfyStepPreconditionsError::JobStepNotFound(step_id, job_id)),
            Err(JobStepEligibilityError::NotCurrent) => Err::<
                JobStep,
                SatisfyStepPreconditionsError,
            >(SatisfyStepPreconditionsError::NotCurrent(step_id)),
        }),
{
    match decided {
        Ok(step) => Ok(step),
        Err(JobStepEligibilityError::JobNotRunning) => Err(
            SatisfyStepPreconditionsError::JobNotRunning(job_id),
        ),
        Err(JobStepEligibilityError::StepNotFound) => Err(
            SatisfyStepPreconditionsError::JobStepNotFound(step_id, job_id),
        ),
        Err(JobStepEligibilityError::NotCurrent) => Err(
            SatisfyStepPreconditionsError::NotCurrent(step_id),
        ),
    }
}

/// The locked job of a destructive dispatch; its endpoint is still to be locked.
#[derive(Debug)]
pub struct DispatchJob {
    pub job: Job,
}

/// The locked job and the locked endpoint of a destructive dispatch.
#[derive(Debug)]
pub struct DispatchEndpoint {
    pub job: Job,
    pub endpoint: EndpointAggregate,
}

impl DispatchJob {
    /// Locks the job and its steps.
    pub fn lock<R>(job_id: JobId, found: Option<(JobRow, Vec<JobStepRow>)>) -> (r: Result<
        DispatchJob,
        CommitDestructiveDispatchError<R>,
    >)
        ensures
            match found {
                None => r == Err::<DispatchJob, CommitDestructiveDispatchError<R>>(
                    CommitDestructiveDispatchError::JobNotFound(job_id),
                ),
                Some((row, rows)) => match r {
                    Ok(locked) => reads_job(
                        job_id,
                        row,
                        rows@,
                        Ok::<Job, RepositoryError>(locked.job),
                    ),
                    Err(error) => error matches CommitDestructiveDispatchError::Repository(fault)
                        && reads_job(job_id, row, rows@, Err::<Job, RepositoryError>(fault)),
                },
            },
    {
        match found {
            None => Err(CommitDestructiveDispatchError::JobNotFound(job_id)),
            Some((row, rows)) => match read_job(job_id, row, rows) {
                Ok(job) => Ok(DispatchJob { job }),
                Err(error) => Err(CommitDestructiveDispatchError::Repository(error)),
            },
        }
    }

    /// Locks the job's endpoint. That there is none is a fault of the storage.
    pub fn with_endpoint<R>(
        self,
        found: Result<Option<EndpointAggregate>, RepositoryError>,
    ) -> (r: Result<DispatchEndpoint, CommitDestructiveDispatchError<R>>)
        ensures
            match found {
                Ok(Some(endpoint)) => r == Ok::<
                    DispatchEndpoint,
                    CommitDestructiveDispatchError<R>,
                >(DispatchEndpoint { job: self.job, endpoint }),
                Ok(None) => r matches Err(CommitDestructiveDispatchError::Repository(error))
                    && error.text() == "job references an endpoint that no longer exists"@,
                Err(error) => r == Err::<DispatchEndpoint, CommitDestructiveDispatchError<R>>(
                    CommitDestructiveDispatchError::Repository(error),
                ),
            },
    {
        match found {
            Ok(Some(endpoint)) => Ok(DispatchEndpoint { job: self.job, endpoint }),
            Ok(None) => Err(
                CommitDestructiveDispatchError::Repository(
                    RepositoryError::backend("job references an endpoint that no longer exists"),
                ),
            ),
            Err(error) => Err(CommitDestructiveDispatchError::Repository(error)),
        }
    }
}

impl DispatchEndpoint {
    /// Everything durable that the guard looks at, all of it read under the locks.
    pub fn facts(self, current_inventory_revision_id: Option<u128>, existing_active_attempt: bool) ->
        (r: FinalDispatchFacts)
        ensures
            r == (FinalDispatchFacts {
                job: self.job,
                endpoint: self.endpoint,
                existing_active_attempt,
                current_inventory_revision_id: match current_inventory_revision_id {
                    Some(id) => Some(InventoryRevisionId(id)),
                    None => None,
                },
            }),
    {
        FinalDispatchFacts {
            job: self.job,
            endpoint: self.endpoint,
            existing_active_attempt,
            current_inventory_revision_id: match current_inventory_revision_id {
                Some(id) => Some(InventoryRevisionId(id)),
                None => None,
            },
        }
    }
}

/// An attempt as it is first written.
#[derive(Clone, Copy, Debug, PartialEq, Eq, Structural)]
pub struct AttemptRow {
    pub id: u128,
    pub job_step_id: u128,
    pub action_id: u128,
    pub state: AttemptState,
}

/// Reads an attempt.
pub fn row_to_attempt(row: AttemptRow) -> (r: Attempt)
    ensures
        r == (Attempt {
            id: AttemptId(row.id),
            job_step_id: JobStepId(row.job_step_id),
            action_id: ActionId(row.action_id),
            state: row.state,
        }),
{
    Attempt {
        id: AttemptId(row.id),
        job_step_id: JobStepId(row.job_step_id),
        action_id: ActionId(row.action_id),
        state: row.state,
    }
}

/// How the transaction of a destructive dispatch ends.
#[derive(Debug)]
pub enum DispatchTransaction<R> {
    /// Nothing is written.
    Rollback { rejection: R },
    /// The step is put back, and that is committed; the dispatch is rejected.
    PutBack { step_state: JobStepState, rejection: R },
    /// The step, a fresh attempt and the audit record are written and committed.
    Commit {
        step_state: JobStepState,
        attempt: AttemptRow,
        audit: AuditRow,
        outcome: FinalDispatchOutcome,
    },
}

/// Lays a destructive dispatch out for writing. What is written of a rejected
/// one is what the guard says, and nothing else.
pub fn commit_destructive_dispatch<R>(
    step_id: JobStepId,
    decided: Result<FinalDispatchCommit, FinalDispatchDenial<R>>,
) -> (r: DispatchTransaction<R>)
    ensures
        match decided {
            Err(denial) => match denial.pending_job_step {
                None => r == (DispatchTransaction::Rollback { rejection: denial.rejection }),
                Some(step) => r == (DispatchTransaction::PutBack {
                    step_state: step.state,
                    rejection: denial.rejection,
                }),
            },
            Ok(commit) => {
                &&& r matches DispatchTransaction::Commit { step_state, attempt, audit, outcome }
                &&& outcome == commit.outcome
                &&& step_state == commit.outcome.job_step.state
                &&& attempt == (AttemptRow {
                    id: commit.outcome.attempt.id.0,
                    job_step_id: step_id.0,
                    action_id: commit.outcome.attempt.action_id.0,
                    state: commit.outcome.attempt.state,
                })
                &&& event_rows::holds_audit(audit, commit.audit)
            },
        },
{
    match decided {
        Err(denial) => match denial.pending_job_step {
            None => DispatchTransaction::Rollback { rejection: denial.rejection },
            Some(step) => DispatchTransaction::PutBack {
                step_state: step.state,
                rejection: denial.rejection,
            },
        },
        Ok(commit) => {
            let audit = audit_row(&commit.audit);
            let outcome = commit.outcome;
            DispatchTransaction::Commit {
                step_state: outcome.job_step.state,
                attempt: AttemptRow {
                    id: outcome.attempt.id.0,
                    job_step_id: step_id.0,
                    action_id: outcome.attempt.action_id.0,
                    state: outcome.attempt.state,
                },
                audit,
                outcome,
            }
        },
    }
}

/// The locked attempt that evidence is about.
#[derive(Clone, Copy, Debug, PartialEq, Eq, Structural)]
pub struct LockedAttempt {
    pub attempt: Attempt,
}

/// The attempt and its step, both locked.
#[derive(Debug)]
pub struct LockedStep {
    pub attempt: Attempt,
    pub job_step: JobStep,
}

/// The attempt, its step and the step's job, all locked.
#[derive(Debug)]
pub struct LockedJob {
    pub attempt: Attempt,
    pub job_step: JobStep,
    pub row: JobRow,
}

impl LockedAttempt {
    /// Locks the attempt that has the action.
    pub fn lock(found: Option<AttemptRow>) -> (r: Result<LockedAttempt, ApplyActionEvidenceError>)
        ensures
            match found {
                None => r == Err::<LockedAttempt, ApplyActionEvidenceError>(
                    ApplyActionEvidenceError::UnknownAction,
                ),
                Some(row) => {
                    &&& r matches Ok(locked)
                    &&& locked.attempt == (Attempt {
                        id: AttemptId(row.id),
                        job_step_id: JobStepId(row.job_step_id),
                        action_id: ActionId(row.action_id),
                        state: row.state,
                    })
                },
            },
    {
        match found {
            None => Err(ApplyActionEvidenceError::UnknownAction),
            Some(row) => Ok(LockedAttempt { attempt: row_to_attempt(row) }),
        }
    }

    /// Locks the attempt's step. That there is none is a fault of the storage.
    pub fn with_step(self, found: Option<JobStepRow>) -> (r: Result<
        LockedStep,
        ApplyActionEvidenceError,
    >)
        ensures
            match found {
                None => r matches Err(ApplyActionEvidenceError::Repository(error)) && error.text()
                    == "attempt references a job_step that no longer exists"@,
                Some(row) => match row.job_step() {
                    Ok(job_step) => r == Ok::<LockedStep, ApplyActionEvidenceError>(
                        LockedStep { attempt: self.attempt, job_step },
                    ),
                    Err(text) => r matches Err(ApplyActionEvidenceError::Repository(error))
                        && error.text() == text,
                },
            },
    {
        match found {
            None => Err(
                ApplyActionEvidenceError::Repository(
                    RepositoryError::backend("attempt references a job_step that no longer exists"),
                ),
            ),
            Some(row) => match row_to_job_step(row) {
                Ok(job_step) => Ok(LockedStep { attempt: self.attempt, job_step }),
                Err(error) => Err(ApplyActionEvidenceError::Repository(error)),
            },
        }
    }
}

impl LockedStep {
    /// Locks the step's job. That there is none is a fault of the storage.
    pub fn with_job(self, found: Option<JobRow>) -> (r: Result<LockedJob, ApplyActionEvidenceError>)
        ensures
            match found {
                None => r matches Err(ApplyActionEvidenceError::Repository(error)) && error.text()
                    == "job_step references a job that no longer exists"@,
                Some(row) => r == Ok::<LockedJob, ApplyActionEvidenceError>(
                    LockedJob { attempt: self.attempt, job_step: self.job_step, row },
                ),
            },
    {
        match found {
            None => Err(
                ApplyActionEvidenceError::Repository(
                    RepositoryError::backend("job_step references a job that no longer exists"),
                ),
            ),
            Some(row) => Ok(LockedJob { attempt: self.attempt, job_step: self.job_step, row }),
        }
    }
}

impl LockedJob {
    /// Everything that evidence is decided on. An action of another endpoint is
    /// as unknown as one that does not exist.
    pub fn facts(self, rows: Vec<JobStepRow>, authenticated: EndpointId) -> (r: Result<
        EvidenceFacts,
        ApplyActionEvidenceError,
    >)
        ensures
            match r {
                Ok(facts) => {
                    &&& self.row.endpoint_id == authenticated.0
                    &&& facts.attempt == self.attempt
                    &&& facts.job_step == self.job_step
                    &&& reads_job(
                        self.job_step.job_id,
                        self.row,
                        rows@,
                        Ok::<Job, RepositoryError>(facts.job),
                    )
                },
                Err(ApplyActionEvidenceError::UnknownAction) => {
                    &&& self.row.endpoint_id != authenticated.0
                    &&& forall|i: int|
                        0 <= i < rows@.len() ==> (#[trigger] rows@[i]).job_step() is Ok
                },
                Err(ApplyActionEvidenceError::Repository(error)) => reads_job(
                    self.job_step.job_id,
                    self.row,
                    rows@,
                    Err::<Job, RepositoryError>(error),
                ),
            },
    {
        let job = match read_job(self.job_step.job_id, self.row, rows) {
            Ok(job) => job,
            Err(error) => {
                return Err(ApplyActionEvidenceError::Repository(error));
            },
        };
        if job.endpoint_id != authenticated {
            return Err(ApplyActionEvidenceError::UnknownAction);
        }
        Ok(EvidenceFacts { job, job_step: self.job_step, attempt: self.attempt })
    }
}

/// What applied evidence writes, in this order.
#[derive(Debug)]
pub struct EvidenceWrites {
    pub attempt_id: AttemptId,
    pub attempt_state: AttemptState,
    pub job_step_id: JobStepId,
    pub job_step_state: JobStepState,
    pub failure_reason: Option<JobStepFailureReason>,
    pub job_id: JobId,
    pub job_state: JobState,
    pub events: Vec<EventRow>,
    pub audit: Option<AuditRow>,
}

/// The writes are those of the applied evidence, with its events.
pub open spec fn writes_applied(writes: EvidenceWrites, applied: EvidenceApplied) -> bool {
    &&& writes.attempt_id == applied.attempt.id
    &&& writes.attempt_state == applied.attempt.state
    &&& writes.job_step_id == applied.job_step.id
    &&& writes.job_step_state == applied.job_step.state
    &&& writes.failure_reason == applied.job_step.failure_reason
    &&& writes.job_id == applied.job.id
    &&& writes.job_state == applied.job.state
    &&& event_rows::holds_events(writes.events@, applied.events@)
}

/// How the transaction of a piece of evidence ends.
#[derive(Debug)]
pub enum EvidenceTransaction {
    /// Nothing is written.
    Rollback { result: EvidenceResult },
    Commit { writes: EvidenceWrites, applied: EvidenceApplied },
}

/// Lays evidence out for writing, that of an answer to a cancellation or of a
/// status report like any other. Evidence that changes nothing, or that
/// contradicts what is durable, writes nothing.
pub fn apply_action_evidence(decided: EvidenceDecision) -> (r: EvidenceTransaction)
    ensures
        match decided {
            EvidenceDecision::NoOp => r == (EvidenceTransaction::Rollback {
                result: EvidenceResult::NoOp,
            }),
            EvidenceDecision::Conflict => r == (EvidenceTransaction::Rollback {
                result: EvidenceResult::Conflict,
            }),
            EvidenceDecision::Applied(commit) => {
                &&& r matches EvidenceTransaction::Commit { writes, applied }
                &&& applied == commit.outcome
                &&& writes_applied(writes, commit.outcome)
                &&& event_rows::holds_optional_audit(writes.audit, commit.audit)
            },
        },
{
    match decided {
        EvidenceDecision::NoOp => EvidenceTransaction::Rollback { result: EvidenceResult::NoOp },
        EvidenceDecision::Conflict => EvidenceTransaction::Rollback {
            result: EvidenceResult::Conflict,
        },
        EvidenceDecision::Applied(commit) => {
            let audit = optional_audit_row(&commit.audit);
            let applied = commit.outcome;
            let writes = EvidenceWrites {
                attempt_id: applied.attempt.id,
                attempt_state: applied.attempt.state,
                job_step_id: applied.job_step.id,
                job_step_state: applied.job_step.state,
                failure_reason: applied.job_step.failure_reason,
                job_id: applied.job.id,
                job_state: applied.job.state,
                events: event_rows(&applied.events),
                audit,
            };
            EvidenceTransaction::Commit { writes, applied }
        },
    }
}

/// So many passes are counted down; the one that reaches zero is not made.
pub const MAX_PASSES: u8 = 8;

/// A cancellation request that looks for the job's active attempt. Each pass
/// begins with a scan that takes no lock.
#[derive(Clone, Copy, Debug, PartialEq, Eq, Structural)]
pub struct CancellationScan {
    pub job_id: JobId,
    pub passes_remaining: u8,
}

/// A pass that found a candidate, which is to be locked first, then its step.
#[derive(Clone, Copy, Debug, PartialEq, Eq, Structural)]
pub struct CandidateLock {
    pub job_id: JobId,
    pub passes_remaining: u8,
    pub attempt_id: AttemptId,
}

/// A pass whose job is to be locked.
#[derive(Clone, Copy, Debug, PartialEq, Eq, Structural)]
pub struct JobLock {
    pub job_id: JobId,
    pub passes_remaining: u8,
    /// Whether the scan had found a candidate.
    pub had_candidate: bool,
    /// The candidate, if it was still active under its lock.
    pub active_attempt: Option<Attempt>,
}

/// A pass that has the job's lock, but had no candidate: one may have been added
/// before the job was locked.
#[derive(Clone, Copy, Debug, PartialEq, Eq, Structural)]
pub struct JobRescan {
    pub job_id: JobId,
    pub passes_remaining: u8,
    pub row: JobRow,
}

/// A pass that has all its locks.
#[derive(Clone, Copy, Debug, PartialEq, Eq, Structural)]
pub struct JobRead {
    pub job_id: JobId,
    pub row: JobRow,
    pub active_attempt: Option<Attempt>,
}

/// What follows from a scan.
#[derive(Clone, Copy, Debug, PartialEq, Eq, Structural)]
pub enum AfterScan {
    LockAttempt(CandidateLock),
    LockJob(JobLock),
}

/// What follows from the job's lock.
#[derive(Clone, Copy, Debug, PartialEq, Eq, Structural)]
pub enum AfterJobLock {
    Rescan(JobRescan),
    Read(JobRead),
}

/// What follows from the second scan.
#[derive(Clone, Copy, Debug, PartialEq, Eq, Structural)]
pub enum AfterRescan {
    /// Roll back, and begin another pass.
    Again(CancellationScan),
    Read(JobRead),
}

/// The wording for a job with more than one active attempt.
pub open spec fn ambiguity_text() -> Seq<char> {
    "invariant violation: more than one simultaneously active/uncertain attempt for job"@
}

/// The job's active attempt among those that a scan found. More than one is a
/// fault of the storage; none is picked.
pub fn active_attempt_candidate(found: &Vec<u128>) -> (r: Result<
    Option<AttemptId>,
    RequestCancellationError,
>)
    ensures
        if found@.len() > 1 {
            r matches Err(RequestCancellationError::Repository(error)) && error.text()
                == ambiguity_text()
        } else if found@.len() == 1 {
            r == Ok::<Option<AttemptId>, RequestCancellationError>(Some(AttemptId(found@[0])))
        } else {
            r == Ok::<Option<AttemptId>, RequestCancellationError>(None)
        },
{
    if found.len() > 1 {
        return Err(
            RequestCancellationError::Repository(
                RepositoryError::backend(
                    "invariant violation: more than one simultaneously active/uncertain attempt for job",
                ),
            ),
        );
    }
    if found.len() == 1 {
        Ok(Some(AttemptId(found[0])))
    } else {
        Ok(None)
    }
}

impl CancellationScan {
    /// A pass that is made is not the last one counted down.
    pub open spec fn well_formed(&self) -> bool {
        1 <= self.passes_remaining < MAX_PASSES
    }

    /// Begins the first pass.
    pub fn begin(job_id: JobId) -> (r: CancellationScan)
        ensures
            r.job_id == job_id,
            r.passes_remaining == MAX_PASSES - 1,
            r.well_formed(),
    {
        CancellationScan { job_id, passes_remaining: MAX_PASSES - 1 }
    }

    /// Goes on with what the scan found.
    pub fn scanned(self, found: &Vec<u128>) -> (r: Result<AfterScan, RequestCancellationError>)
        ensures
            if found@.len() > 1 {
                r matches Err(RequestCancellationError::Repository(error)) && error.text()
                    == ambiguity_text()
            } else if found@.len() == 1 {
                r == Ok::<AfterScan, RequestCancellationError>(
                    AfterScan::LockAttempt(
                        CandidateLock {
                            job_id: self.job_id,
                            passes_remaining: self.passes_remaining,
                            attempt_id: AttemptId(found@[0]),
                        },
                    ),
                )
            } else {
                r == Ok::<AfterScan, RequestCancellationError>(
                    AfterScan::LockJob(
                        JobLock {
                            job_id: self.job_id,
                            passes_remaining: self.passes_remaining,
                            had_candidate: false,
                            active_attempt: None,
                        },
                    ),
                )
            },
    {
        match active_attempt_candidate(found) {
            Ok(Some(attempt_id)) => Ok(
                AfterScan::LockAttempt(
                    CandidateLock {
                        job_id: self.job_id,
                        passes_remaining: self.passes_remaining,
                        attempt_id,
                    },
                ),
            ),
            Ok(None) => Ok(
                AfterScan::LockJob(
                    JobLock {
                        job_id: self.job_id,
                        passes_remaining: self.passes_remaining,
                        had_candidate: false,
                        active_attempt: None,
                    },
                ),
            ),
            Err(error) => Err(error),
        }
    }
}

impl CandidateLock {
    /// Goes on with the locked candidate. It counts only if it is still active:
    /// what the scan saw may have ended since.
    pub fn locked(self, found: Option<AttemptRow>) -> (r: Result<JobLock, RequestCancellationError>)
        ensures
            match found {
                None => r matches Err(RequestCancellationError::Repository(error)) && error.text()
                    == "candidate active attempt disappeared under lock"@,
                Some(row) => r == Ok::<JobLock, RequestCancellationError>(
                    JobLock {
                        job_id: self.job_id,
                        passes_remaining: self.passes_remaining,
                        had_candidate: true,
                        active_attempt: if row.state.active() {
                            Some(
                                Attempt {
                                    id: AttemptId(row.id),
                                    job_step_id: JobStepId(row.job_step_id),
                                    action_id: ActionId(row.action_id),
                                    state: row.state,
                                },
                            )
                        } else {
                            None
                        },
                    },
                ),
            },
    {
        match found {
            None => Err(
                RequestCancellationError::Repository(
                    RepositoryError::backend("candidate active attempt disappeared under lock"),
                ),
            ),
            Some(row) => {
                let attempt = row_to_attempt(row);
                let active_attempt = if attempt.state.is_active() {
                    Some(attempt)
                } else {
                    None
                };
                Ok(
                    JobLock {
                        job_id: self.job_id,
                        passes_remaining: self.passes_remaining,
                        had_candidate: true,
                        active_attempt,
                    },
                )
            },
        }
    }
}

impl JobLock {
    /// Goes on with the locked job.
    pub fn locked(self, found: Option<JobRow>) -> (r: Result<
        AfterJobLock,
        RequestCancellationError,
    >)
        ensures
            match found {
                None => r == Err::<AfterJobLock, RequestCancellationError>(
                    RequestCancellationError::JobNotFound(self.job_id),
                ),
                Some(row) => r == Ok::<AfterJobLock, RequestCancellationError>(
                    if self.had_candidate {
                        AfterJobLock::Read(
                            JobRead {
                                job_id: self.job_id,
                                row,
                                active_attempt: self.active_attempt,
                            },
                        )
                    } else {
                        AfterJobLock::Rescan(
                            JobRescan {
                                job_id: self.job_id,
                                passes_remaining: self.passes_remaining,
                                row,
                            },
                        )
                    },
                ),
            },
    {
        match found {
            None => Err(RequestCancellationError::JobNotFound(self.job_id)),
            Some(row) => if self.had_candidate {
                Ok(
                    AfterJobLock::Read(
                        JobRead { job_id: self.job_id, row, active_attempt: self.active_attempt },
                    ),
                )
            } else {
                Ok(
                    AfterJobLock::Rescan(
                        JobRescan {
                            job_id: self.job_id,
                            passes_remaining: self.passes_remaining,
                            row,
                        },
                    ),
                )
            },
        }
    }
}

impl JobRescan {
    /// Goes on with what the second scan found. An attempt that shows up now is
    /// never locked behind the job; another pass finds it first, as long as
    /// there are passes left.
    pub fn rescanned(self, found: &Vec<u128>) -> (r: Result<AfterRescan, RequestCancellationError>)
        requires
            1 <= self.passes_remaining < MAX_PASSES,
        ensures
            if found@.len() > 1 {
                r matches Err(RequestCancellationError::Repository(error)) && error.text()
                    == ambiguity_text()
            } else if found@.len() == 0 {
                r == Ok::<AfterRescan, RequestCancellationError>(
                    AfterRescan::Read(
                        JobRead { job_id: self.job_id, row: self.row, active_attempt: None },
                    ),
                )
            } else if self.passes_remaining == 1 {
                r matches Err(RequestCancellationError::Repository(error)) && error.text()
                    == "request_cancellation: exceeded retry budget resolving the active Attempt race against final dispatch"@
            } else {
                &&& r matches Ok(AfterRescan::Again(scan))
                &&& scan.job_id == self.job_id
                &&& scan.passes_remaining == self.passes_remaining - 1
                &&& scan.well_formed()
            },
    {
        match active_attempt_candidate(found) {
            Ok(Some(_)) => {
                let passes_remaining: u8 = self.passes_remaining - 1;
                if passes_remaining == 0 {
                    return Err(
                        RequestCancellationError::Repository(
                            RepositoryError::backend(
                                "request_cancellation: exceeded retry budget resolving the active Attempt race against final dispatch",
                            ),
                        ),
                    );
                }
                Ok(
                    AfterRescan::Again(
                        CancellationScan { job_id: self.job_id, passes_remaining },
                    ),
                )
            },
            Ok(None) => Ok(
                AfterRescan::Read(
                    JobRead { job_id: self.job_id, row: self.row, active_attempt: None },
                ),
            ),
            Err(error) => Err(error),
        }
    }
}

impl JobRead {
    /// Everything that the request is decided on.
    pub fn facts(self, rows: Vec<JobStepRow>) -> (r: Result<
        CancellationFacts,
        RequestCancellationError,
    >)
        ensures
            match r {
                Ok(facts) => {
                    &&& facts.active_attempt == self.active_attempt
                    &&& reads_job(
                        self.job_id,
                        self.row,
                        rows@,
                        Ok::<Job, RepositoryError>(facts.job),
                    )
                },
                Err(error) => error matches RequestCancellationError::Repository(fault)
                    && reads_job(
                    self.job_id,
                    self.row,
                    rows@,
                    Err::<Job, RepositoryError>(fault),
                ),
            },
    {
        match read_job(self.job_id, self.row, rows) {
            Ok(job) => Ok(CancellationFacts { job, active_attempt: self.active_attempt }),
            Err(error) => Err(RequestCancellationError::Repository(error)),
        }
    }
}

/// How the transaction of a cancellation request ends.
#[derive(Debug)]
pub enum CancellationTransaction {
    /// Nothing is written.
    Rollback(Result<RequestCancellationResult, RequestCancellationError>),
    /// The job's state, the event if there is one, and the audit record are
    /// written and committed.
    Commit {
        job_state: JobState,
        event: Option<EventRow>,
        audit: AuditRow,
        result: RequestCancellationResult,
    },
}

/// Lays a cancellation request out for writing. Only one that changes the job
/// writes anything.
pub fn request_cancellation(
    job_id: JobId,
    decided: Result<CancellationRequestDecided, CancellationRequestError>,
) -> (r: CancellationTransaction)
    ensures
        match decided {
            Err(CancellationRequestError::NotEligible) => r == CancellationTransaction::Rollback(
                Err(RequestCancellationError::NotEligible(job_id)),
            ),
            Ok(CancellationRequestDecided::AlreadyCancelling) => r
                == CancellationTransaction::Rollback(
                Ok(RequestCancellationResult::AlreadyCancelling),
            ),
            Ok(CancellationRequestDecided::AlreadyTerminal) => r
                == CancellationTransaction::Rollback(Ok(RequestCancellationResult::AlreadyTerminal)),
            Ok(
                CancellationRequestDecided::EnteredCancelling {
                    job,
                    attempt_id,
                    action_id,
                    audit: record,
                },
            ) => {
                &&& r matches CancellationTransaction::Commit { job_state, event, audit, result }
                &&& job_state == job.state
                &&& event is None
                &&& event_rows::holds_audit(audit, record)
                &&& result == (RequestCancellationResult::EnteredCancelling {
                    attempt_id,
                    action_id,
                    endpoint_id: job.endpoint_id,
                })
            },
            Ok(CancellationRequestDecided::CompletedImmediately { job, event: cancelled, audit: record }) => {
                &&& r matches CancellationTransaction::Commit { job_state, event, audit, result }
                &&& job_state == job.state
                &&& event matches Some(row)
                &&& event_rows::holds_event(row, cancelled, Some(job_id), None)
                &&& event_rows::holds_audit(audit, record)
                &&& result is CompletedImmediately
            },
        },
{
    match decided {
        Err(CancellationRequestError::NotEligible) => CancellationTransaction::Rollback(
            Err(RequestCancellationError::NotEligible(job_id)),
        ),
        Ok(CancellationRequestDecided::EnteredCancelling { job, attempt_id, action_id, audit }) =>
            CancellationTransaction::Commit {
            job_state: job.state,
            event: None,
            audit: audit_row(&audit),
            result: RequestCancellationResult::EnteredCancelling {
                attempt_id,
                action_id,
                endpoint_id: job.endpoint_id,
            },
        },
        Ok(CancellationRequestDecided::CompletedImmediately { job, event, audit }) =>
            CancellationTransaction::Commit {
            job_state: job.state,
            event: Some(event_row(&event, Some(job_id), None)),
            audit: audit_row(&audit),
            result: RequestCancellationResult::CompletedImmediately,
        },
        Ok(CancellationRequestDecided::AlreadyCancelling) => CancellationTransaction::Rollback(
            Ok(RequestCancellationResult::AlreadyCancelling),
        ),
        Ok(CancellationRequestDecided::AlreadyTerminal) => CancellationTransaction::Rollback(
            Ok(RequestCancellationResult::AlreadyTerminal),
        ),
    }
}

/// An attempt that a cancellation is decided on was active under its own lock,
/// which was taken before the job's.
pub proof fn decided_attempt_was_active_under_lock(
    candidate: CandidateLock,
    found: Option<AttemptRow>,
    job_lock: JobLock,
    row: JobRow,
    read: JobRead,
)
    requires
        call_ensures(CandidateLock::locked, (candidate, found), Ok(job_lock)),
        call_ensures(JobLock::locked, (job_lock, Some(row)), Ok(AfterJobLock::Read(read))),
    ensures
        read.active_attempt matches Some(attempt) ==> attempt.state.active(),
        found matches Some(row) && (row.state.active() <==> read.active_attempt is Some),
{
}

/// A cancellation is decided without an attempt only where none was active when
/// the job was locked: either the candidate had ended, or a scan behind the
/// job's lock found none.
pub proof fn no_attempt_is_overlooked(
    job_lock: JobLock,
    row: JobRow,
    rescan: JobRescan,
    found: Vec<u128>,
    read: JobRead,
)
    requires
        !job_lock.had_candidate,
        call_ensures(JobLock::locked, (job_lock, Some(row)), Ok(AfterJobLock::Rescan(rescan))),
        call_ensures(JobRescan::rescanned, (rescan, &found), Ok(AfterRescan::Read(read))),
    ensures
        found@.len() == 0,
        read.active_attempt is None,
        read.row == row,
{
}

/// A step is read from its row column by column. Its authorization is read whole; a
/// row that holds half of one, and no other, cannot be read.
pub proof fn step_is_read_column_by_column(row: JobStepRow, r: Result<JobStep, RepositoryError>)
    requires
        call_ensures(row_to_job_step, (row,), r),
    ensures
        r is Ok <==> (row.authorized_inventory_revision_id is Some
            <==> row.authorized_target_fingerprint is Some),
        r matches Err(fault) ==> fault.text()
            == "persisted job_steps destructive intent is partially populated"@,
        r matches Ok(step) ==> {
            &&& step.id.0 == row.id
            &&& step.job_id.0 == row.job_id
            &&& step.order == row.step_order
            &&& step.state == row.state
            &&& step.failure_reason == row.failure_reason
            &&& step.destructive_intent is Some <==> row.authorized_inventory_revision_id is Some
            &&& step.destructive_intent matches Some(intent) ==> Some(
                intent.authorized_inventory_revision_id.0,
            ) == row.authorized_inventory_revision_id && Some(
                intent.authorized_target_fingerprint.value,
            ) == row.authorized_target_fingerprint
        },
{
}

/// A step that applied evidence wrote is read back in the state and with the failure
/// reason that it was written with, and still has its authorization.
pub proof fn applied_step_survives_storage(
    commit: EvidenceCommit,
    writes: EvidenceWrites,
    applied: EvidenceApplied,
    before: JobStepRow,
    after: JobStepRow,
    r: Result<JobStep, RepositoryError>,
)
    requires
        call_ensures(
            apply_action_evidence,
            (EvidenceDecision::Applied(commit),),
            EvidenceTransaction::Commit { writes, applied },
        ),
        after == (JobStepRow {
            state: writes.job_step_state,
            failure_reason: writes.failure_reason,
            ..before
        }),
        call_ensures(row_to_job_step, (after,), r),
    ensures
        r matches Ok(step) ==> {
            &&& step.state == commit.outcome.job_step.state
            &&& step.failure_reason == commit.outcome.job_step.failure_reason
            &&& step.id.0 == before.id
            &&& step.destructive_intent is Some <==> before.authorized_inventory_revision_id is Some
        },
{
    step_is_read_column_by_column(after, r);
}

/// A job is read with the state and the endpoint of its own row, and one step for
/// each of its steps' rows, in their order, each as its row has it.
pub proof fn job_is_read_whole(
    id: JobId,
    row: JobRow,
    rows: Vec<JobStepRow>,
    r: Result<Option<Job>, RepositoryError>,
)
    requires
        call_ensures(find_job, (id, Some((row, rows))), r),
    ensures
        r is Ok <==> forall|i: int|
            0 <= i < rows@.len() ==> ((#[trigger] rows@[i]).authorized_inventory_revision_id is Some
                <==> rows@[i].authorized_target_fingerprint is Some),
        r matches Ok(found) ==> {
            &&& found matches Some(job)
            &&& job.id == id
            &&& job.endpoint_id.0 == row.endpoint_id
            &&& job.state == row.state
            &&& job.steps@.len() == rows@.len()
            &&& forall|i: int|
                0 <= i < rows@.len() ==> {
                    &&& (#[trigger] job.steps@[i]).id.0 == rows@[i].id
                    &&& job.steps@[i].job_id.0 == rows@[i].job_id
                    &&& job.steps@[i].order == rows@[i].step_order
                    &&& job.steps@[i].state == rows@[i].state
                    &&& job.steps@[i].failure_reason == rows@[i].failure_reason
                    &&& job.steps@[i].destructive_intent is Some
                        <==> rows@[i].authorized_inventory_revision_id is Some
                }
        },
{
    if r is Ok {
        let job = r->Ok_0->Some_0;
        assert forall|i: int| 0 <= i < rows@.len() implies {
            &&& (#[trigger] job.steps@[i]).id.0 == rows@[i].id
            &&& job.steps@[i].job_id.0 == rows@[i].job_id
            &&& job.steps@[i].order == rows@[i].step_order
            &&& job.steps@[i].state == rows@[i].state
            &&& job.steps@[i].failure_reason == rows@[i].failure_reason
            &&& job.steps@[i].destructive_intent is Some
                <==> rows@[i].authorized_inventory_revision_id is Some
        } by {
            assert(rows@[i].job_step() == Ok::<JobStep, Seq<char>>(job.steps@[i]));
        }
        assert forall|i: int| 0 <= i < rows@.len() implies ((
        #[trigger] rows@[i]).authorized_inventory_revision_id is Some
            <==> rows@[i].authorized_target_fingerprint is Some) by {
            assert(rows@[i].job_step() == Ok::<JobStep, Seq<char>>(job.steps@[i]));
        }
    } else {
        let error = r->Err_0;
        let i = choose|i: int|
            0 <= i < rows@.len() && (#[trigger] rows@[i]).job_step() == Err::<JobStep, Seq<char>>(
                error.text(),
            );
        assert(rows@[i].job_step() is Err);
    }
}

/// A job that is not there is no fault.
pub proof fn missing_job_is_no_fault(id: JobId, r: Result<Option<Job>, RepositoryError>)
    requires
        call_ensures(find_job, (id, None), r),
    ensures
        r matches Ok(found) && found is None,
{
}

/// A workflow is written for an enrolled endpoint alone, with every step as the job
/// has it; an endpoint that is not there is told apart from one that is not enrolled.
pub proof fn only_an_enrolled_endpoint_gets_a_workflow(
    job: Job,
    identity: Option<IdentityState>,
    r: Result<WorkflowRows, CreateWorkflowError>,
)
    requires
        call_ensures(create_workflow, (&job, identity), r),
    ensures
        r is Ok <==> identity == Some(IdentityState::Enrolled),
        identity is None <==> (r matches Err(CreateWorkflowError::EndpointNotFound(id)) && id
            == job.endpoint_id),
        (identity == Some(IdentityState::PendingEnrollment) || identity == Some(
            IdentityState::Retired,
        )) <==> (r matches Err(CreateWorkflowError::EndpointNotEnrolled(id)) && id
            == job.endpoint_id),
        r matches Ok(rows) ==> {
            &&& rows.id == job.id.0
            &&& rows.endpoint_id == job.endpoint_id.0
            &&& rows.state == job.state
            &&& rows.steps@.len() == job.steps@.len()
            &&& forall|i: int|
                0 <= i < job.steps@.len() ==> {
                    &&& (#[trigger] rows.steps@[i]).id == job.steps@[i].id.0
                    &&& rows.steps@[i].job_id == job.steps@[i].job_id.0
                    &&& rows.steps@[i].step_order == job.steps@[i].order
                    &&& rows.steps@[i].state == job.steps@[i].state
                }
        },
{
}

/// A refused authorization is told by the reason of the refusal, about the step and
/// the job that were asked for; one that is granted is written as it was decided.
pub proof fn authorization_is_told_by_its_reason(
    job_id: JobId,
    step_id: JobStepId,
    decided: Result<DestructiveIntent, DestructiveIntentError>,
    r: Result<DestructiveIntent, AuthorizeDestructiveIntentError>,
)
    requires
        call_ensures(authorize_destructive_intent, (job_id, step_id, decided), r),
    ensures
        decided is Ok <==> r is Ok,
        decided matches Ok(intent) ==> r->Ok_0 == intent,
        decided matches Err(DestructiveIntentError::WrongJob) <==> (r matches Err(
            AuthorizeDestructiveIntentError::JobStepNotFound(step, job),
        ) && step == step_id && job == job_id),
        decided matches Err(DestructiveIntentError::NotEligible) <==> (r matches Err(
            AuthorizeDestructiveIntentError::NotEligible(step),
        ) && step == step_id),
        decided matches Err(DestructiveIntentError::AlreadyAuthorized) <==> (r matches Err(
            AuthorizeDestructiveIntentError::AlreadyAuthorized(step),
        ) && step == step_id),
{
}

/// What an authorization writes is the revision and the target that were authorized,
/// and reading it back gives them.
pub proof fn written_intent_is_read_back(
    intent: DestructiveIntent,
    columns: IntentColumns,
    before: JobStepRow,
    job_id: JobId,
    step_id: JobStepId,
    r: Result<JobStep, AuthorizeDestructiveIntentError>,
)
    requires
        call_ensures(intent_columns, (&intent,), columns),
        call_ensures(
            lock_intent_step,
            (
                job_id,
                step_id,
                Some(
                    JobStepRow {
                        authorized_inventory_revision_id: Some(
                            columns.authorized_inventory_revision_id,
                        ),
                        authorized_target_fingerprint: Some(columns.authorized_target_fingerprint),
                        ..before
                    },
                ),
            ),
            r,
        ),
    ensures
        r matches Ok(step) && step.destructive_intent matches Some(read)
            && read.authorized_inventory_revision_id == intent.authorized_inventory_revision_id
            && read.authorized_target_fingerprint.value@
            == intent.authorized_target_fingerprint.value@ && step.state == before.state
            && step.failure_reason == before.failure_reason,
{
}

/// A step that is not there is told with the job it was looked for in.
pub proof fn missing_intent_step_is_told(
    job_id: JobId,
    step_id: JobStepId,
    r: Result<JobStep, AuthorizeDestructiveIntentError>,
)
    requires
        call_ensures(lock_intent_step, (job_id, step_id, None), r),
    ensures
        r matches Err(AuthorizeDestructiveIntentError::JobStepNotFound(step, job)) && step
            == step_id && job == job_id,
{
}

/// An admission writes the state of the admitted job and its event, filed under that
/// job; a job that is not pending writes nothing and is not eligible.
pub proof fn admission_writes_the_admitted_job(
    job_id: JobId,
    decided: Result<JobAdmissionOutcome, JobAdmissionError>,
    r: Result<(AdmissionWrites, Job), AdmitJobError>,
)
    requires
        call_ensures(decide_admission, (job_id, decided), r),
    ensures
        decided is Ok <==> r is Ok,
        decided is Err ==> (r matches Err(AdmitJobError::NotEligible(id)) && id == job_id),
        decided matches Ok(outcome) ==> {
            &&& r->Ok_0.1 == outcome.job
            &&& r->Ok_0.0.job_id == job_id
            &&& r->Ok_0.0.state == outcome.job.state
            &&& r->Ok_0.0.event.event_id == outcome.event.event_id
            &&& r->Ok_0.0.event.job_id == Some(job_id.0)
            &&& r->Ok_0.0.event.job_step_id is None
            &&& r->Ok_0.0.event.endpoint_id == outcome.event.endpoint_id.0
            &&& r->Ok_0.0.event.occurred_at == outcome.event.occurred_at
        },
{
}

/// A job is admitted exactly where the guarded write found its one row still in the
/// old state; another active job of the endpoint, a row that moved on and a fault are
/// told apart.
pub proof fn job_is_admitted_once(
    job_id: JobId,
    job: Job,
    updated: GuardedUpdate,
    r: Result<Job, AdmitJobError>,
)
    requires
        call_ensures(admit_job, (job_id, job, updated), r),
    ensures
        r is Ok <==> (updated matches GuardedUpdate::Changed(count) && count == 1),
        r matches Ok(admitted) ==> admitted == job,
        updated is UniqueViolation <==> r matches Err(AdmitJobError::EndpointNotAvailable),
        (updated matches GuardedUpdate::Changed(count) && count != 1) <==> (r matches Err(
            AdmitJobError::NotEligible(id),
        ) && id == job_id),
        updated matches GuardedUpdate::Failed(error) ==> (r matches Err(
            AdmitJobError::Repository(same),
        ) && same == error),
{
}

/// A step whose preconditions are not satisfied is told by the reason, about the step
/// and the job that were asked for.
pub proof fn preconditions_are_told_by_their_reason(
    job_id: JobId,
    step_id: JobStepId,
    decided: Result<JobStep, JobStepEligibilityError>,
    r: Result<JobStep, SatisfyStepPreconditionsError>,
)
    requires
        call_ensures(satisfy_current_step_preconditions, (job_id, step_id, decided), r),
    ensures
        decided is Ok <==> r is Ok,
        decided matches Ok(step) ==> r->Ok_0 == step,
        decided matches Err(JobStepEligibilityError::JobNotRunning) <==> (r matches Err(
            SatisfyStepPreconditionsError::JobNotRunning(job),
        ) && job == job_id),
        decided matches Err(JobStepEligibilityError::StepNotFound) <==> (r matches Err(
            SatisfyStepPreconditionsError::JobStepNotFound(step, job),
        ) && step == step_id && job == job_id),
        decided matches Err(JobStepEligibilityError::NotCurrent) <==> (r matches Err(
            SatisfyStepPreconditionsError::NotCurrent(step),
        ) && step == step_id),
{
}

/// The job of an admission is locked as it is stored, or is told not to be there.
pub proof fn admission_locks_the_job_as_stored(
    job_id: JobId,
    found: Option<(JobRow, Vec<JobStepRow>)>,
    r: Result<Job, AdmitJobError>,
)
    requires
        call_ensures(lock_admission, (job_id, found), r),
    ensures
        found is None <==> (r matches Err(AdmitJobError::JobNotFound(id)) && id == job_id),
        found matches Some((row, rows)) ==> (r is Err ==> r->Err_0 is Repository),
        found matches Some((row, rows)) ==> (r matches Ok(locked) ==> {
            &&& locked.id == job_id
            &&& locked.endpoint_id.0 == row.endpoint_id
            &&& locked.state == row.state
            &&& locked.steps@.len() == rows@.len()
            &&& forall|i: int|
                0 <= i < rows@.len() ==> (#[trigger] locked.steps@[i]).id.0 == rows@[i].id
                    && locked.steps@[i].state == rows@[i].state
        }),
{
    if found is Some && r is Ok {
        let rows = found->Some_0.1;
        let job = r->Ok_0;
        assert forall|i: int| 0 <= i < rows@.len() implies (#[trigger] job.steps@[i]).id.0
            == rows@[i].id && job.steps@[i].state == rows@[i].state by {
            assert(rows@[i].job_step() == Ok::<JobStep, Seq<char>>(job.steps@[i]));
        }
    }
}

/// The same of the job whose step's preconditions are to be satisfied.
pub proof fn preconditions_lock_the_job_as_stored(
    job_id: JobId,
    found: Option<(JobRow, Vec<JobStepRow>)>,
    r: Result<Job, SatisfyStepPreconditionsError>,
)
    requires
        call_ensures(lock_preconditions, (job_id, found), r),
    ensures
        found is None <==> (r matches Err(SatisfyStepPreconditionsError::JobNotFound(id)) && id == job_id),
        found matches Some((row, rows)) ==> (r is Err ==> r->Err_0 is Repository),
        found matches Some((row, rows)) ==> (r matches Ok(locked) ==> {
            &&& locked.id == job_id
            &&& locked.endpoint_id.0 == row.endpoint_id
            &&& locked.state == row.state
            &&& locked.steps@.len() == rows@.len()
            &&& forall|i: int|
                0 <= i < rows@.len() ==> (#[trigger] locked.steps@[i]).id.0 == rows@[i].id
                    && locked.steps@[i].state == rows@[i].state
        }),
{
    if found is Some && r is Ok {
        let rows = found->Some_0.1;
        let job = r->Ok_0;
        assert forall|i: int| 0 <= i < rows@.len() implies (#[trigger] job.steps@[i]).id.0
            == rows@[i].id && job.steps@[i].state == rows@[i].state by {
            assert(rows@[i].job_step() == Ok::<JobStep, Seq<char>>(job.steps@[i]));
        }
    }
}

/// The same of the job of a destructive dispatch.
pub proof fn dispatch_locks_the_job_as_stored<R>(
    job_id: JobId,
    found: Option<(JobRow, Vec<JobStepRow>)>,
    r: Result<DispatchJob, CommitDestructiveDispatchError<R>>,
)
    requires
        call_ensures(DispatchJob::lock::<R>, (job_id, found), r),
    ensures
        found is None <==> (r matches Err(CommitDestructiveDispatchError::JobNotFound(id)) && id == job_id),
        found matches Some((row, rows)) ==> (r is Err ==> r->Err_0 is Repository),
        found matches Some((row, rows)) ==> (r matches Ok(locked) ==> {
            &&& locked.job.id == job_id
            &&& locked.job.endpoint_id.0 == row.endpoint_id
            &&& locked.job.state == row.state
            &&& locked.job.steps@.len() == rows@.len()
            &&& forall|i: int|
                0 <= i < rows@.len() ==> (#[trigger] locked.job.steps@[i]).id.0 == rows@[i].id
                    && locked.job.steps@[i].state == rows@[i].state
        }),
{
    if found is Some && r is Ok {
        let rows = found->Some_0.1;
        let job = r->Ok_0.job;
        assert forall|i: int| 0 <= i < rows@.len() implies (#[trigger] job.steps@[i]).id.0
            == rows@[i].id && job.steps@[i].state == rows@[i].state by {
            assert(rows@[i].job_step() == Ok::<JobStep, Seq<char>>(job.steps@[i]));
        }
    }
}

/// The guard of a destructive dispatch sees the job, the endpoint, the inventory and
/// whether an attempt is active as they were read under the locks.
pub proof fn dispatch_facts_are_what_was_locked<R>(
    job: DispatchJob,
    endpoint: EndpointAggregate,
    locked: Result<DispatchEndpoint, CommitDestructiveDispatchError<R>>,
    revision: Option<u128>,
    existing_active_attempt: bool,
    facts: FinalDispatchFacts,
)
    requires
        call_ensures(DispatchJob::with_endpoint::<R>, (job, Ok(Some(endpoint))), locked),
        locked matches Ok(both) && call_ensures(
            DispatchEndpoint::facts,
            (both, revision, existing_active_attempt),
            facts,
        ),
    ensures
        facts.job == job.job,
        facts.endpoint == endpoint,
        facts.existing_active_attempt == existing_active_attempt,
        facts.current_inventory_revision_id is Some <==> revision is Some,
        facts.current_inventory_revision_id matches Some(id) ==> Some(id.0) == revision,
{
}

/// A dispatch whose endpoint cannot be had is a fault of the storage.
pub proof fn dispatch_needs_its_endpoint<R>(
    job: DispatchJob,
    found: Result<Option<EndpointAggregate>, RepositoryError>,
    locked: Result<DispatchEndpoint, CommitDestructiveDispatchError<R>>,
)
    requires
        call_ensures(DispatchJob::with_endpoint::<R>, (job, found), locked),
    ensures
        locked is Ok <==> found matches Ok(Some(_)),
        locked is Err ==> locked->Err_0 is Repository,
        found matches Err(fault) ==> locked->Err_0->Repository_0 == fault,
        found matches Ok(None) ==> locked->Err_0->Repository_0.text()
            == "job references an endpoint that no longer exists"@,
{
}

/// A committed dispatch writes the attempt that was committed, for the step that it
/// was asked for; read back, it is that attempt. A rejected one puts the step back as
/// the guard said, or writes nothing.
pub proof fn committed_attempt_survives_storage<R>(
    step_id: JobStepId,
    decided: Result<FinalDispatchCommit, FinalDispatchDenial<R>>,
    r: DispatchTransaction<R>,
    read: Attempt,
)
    requires
        call_ensures(commit_destructive_dispatch::<R>, (step_id, decided), r),
        r matches DispatchTransaction::Commit { attempt, .. } ==> call_ensures(
            row_to_attempt,
            (attempt,),
            read,
        ),
    ensures
        r is Commit <==> decided is Ok,
        decided matches Ok(commit) ==> {
            &&& read.id == commit.outcome.attempt.id
            &&& read.action_id == commit.outcome.attempt.action_id
            &&& read.state == commit.outcome.attempt.state
            &&& read.job_step_id == step_id
            &&& r->Commit_step_state == commit.outcome.job_step.state
            &&& r->outcome == commit.outcome
            &&& r->audit.attempt_id == (match commit.audit.attempt_id {
                Some(id) => Some(id.0),
                None => None,
            })
            &&& r->audit.detail@ == commit.audit.detail@
        },
        decided matches Err(denial) ==> {
            &&& denial.pending_job_step is None <==> r is Rollback
            &&& denial.pending_job_step matches Some(step) ==> (r
                matches DispatchTransaction::PutBack { step_state, rejection } && step_state
                == step.state && rejection == denial.rejection)
            &&& r matches DispatchTransaction::Rollback { rejection } ==> rejection
                == denial.rejection
        },
{
}

/// Evidence is decided on the attempt, the step and the job that were locked, and only
/// for the endpoint that the job belongs to.
pub proof fn evidence_is_decided_on_what_was_locked(
    row: AttemptRow,
    attempt: Result<LockedAttempt, ApplyActionEvidenceError>,
    step_row: JobStepRow,
    step: Result<LockedStep, ApplyActionEvidenceError>,
    job_row: JobRow,
    job: Result<LockedJob, ApplyActionEvidenceError>,
    rows: Vec<JobStepRow>,
    authenticated: EndpointId,
    facts: Result<EvidenceFacts, ApplyActionEvidenceError>,
)
    requires
        call_ensures(LockedAttempt::lock, (Some(row),), attempt),
        attempt matches Ok(locked) && call_ensures(
            LockedAttempt::with_step,
            (locked, Some(step_row)),
            step,
        ),
        step matches Ok(locked) && call_ensures(LockedStep::with_job, (locked, Some(job_row)), job),
        job matches Ok(locked) && call_ensures(
            LockedJob::facts,
            (locked, rows, authenticated),
            facts,
        ),
    ensures
        facts is Ok ==> job_row.endpoint_id == authenticated.0,
        facts matches Err(ApplyActionEvidenceError::UnknownAction) ==> job_row.endpoint_id
            != authenticated.0,
        facts matches Ok(facts) ==> {
            &&& facts.attempt.id.0 == row.id
            &&& facts.attempt.job_step_id.0 == row.job_step_id
            &&& facts.attempt.action_id.0 == row.action_id
            &&& facts.attempt.state == row.state
            &&& facts.job_step.id.0 == step_row.id
            &&& facts.job_step.job_id.0 == step_row.job_id
            &&& facts.job_step.state == step_row.state
            &&& facts.job_step.failure_reason == step_row.failure_reason
            &&& facts.job.id.0 == step_row.job_id
            &&& facts.job.endpoint_id.0 == job_row.endpoint_id
            &&& facts.job.state == job_row.state
            &&& facts.job.steps@.len() == rows@.len()
        },
{
}

/// An action that no attempt has is unknown; an attempt without its step, or a step
/// without its job, is a fault of the storage.
pub proof fn evidence_needs_its_attempt_step_and_job(
    attempt: Result<LockedAttempt, ApplyActionEvidenceError>,
    locked_attempt: LockedAttempt,
    step: Result<LockedStep, ApplyActionEvidenceError>,
    locked_step: LockedStep,
    job: Result<LockedJob, ApplyActionEvidenceError>,
)
    requires
        call_ensures(LockedAttempt::lock, (None,), attempt),
        call_ensures(LockedAttempt::with_step, (locked_attempt, None), step),
        call_ensures(LockedStep::with_job, (locked_step, None), job),
    ensures
        attempt matches Err(ApplyActionEvidenceError::UnknownAction),
        step matches Err(ApplyActionEvidenceError::Repository(fault)) && fault.text()
            == "attempt references a job_step that no longer exists"@,
        job matches Err(ApplyActionEvidenceError::Repository(fault)) && fault.text()
            == "job_step references a job that no longer exists"@,
{
}

/// Evidence writes exactly where it was applied, and then the new states of the
/// attempt, the step and the job, the step's failure reason, every event and the audit
/// record; anything else writes nothing and is told as it was decided.
pub proof fn evidence_is_written_whole_or_not_at_all(
    decided: EvidenceDecision,
    r: EvidenceTransaction,
)
    requires
        call_ensures(apply_action_evidence, (decided,), r),
    ensures
        r is Commit <==> decided is Applied,
        decided is NoOp <==> (r matches EvidenceTransaction::Rollback { result } && result is NoOp),
        decided is Conflict <==> (r matches EvidenceTransaction::Rollback { result } && result
            is Conflict),
        decided matches EvidenceDecision::Applied(commit) ==> {
            &&& r->applied == commit.outcome
            &&& r->writes.attempt_id == commit.outcome.attempt.id
            &&& r->writes.attempt_state == commit.outcome.attempt.state
            &&& r->writes.job_step_id == commit.outcome.job_step.id
            &&& r->writes.job_step_state == commit.outcome.job_step.state
            &&& r->writes.failure_reason == commit.outcome.job_step.failure_reason
            &&& r->writes.job_id == commit.outcome.job.id
            &&& r->writes.job_state == commit.outcome.job.state
            &&& r->writes.events@.len() == commit.outcome.events@.len()
            &&& forall|i: int|
                0 <= i < commit.outcome.events@.len() ==> {
                    &&& (#[trigger] r->writes.events@[i]).event_id
                        == commit.outcome.events@[i].event_id
                    &&& r->writes.events@[i].endpoint_id
                        == commit.outcome.events@[i].endpoint_id.0
                    &&& r->writes.events@[i].job_id is Some
                        <==> commit.outcome.events@[i].job_id is Some
                    &&& commit.outcome.events@[i].job_id matches Some(id)
                        ==> r->writes.events@[i].job_id == Some(id.0)
                    &&& commit.outcome.events@[i].job_step_id matches Some(id)
                        ==> r->writes.events@[i].job_step_id == Some(id.0)
                }
            &&& r->writes.audit is Some <==> commit.audit is Some
            &&& commit.audit matches Some(record) ==> r->writes.audit->Some_0.detail@
                == record.detail@ && r->writes.audit->Some_0.audit_id == record.audit_id
        },
{
}

/// A candidate that is still running, or of an outcome not yet known, comes back from
/// its lock as the active attempt, as its row has it; one that has come to an end does
/// not.
pub proof fn running_candidate_is_the_active_attempt(
    candidate: CandidateLock,
    row: AttemptRow,
    r: Result<JobLock, RequestCancellationError>,
)
    requires
        call_ensures(CandidateLock::locked, (candidate, Some(row)), r),
    ensures
        r matches Ok(lock) && {
            &&& lock.job_id == candidate.job_id
            &&& lock.passes_remaining == candidate.passes_remaining
            &&& lock.had_candidate
            &&& lock.active_attempt is Some <==> !(row.state is Succeeded || row.state is Failed
                || row.state is Cancelled || row.state is Rejected || row.state is Indeterminate)
            &&& lock.active_attempt matches Some(attempt) ==> attempt.id.0 == row.id
                && attempt.job_step_id.0 == row.job_step_id && attempt.action_id.0 == row.action_id
                && attempt.state == row.state
        },
{
}

/// A running attempt that the scan found is what the cancellation is decided on.
pub proof fn running_attempt_reaches_the_decision(
    scan: CancellationScan,
    found: Vec<u128>,
    candidate: CandidateLock,
    row: AttemptRow,
    lock: JobLock,
    job_row: JobRow,
    read: JobRead,
    rows: Vec<JobStepRow>,
    facts: CancellationFacts,
)
    requires
        call_ensures(
            CancellationScan::scanned,
            (scan, &found),
            Ok(AfterScan::LockAttempt(candidate)),
        ),
        call_ensures(CandidateLock::locked, (candidate, Some(row)), Ok(lock)),
        call_ensures(JobLock::locked, (lock, Some(job_row)), Ok(AfterJobLock::Read(read))),
        call_ensures(JobRead::facts, (read, rows), Ok(facts)),
    ensures
        found@.len() == 1 && candidate.attempt_id.0 == found@[0],
        facts.job.id == scan.job_id,
        facts.job.state == job_row.state,
        facts.job.endpoint_id.0 == job_row.endpoint_id,
        row.state is Dispatched || row.state is InProgress || row.state is AwaitingReconciliation
            <==> facts.active_attempt is Some,
        facts.active_attempt matches Some(attempt) ==> attempt.id.0 == row.id && attempt.state
            == row.state,
{
}

/// Two attempts that look active at once are never chosen between.
pub proof fn ambiguous_scan_is_a_fault(
    scan: CancellationScan,
    rescan: JobRescan,
    found: Vec<u128>,
    first: Result<AfterScan, RequestCancellationError>,
    second: Result<AfterRescan, RequestCancellationError>,
)
    requires
        call_ensures(CancellationScan::scanned, (scan, &found), first),
        call_ensures(JobRescan::rescanned, (rescan, &found), second),
        found@.len() >= 2,
    ensures
        first matches Err(RequestCancellationError::Repository(fault)) && fault.text()
            == "invariant violation: more than one simultaneously active/uncertain attempt for job"@,
        second matches Err(RequestCancellationError::Repository(fault)) && fault.text()
            == "invariant violation: more than one simultaneously active/uncertain attempt for job"@,
{
}

/// An attempt that shows up behind the job's lock is never decided on in that pass:
/// the passes go on, each with one fewer left, and end in a fault. Where none shows up
/// the request is decided without one.
pub proof fn late_attempt_costs_a_pass(
    rescan: JobRescan,
    found: Vec<u128>,
    r: Result<AfterRescan, RequestCancellationError>,
)
    requires
        call_ensures(JobRescan::rescanned, (rescan, &found), r),
        1 <= rescan.passes_remaining,
        found@.len() <= 1,
    ensures
        found@.len() == 0 <==> (r matches Ok(AfterRescan::Read(read)) && read.job_id
            == rescan.job_id && read.row == rescan.row && read.active_attempt is None),
        found@.len() == 1 && rescan.passes_remaining >= 2 <==> (r matches Ok(
            AfterRescan::Again(scan),
        ) && scan.job_id == rescan.job_id && scan.passes_remaining + 1 == rescan.passes_remaining),
        found@.len() == 1 && rescan.passes_remaining == 1 <==> r is Err,
        r matches Err(error) ==> error is Repository && error->Repository_0.text()
            == "request_cancellation: exceeded retry budget resolving the active Attempt race against final dispatch"@,
{
}

/// A request begins with its first pass, and its job is locked only where it is there.
pub proof fn request_begins_and_locks_its_job(
    job_id: JobId,
    scan: CancellationScan,
    lock: JobLock,
    found: Option<JobRow>,
    r: Result<AfterJobLock, RequestCancellationError>,
)
    requires
        call_ensures(CancellationScan::begin, (job_id,), scan),
        call_ensures(JobLock::locked, (lock, found), r),
    ensures
        scan.job_id == job_id,
        scan.passes_remaining == 7,
        found is None <==> (r matches Err(RequestCancellationError::JobNotFound(id)) && id
            == lock.job_id),
        found is Some ==> r is Ok,
        found matches Some(row) ==> (lock.had_candidate <==> (r matches Ok(
            AfterJobLock::Read(read),
        ) && read.job_id == lock.job_id && read.row == row && read.active_attempt
            == lock.active_attempt)),
        found matches Some(row) ==> (!lock.had_candidate <==> (r matches Ok(
            AfterJobLock::Rescan(rescan),
        ) && rescan.job_id == lock.job_id && rescan.row == row && rescan.passes_remaining
            == lock.passes_remaining)),
{
}

/// A candidate that is gone under its lock is a fault of the storage.
pub proof fn vanished_candidate_is_a_fault(
    candidate: CandidateLock,
    r: Result<JobLock, RequestCancellationError>,
)
    requires
        call_ensures(CandidateLock::locked, (candidate, None), r),
    ensures
        r matches Err(RequestCancellationError::Repository(fault)) && fault.text()
            == "candidate active attempt disappeared under lock"@,
{
}

/// A cancellation writes exactly where it changes the job, and then the job's new
/// state and the audit record; an event goes with it exactly where the job ended at
/// once. Whoever asked is told of the attempt, the action and the endpoint that are
/// still at work.
pub proof fn cancellation_is_written_where_it_changes_the_job(
    job_id: JobId,
    decided: Result<CancellationRequestDecided, CancellationRequestError>,
    r: CancellationTransaction,
)
    requires
        call_ensures(request_cancellation, (job_id, decided), r),
    ensures
        r is Commit <==> (decided matches Ok(change) && (change is EnteredCancelling || change
            is CompletedImmediately)),
        decided is Err ==> (r matches CancellationTransaction::Rollback(
            Err(RequestCancellationError::NotEligible(id)),
        ) && id == job_id),
        decided matches Ok(CancellationRequestDecided::AlreadyCancelling)
            <==> r matches CancellationTransaction::Rollback(
            Ok(RequestCancellationResult::AlreadyCancelling),
        ),
        decided matches Ok(CancellationRequestDecided::AlreadyTerminal)
            <==> r matches CancellationTransaction::Rollback(
            Ok(RequestCancellationResult::AlreadyTerminal),
        ),
        decided matches Ok(
            CancellationRequestDecided::EnteredCancelling { job, attempt_id, action_id, audit },
        ) ==> {
            &&& r->job_state == job.state
            &&& r->event is None
            &&& r->Commit_audit.audit_id == audit.audit_id
            &&& r->Commit_audit.detail@ == audit.detail@
            &&& r->result matches RequestCancellationResult::EnteredCancelling {
                attempt_id: attempt,
                action_id: action,
                endpoint_id,
            } && attempt == attempt_id && action == action_id && endpoint_id == job.endpoint_id
        },
        decided matches Ok(
            CancellationRequestDecided::CompletedImmediately { job, event, audit },
        ) ==> {
            &&& r->job_state == job.state
            &&& r->event matches Some(row) && row.event_id == event.event_id && row.job_id == Some(
                job_id.0,
            )
            &&& r->Commit_audit.audit_id == audit.audit_id
            &&& r->result is CompletedImmediately
        },
{
}

} // verus!
