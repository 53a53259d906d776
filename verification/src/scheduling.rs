//! Workflows before they are dispatched: their creation, their admission, the
//! preconditions of their steps and the authorization of destructive ones.

use vstd::prelude::*;
use std::sync::Arc;
use crate::clock::{SystemClock, Timestamp};
use crate::errors::{
    AdmitJobError, ApplicationError, AuthorizeDestructiveIntentError, CreateWorkflowError,
    DomainFault, EndpointUpdateError, RepositoryError, SatisfyStepPreconditionsError,
};
use crate::ids::{EndpointId, InventoryRevisionId, JobId, JobStepId};
use crate::job_store::{
    self, authorize_destructive_intent, DestructiveIntentError, JobAdmissionError,
    JobAdmissionOutcome, JobStepEligibilityError, JobStepRow,
};
use crate::model::{DestructiveIntent, Job, JobStep, TargetFingerprint};

verus! {

/// Records what endpoints report about their hardware.
pub struct InventoryService<R, C> {
    pub repo: Arc<R>,
    pub clock: Arc<C>,
}

impl<R> InventoryService<R, SystemClock> {
    /// With the real clock.
    pub fn new(repo: Arc<R>) -> (r: Self)
        ensures
            r.repo == repo,
    {
        InventoryService { repo, clock: Arc::new(SystemClock) }
    }
}

impl<R, C> InventoryService<R, C> {
    pub fn with_clock(repo: Arc<R>, clock: Arc<C>) -> (r: Self)
        ensures
            r.repo == repo,
            r.clock == clock,
    {
        InventoryService { repo, clock }
    }

    /// What is told about a report: the new revision, or nothing where nothing
    /// changed.
    pub fn record<V>(recorded: Result<Option<V>, EndpointUpdateError>) -> (r: Result<
        Option<V>,
        ApplicationError,
    >)
        ensures
            match recorded {
                Ok(revision) => r == Ok::<Option<V>, ApplicationError>(revision),
                Err(EndpointUpdateError::NotFound(id)) => r == Err::<Option<V>, ApplicationError>(
                    ApplicationError::EndpointNotFound(id),
                ),
                Err(EndpointUpdateError::InvalidTransition(fault)) => r == Err::<
                    Option<V>,
                    ApplicationError,
                >(ApplicationError::InvalidTransition(fault)),
                Err(EndpointUpdateError::Repository(fault)) => r == Err::<
                    Option<V>,
                    ApplicationError,
                >(ApplicationError::Repository(fault)),
            },
    {
        match recorded {
            Ok(revision) => Ok(revision),
            Err(error) => Err(ApplicationError::from(error)),
        }
    }
}

/// Creates workflows.
pub struct JobService<J> {
    pub repo: Arc<J>,
}

impl<J> JobService<J> {
    pub fn new(repo: Arc<J>) -> (r: Self)
        ensures
            r.repo == repo,
    {
        JobService { repo }
    }

    /// The job that is to be persisted, as the workflow's rules make it of the
    /// endpoint and the number of steps. What they refuse is refused before
    /// anything is persisted.
    pub fn construct_workflow<F: FnOnce(EndpointId, usize) -> Result<Job, DomainFault>>(
        endpoint_id: EndpointId,
        step_count: usize,
        rule: F,
    ) -> (r: Result<Job, ApplicationError>)
        requires
            call_requires(rule, (endpoint_id, step_count)),
        ensures
            match r {
                Ok(job) => call_ensures(rule, (endpoint_id, step_count), Ok(job)),
                Err(error) => error matches ApplicationError::EmptyWorkflow(fault)
                    && call_ensures(rule, (endpoint_id, step_count), Err(fault)),
            },
    {
        let constructed = rule(endpoint_id, step_count);
        Self::create_workflow(constructed)
    }

    /// The job that is to be persisted. A workflow without steps is refused
    /// before anything is persisted.
    pub fn create_workflow(constructed: Result<Job, DomainFault>) -> (r: Result<
        Job,
        ApplicationError,
    >)
        ensures
            match constructed {
                Ok(job) => r == Ok::<Job, ApplicationError>(job),
                Err(fault) => r == Err::<Job, ApplicationError>(
                    ApplicationError::EmptyWorkflow(fault),
                ),
            },
    {
        match constructed {
            Ok(job) => Ok(job),
            Err(fault) => Err(ApplicationError::EmptyWorkflow(fault)),
        }
    }

    /// What is told once persisting the job was tried: the job itself, or why it
    /// is not there.
    pub fn workflow_persisted(job: Job, persisted: Result<(), CreateWorkflowError>) -> (r: Result<
        Job,
        ApplicationError,
    >)
        ensures
            match persisted {
                Ok(()) => r == Ok::<Job, ApplicationError>(job),
                Err(CreateWorkflowError::EndpointNotFound(id)) => r == Err::<Job, ApplicationError>(
                    ApplicationError::EndpointNotFound(id),
                ),
                Err(CreateWorkflowError::EndpointNotEnrolled(id)) => r == Err::<
                    Job,
                    ApplicationError,
                >(ApplicationError::EndpointNotEnrolled(id)),
                Err(CreateWorkflowError::Repository(fault)) => r == Err::<Job, ApplicationError>(
                    ApplicationError::Repository(fault),
                ),
            },
    {
        match persisted {
            Ok(()) => Ok(job),
            Err(error) => Err(ApplicationError::from(error)),
        }
    }
}

/// Schedules jobs.
pub struct JobSchedulingService<J, C> {
    pub repo: Arc<J>,
    pub clock: Arc<C>,
}

impl<J> JobSchedulingService<J, SystemClock> {
    /// With the real clock.
    pub fn new(repo: Arc<J>) -> (r: Self)
        ensures
            r.repo == repo,
    {
        JobSchedulingService { repo, clock: Arc::new(SystemClock) }
    }
}

impl<J, C> JobSchedulingService<J, C> {
    pub fn with_clock(repo: Arc<J>, clock: Arc<C>) -> (r: Self)
        ensures
            r.repo == repo,
            r.clock == clock,
    {
        JobSchedulingService { repo, clock }
    }

    /// Decides, under the job's lock, whether it is admitted: the workflow is asked
    /// about the locked job and this moment.
    pub fn decide_admission<
        F: FnOnce(&Job, Timestamp) -> Result<JobAdmissionOutcome, JobAdmissionError>,
    >(job: &Job, now: Timestamp, rule: F) -> (r: Result<JobAdmissionOutcome, JobAdmissionError>)
        requires
            call_requires(rule, (job, now)),
        ensures
            call_ensures(rule, (job, now), r),
    {
        rule(job, now)
    }

    /// What is told about an admission.
    pub fn admit_job(admitted: Result<Job, AdmitJobError>) -> (r: Result<Job, ApplicationError>)
        ensures
            match admitted {
                Ok(job) => r == Ok::<Job, ApplicationError>(job),
                Err(AdmitJobError::JobNotFound(id)) => r == Err::<Job, ApplicationError>(
                    ApplicationError::JobNotFound(id),
                ),
                Err(AdmitJobError::NotEligible(id)) => r == Err::<Job, ApplicationError>(
                    ApplicationError::JobNotEligibleForAdmission(id),
                ),
                Err(AdmitJobError::EndpointNotAvailable) => r == Err::<Job, ApplicationError>(
                    ApplicationError::EndpointNotAvailable,
                ),
                Err(AdmitJobError::Repository(fault)) => r == Err::<Job, ApplicationError>(
                    ApplicationError::Repository(fault),
                ),
            },
    {
        match admitted {
            Ok(job) => Ok(job),
            Err(error) => Err(ApplicationError::from(error)),
        }
    }

    /// Decides, under the job's lock, whether a step's preconditions are satisfied:
    /// the workflow is asked about the locked job and exactly that step.
    pub fn decide_preconditions<
        F: FnOnce(&Job, JobStepId) -> Result<JobStep, JobStepEligibilityError>,
    >(job: &Job, step_id: JobStepId, rule: F) -> (r: Result<JobStep, JobStepEligibilityError>)
        requires
            call_requires(rule, (job, step_id)),
        ensures
            call_ensures(rule, (job, step_id), r),
    {
        rule(job, step_id)
    }

    /// What is told about a step whose preconditions were to be satisfied.
    pub fn satisfy_current_step_preconditions(
        satisfied: Result<JobStep, SatisfyStepPreconditionsError>,
    ) -> (r: Result<JobStep, ApplicationError>)
        ensures
            match satisfied {
                Ok(step) => r == Ok::<JobStep, ApplicationError>(step),
                Err(SatisfyStepPreconditionsError::JobNotFound(id)) => r == Err::<
                    JobStep,
                    ApplicationError,
                >(ApplicationError::JobNotFound(id)),
                Err(SatisfyStepPreconditionsError::JobNotRunning(id)) => r == Err::<
                    JobStep,
                    ApplicationError,
                >(ApplicationError::JobNotRunning(id)),
                Err(SatisfyStepPreconditionsError::JobStepNotFound(step, job)) => r == Err::<
                    JobStep,
                    ApplicationError,
                >(ApplicationError::JobStepNotFound(step, job)),
                Err(SatisfyStepPreconditionsError::NotCurrent(step)) => r == Err::<
                    JobStep,
                    ApplicationError,
                >(ApplicationError::JobStepNotCurrent(step)),
                Err(SatisfyStepPreconditionsError::Repository(fault)) => r == Err::<
                    JobStep,
                    ApplicationError,
                >(ApplicationError::Repository(fault)),
            },
    {
        match satisfied {
            Ok(step) => Ok(step),
            Err(error) => Err(ApplicationError::from(error)),
        }
    }
}

/// `step_id` is one of the job's steps.
pub open spec fn has_step(job: Job, step_id: JobStepId) -> bool {
    exists|i: int| 0 <= i < job.steps@.len() && (#[trigger] job.steps@[i]).id == step_id
}

/// Whether `step_id` is one of the job's steps.
pub fn job_has_step(job: &Job, step_id: JobStepId) -> (r: bool)
    ensures
        r == has_step(*job, step_id),
{
    let mut i: usize = 0;
    while i < job.steps.len()
        invariant
            i <= job.steps@.len(),
            forall|j: int| 0 <= j < i ==> (#[trigger] job.steps@[j]).id != step_id,
        decreases job.steps@.len() - i,
    {
        if job.steps[i].id == step_id {
            return true;
        }
        i = i + 1;
    }
    false
}

/// An authorization under way: the step is the job's, and the endpoint's
/// inventory is still to be read.
#[derive(Clone, Copy, Debug, PartialEq, Eq, Structural)]
pub struct IntentRequest {
    pub job_id: JobId,
    pub step_id: JobStepId,
    pub endpoint_id: EndpointId,
}

/// An authorization under way: the inventory is known, and the endpoint's target
/// is still to be read.
#[derive(Clone, Copy, Debug, PartialEq, Eq, Structural)]
pub struct IntentWithInventory {
    pub request: IntentRequest,
    pub inventory_revision_id: InventoryRevisionId,
}

/// Both pieces of evidence that an authorization rests on.
#[derive(Debug)]
pub struct IntentEvidence {
    pub request: IntentRequest,
    pub inventory_revision_id: InventoryRevisionId,
    pub target_fingerprint: TargetFingerprint,
}

/// Authorizes destructive steps.
pub struct DestructiveIntentService<J, I, T> {
    pub job_repo: Arc<J>,
    pub inventory_repo: Arc<I>,
    pub target_revalidation: Arc<T>,
}

impl<J, I, T> DestructiveIntentService<J, I, T> {
    pub fn new(job_repo: Arc<J>, inventory_repo: Arc<I>, target_revalidation: Arc<T>) -> (r: Self)
        ensures
            r.job_repo == job_repo,
            r.inventory_repo == inventory_repo,
            r.target_revalidation == target_revalidation,
    {
        DestructiveIntentService { job_repo, inventory_repo, target_revalidation }
    }

    /// Starts an authorization. The endpoint is the job's own; whoever asks has
    /// no say in it.
    pub fn authorize(
        job_id: JobId,
        step_id: JobStepId,
        found: Result<Option<Job>, RepositoryError>,
    ) -> (r: Result<IntentRequest, ApplicationError>)
        ensures
            match found {
                Ok(Some(job)) => if has_step(job, step_id) {
                    r == Ok::<IntentRequest, ApplicationError>(
                        IntentRequest { job_id, step_id, endpoint_id: job.endpoint_id },
                    )
                } else {
                    r == Err::<IntentRequest, ApplicationError>(
                        ApplicationError::JobStepNotFound(step_id, job_id),
                    )
                },
                Ok(None) => r == Err::<IntentRequest, ApplicationError>(
                    ApplicationError::JobNotFound(job_id),
                ),
                Err(fault) => r == Err::<IntentRequest, ApplicationError>(
                    ApplicationError::Repository(fault),
                ),
            },
    {
        match found {
            Ok(Some(job)) => {
                if job_has_step(&job, step_id) {
                    Ok(IntentRequest { job_id, step_id, endpoint_id: job.endpoint_id })
                } else {
                    Err(ApplicationError::JobStepNotFound(step_id, job_id))
                }
            },
            Ok(None) => Err(ApplicationError::JobNotFound(job_id)),
            Err(fault) => Err(ApplicationError::Repository(fault)),
        }
    }

    /// What is told about an authorization that was tried under the lock.
    pub fn authorized(decided: Result<DestructiveIntent, AuthorizeDestructiveIntentError>) -> (r:
        Result<DestructiveIntent, ApplicationError>)
        ensures
            match decided {
                Ok(intent) => r == Ok::<DestructiveIntent, ApplicationError>(intent),
                Err(AuthorizeDestructiveIntentError::JobStepNotFound(step, job)) => r == Err::<
                    DestructiveIntent,
                    ApplicationError,
                >(ApplicationError::JobStepNotFound(step, job)),
                Err(AuthorizeDestructiveIntentError::NotEligible(step)) => r == Err::<
                    DestructiveIntent,
                    ApplicationError,
                >(ApplicationError::JobStepNotEligible(step)),
                Err(AuthorizeDestructiveIntentError::AlreadyAuthorized(step)) => r == Err::<
                    DestructiveIntent,
                    ApplicationError,
                >(ApplicationError::JobStepAlreadyAuthorized(step)),
                Err(AuthorizeDestructiveIntentError::Repository(fault)) => r == Err::<
                    DestructiveIntent,
                    ApplicationError,
                >(ApplicationError::Repository(fault)),
            },
    {
        match decided {
            Ok(intent) => Ok(intent),
            Err(error) => Err(ApplicationError::from(error)),
        }
    }
}

impl IntentRequest {
    /// Adds the endpoint's current inventory. Without one there is nothing to
    /// authorize against.
    pub fn with_inventory(
        self,
        current: Result<Option<InventoryRevisionId>, EndpointUpdateError>,
    ) -> (r: Result<IntentWithInventory, ApplicationError>)
        ensures
            match current {
                Ok(Some(revision)) => r == Ok::<IntentWithInventory, ApplicationError>(
                    IntentWithInventory { request: self, inventory_revision_id: revision },
                ),
                Ok(None) => r == Err::<IntentWithInventory, ApplicationError>(
                    ApplicationError::NoCurrentInventory(self.endpoint_id),
                ),
                Err(EndpointUpdateError::NotFound(id)) => r == Err::<
                    IntentWithInventory,
                    ApplicationError,
                >(ApplicationError::EndpointNotFound(id)),
                Err(EndpointUpdateError::InvalidTransition(fault)) => r == Err::<
                    IntentWithInventory,
                    ApplicationError,
                >(ApplicationError::InvalidTransition(fault)),
                Err(EndpointUpdateError::Repository(fault)) => r == Err::<
                    IntentWithInventory,
                    ApplicationError,
                >(ApplicationError::Repository(fault)),
            },
    {
        match current {
            Ok(Some(revision)) => Ok(
                IntentWithInventory { request: self, inventory_revision_id: revision },
            ),
            Ok(None) => Err(ApplicationError::NoCurrentInventory(self.endpoint_id)),
            Err(error) => Err(ApplicationError::from(error)),
        }
    }
}

impl IntentWithInventory {
    /// Adds the endpoint's current target. Without one there is nothing to
    /// authorize against.
    pub fn with_target(self, current: Option<TargetFingerprint>) -> (r: Result<
        IntentEvidence,
        ApplicationError,
    >)
        ensures
            match current {
                Some(target) => r == Ok::<IntentEvidence, ApplicationError>(
                    IntentEvidence {
                        request: self.request,
                        inventory_revision_id: self.inventory_revision_id,
                        target_fingerprint: target,
                    },
                ),
                None => r == Err::<IntentEvidence, ApplicationError>(
                    ApplicationError::NoCurrentTarget(self.request.endpoint_id),
                ),
            },
    {
        match current {
            Some(target) => Ok(
                IntentEvidence {
                    request: self.request,
                    inventory_revision_id: self.inventory_revision_id,
                    target_fingerprint: target,
                },
            ),
            None => Err(ApplicationError::NoCurrentTarget(self.request.endpoint_id)),
        }
    }
}

impl IntentEvidence {
    /// Decides, under the lock, whether the step is authorized: the workflow is
    /// asked about the locked step, the job it is asked for, and exactly this
    /// evidence.
    pub fn decide<
        E,
        F: FnOnce(&JobStep, JobId, InventoryRevisionId, TargetFingerprint) -> Result<
            DestructiveIntent,
            E,
        >,
    >(self, step: &JobStep, workflow: F) -> (r: Result<DestructiveIntent, E>)
        requires
            call_requires(
                workflow,
                (step, self.request.job_id, self.inventory_revision_id, self.target_fingerprint),
            ),
        ensures
            call_ensures(
                workflow,
                (step, self.request.job_id, self.inventory_revision_id, self.target_fingerprint),
                r,
            ),
    {
        workflow(step, self.request.job_id, self.inventory_revision_id, self.target_fingerprint)
    }
}

/// What the workflow refuses as authorized already is told as that, and writes
/// nothing: the step keeps the intent it has.
pub proof fn refused_authorization_writes_nothing<
    J,
    I,
    T,
    F: FnOnce(&JobStep, JobId, InventoryRevisionId, TargetFingerprint) -> Result<
        DestructiveIntent,
        DestructiveIntentError,
    >,
>(
    evidence: IntentEvidence,
    row: JobStepRow,
    step: JobStep,
    workflow: F,
    decided: Result<DestructiveIntent, DestructiveIntentError>,
    committed: Result<DestructiveIntent, AuthorizeDestructiveIntentError>,
    told: Result<DestructiveIntent, ApplicationError>,
)
    requires
        row.job_step() == Ok::<JobStep, Seq<char>>(step),
        call_ensures(
            IntentEvidence::decide::<DestructiveIntentError, F>,
            (evidence, &step, workflow),
            decided,
        ),
        decided == Err::<DestructiveIntent, DestructiveIntentError>(
            DestructiveIntentError::AlreadyAuthorized,
        ),
        call_ensures(
            authorize_destructive_intent,
            (evidence.request.job_id, evidence.request.step_id, decided),
            committed,
        ),
        call_ensures(DestructiveIntentService::<J, I, T>::authorized, (committed,), told),
    ensures
        told == Err::<DestructiveIntent, ApplicationError>(
            ApplicationError::JobStepAlreadyAuthorized(evidence.request.step_id),
        ),
        job_store::row_after_authorization(row, committed) == row,
        job_store::row_after_authorization(row, committed).job_step() == Ok::<JobStep, Seq<char>>(
            step,
        ),
{
}

/// A step is authorized once. Where the workflow refuses a step that has an intent
/// already, a second authorization is refused as that, whatever the inventory and
/// the target are by then, and the stored intent is still the first one.
pub proof fn step_is_authorized_once<
    J,
    I,
    T,
    F: FnOnce(&JobStep, JobId, InventoryRevisionId, TargetFingerprint) -> Result<
        DestructiveIntent,
        DestructiveIntentError,
    >,
>(
    fresh: JobStepRow,
    first: DestructiveIntent,
    stored: JobStepRow,
    locked: JobStep,
    again: IntentEvidence,
    workflow: F,
    decided: Result<DestructiveIntent, DestructiveIntentError>,
    committed: Result<DestructiveIntent, AuthorizeDestructiveIntentError>,
    told: Result<DestructiveIntent, ApplicationError>,
)
    requires
        stored == job_store::row_after_authorization(
            fresh,
            Ok::<DestructiveIntent, AuthorizeDestructiveIntentError>(first),
        ),
        stored.job_step() == Ok::<JobStep, Seq<char>>(locked),
        forall|
            step: JobStep,
            job_id: JobId,
            revision: InventoryRevisionId,
            target: TargetFingerprint,
            answer: Result<DestructiveIntent, DestructiveIntentError>,
        |
            #[trigger] call_ensures(workflow, (&step, job_id, revision, target), answer)
                && step.destructive_intent is Some ==> answer == Err::<
                DestructiveIntent,
                DestructiveIntentError,
            >(DestructiveIntentError::AlreadyAuthorized),
        call_ensures(
            IntentEvidence::decide::<DestructiveIntentError, F>,
            (again, &locked, workflow),
            decided,
        ),
        call_ensures(
            authorize_destructive_intent,
            (again.request.job_id, again.request.step_id, decided),
            committed,
        ),
        call_ensures(DestructiveIntentService::<J, I, T>::authorized, (committed,), told),
    ensures
        told == Err::<DestructiveIntent, ApplicationError>(
            ApplicationError::JobStepAlreadyAuthorized(again.request.step_id),
        ),
        job_store::row_after_authorization(stored, committed) == stored,
        locked.destructive_intent == Some(first),
{
    refused_authorization_writes_nothing::<J, I, T, F>(
        again,
        stored,
        locked,
        workflow,
        decided,
        committed,
        told,
    );
}

/// An authorization starts exactly where the job is there and has the step; it is for
/// the job's own endpoint.
pub proof fn authorization_starts_for_a_step_of_the_job<J, I, T>(
    job_id: JobId,
    step_id: JobStepId,
    found: Result<Option<Job>, RepositoryError>,
    r: Result<IntentRequest, ApplicationError>,
)
    requires
        call_ensures(
            DestructiveIntentService::<J, I, T>::authorize,
            (job_id, step_id, found),
            r,
        ),
    ensures
        r is Ok <==> (found matches Ok(Some(job)) && exists|i: int|
            0 <= i < job.steps@.len() && (#[trigger] job.steps@[i]).id == step_id),
        r matches Ok(request) ==> request.job_id == job_id && request.step_id == step_id && (found
            matches Ok(Some(job)) && request.endpoint_id == job.endpoint_id),
        found matches Ok(None) <==> (r matches Err(ApplicationError::JobNotFound(id)) && id
            == job_id),
        found matches Ok(Some(job)) ==> (r matches Err(error) ==> error
            == ApplicationError::JobStepNotFound(step_id, job_id)),
        found matches Err(fault) ==> (r matches Err(ApplicationError::Repository(same)) && same
            == fault),
{
}

/// Whether a job has a step is whether one of its steps is that one.
pub proof fn job_has_the_steps_it_lists(job: Job, step_id: JobStepId, r: bool)
    requires
        call_ensures(job_has_step, (&job, step_id), r),
    ensures
        forall|i: int|
            0 <= i < job.steps@.len() && (#[trigger] job.steps@[i]).id == step_id ==> r,
        r ==> exists|i: int| 0 <= i < job.steps@.len() && (#[trigger] job.steps@[i]).id == step_id,
{
}

/// An authorization rests on the inventory and the target that its endpoint has, and
/// is not to be had without either; the workflow rules on exactly these, for the job
/// that was asked for.
pub proof fn authorization_rests_on_current_inventory_and_target<
    E,
    F: FnOnce(&JobStep, JobId, InventoryRevisionId, TargetFingerprint) -> Result<
        DestructiveIntent,
        E,
    >,
>(
    request: IntentRequest,
    revision: Option<InventoryRevisionId>,
    with_inventory: Result<IntentWithInventory, ApplicationError>,
    target: Option<TargetFingerprint>,
    with_target: Result<IntentEvidence, ApplicationError>,
    step: JobStep,
    workflow: F,
    decided: Result<DestructiveIntent, E>,
)
    requires
        call_ensures(IntentRequest::with_inventory, (request, Ok(revision)), with_inventory),
        with_inventory matches Ok(known) ==> call_ensures(
            IntentWithInventory::with_target,
            (known, target),
            with_target,
        ),
        with_inventory is Ok ==> (with_target matches Ok(evidence) ==> call_ensures(
            IntentEvidence::decide::<E, F>,
            (evidence, &step, workflow),
            decided,
        )),
    ensures
        with_inventory is Ok <==> revision is Some,
        revision is None ==> (with_inventory matches Err(ApplicationError::NoCurrentInventory(id))
            && id == request.endpoint_id),
        revision is Some ==> (with_target is Ok <==> target is Some),
        revision is Some && target is None ==> (with_target matches Err(
            ApplicationError::NoCurrentTarget(id),
        ) && id == request.endpoint_id),
        revision is Some && target is Some ==> call_ensures(
            workflow,
            (&step, request.job_id, revision->Some_0, target->Some_0),
            decided,
        ),
{
}

/// An endpoint whose inventory cannot be had ends the authorization with the reason.
pub proof fn inventory_failure_ends_the_authorization(
    request: IntentRequest,
    error: EndpointUpdateError,
    r: Result<IntentWithInventory, ApplicationError>,
)
    requires
        call_ensures(IntentRequest::with_inventory, (request, Err(error)), r),
    ensures
        r is Err,
        error matches EndpointUpdateError::NotFound(id) ==> r->Err_0
            == ApplicationError::EndpointNotFound(id),
        error matches EndpointUpdateError::InvalidTransition(fault) ==> r->Err_0
            == ApplicationError::InvalidTransition(fault),
        error matches EndpointUpdateError::Repository(fault) ==> r->Err_0
            == ApplicationError::Repository(fault),
{
}

/// What became of an authorization is told by its reason.
pub proof fn authorization_outcome_is_told<J, I, T>(
    decided: Result<DestructiveIntent, AuthorizeDestructiveIntentError>,
    r: Result<DestructiveIntent, ApplicationError>,
)
    requires
        call_ensures(DestructiveIntentService::<J, I, T>::authorized, (decided,), r),
    ensures
        decided is Ok <==> r is Ok,
        decided matches Ok(intent) ==> r->Ok_0 == intent,
        decided matches Err(AuthorizeDestructiveIntentError::JobStepNotFound(step, job))
            ==> r->Err_0 == ApplicationError::JobStepNotFound(step, job),
        decided matches Err(AuthorizeDestructiveIntentError::NotEligible(step)) ==> r->Err_0
            == ApplicationError::JobStepNotEligible(step),
        decided matches Err(AuthorizeDestructiveIntentError::AlreadyAuthorized(step)) ==> r->Err_0
            == ApplicationError::JobStepAlreadyAuthorized(step),
        decided matches Err(AuthorizeDestructiveIntentError::Repository(fault)) ==> r->Err_0
            == ApplicationError::Repository(fault),
{
}

/// A workflow is made by its rules of the endpoint and the number of steps that were
/// asked for; what they refuse is told as a workflow without steps.
pub proof fn workflow_is_made_as_asked_for<
    J,
    F: FnOnce(EndpointId, usize) -> Result<Job, DomainFault>,
>(
    endpoint_id: EndpointId,
    step_count: usize,
    rule: F,
    r: Result<Job, ApplicationError>,
)
    requires
        call_ensures(
            JobService::<J>::construct_workflow::<F>,
            (endpoint_id, step_count, rule),
            r,
        ),
        forall|to: EndpointId, steps: usize, answer: Result<Job, DomainFault>| #[trigger]
            call_ensures(rule, (to, steps), answer) ==> (answer is Ok <==> steps > 0) && (answer
                matches Ok(job) ==> job.endpoint_id == to && job.steps@.len() == steps),
    ensures
        r is Ok <==> step_count > 0,
        r matches Ok(job) ==> job.endpoint_id == endpoint_id && job.steps@.len() == step_count,
        r matches Err(error) ==> error is EmptyWorkflow,
{
}

/// What became of persisting a workflow is told by its reason, and a workflow that was
/// persisted is told as it is.
pub proof fn workflow_outcome_is_told<J>(
    job: Job,
    persisted: Result<(), CreateWorkflowError>,
    r: Result<Job, ApplicationError>,
    constructed: Result<Job, DomainFault>,
    made: Result<Job, ApplicationError>,
)
    requires
        call_ensures(JobService::<J>::workflow_persisted, (job, persisted), r),
        call_ensures(JobService::<J>::create_workflow, (constructed,), made),
    ensures
        persisted is Ok <==> r is Ok,
        r matches Ok(told) ==> told == job,
        persisted matches Err(CreateWorkflowError::EndpointNotFound(id)) ==> r->Err_0
            == ApplicationError::EndpointNotFound(id),
        persisted matches Err(CreateWorkflowError::EndpointNotEnrolled(id)) ==> r->Err_0
            == ApplicationError::EndpointNotEnrolled(id),
        persisted matches Err(CreateWorkflowError::Repository(fault)) ==> r->Err_0
            == ApplicationError::Repository(fault),
        constructed is Ok <==> made is Ok,
        constructed matches Ok(job) ==> made->Ok_0 == job,
        constructed matches Err(fault) ==> made->Err_0 == ApplicationError::EmptyWorkflow(fault),
{
}

/// Admissions and preconditions are ruled on for the locked job: an admission at this
/// moment, preconditions for exactly the step that was asked for.
pub proof fn scheduling_is_ruled_on_for_the_locked_job<
    J,
    C,
    F: FnOnce(&Job, Timestamp) -> Result<JobAdmissionOutcome, JobAdmissionError>,
    G: FnOnce(&Job, JobStepId) -> Result<JobStep, JobStepEligibilityError>,
>(
    job: Job,
    now: Timestamp,
    step_id: JobStepId,
    admission: F,
    preconditions: G,
    admitted: Result<JobAdmissionOutcome, JobAdmissionError>,
    satisfied: Result<JobStep, JobStepEligibilityError>,
)
    requires
        call_ensures(
            JobSchedulingService::<J, C>::decide_admission::<F>,
            (&job, now, admission),
            admitted,
        ),
        call_ensures(
            JobSchedulingService::<J, C>::decide_preconditions::<G>,
            (&job, step_id, preconditions),
            satisfied,
        ),
    ensures
        call_ensures(admission, (&job, now), admitted),
        call_ensures(preconditions, (&job, step_id), satisfied),
{
}

/// What became of an admission is told by its reason.
pub proof fn admission_outcome_is_told<J, C>(
    admitted: Result<Job, AdmitJobError>,
    r: Result<Job, ApplicationError>,
)
    requires
        call_ensures(JobSchedulingService::<J, C>::admit_job, (admitted,), r),
    ensures
        admitted is Ok <==> r is Ok,
        admitted matches Ok(job) ==> r->Ok_0 == job,
        admitted matches Err(AdmitJobError::JobNotFound(id)) ==> r->Err_0
            == ApplicationError::JobNotFound(id),
        admitted matches Err(AdmitJobError::NotEligible(id)) ==> r->Err_0
            == ApplicationError::JobNotEligibleForAdmission(id),
        admitted matches Err(AdmitJobError::EndpointNotAvailable) ==> r->Err_0
            == ApplicationError::EndpointNotAvailable,
        admitted matches Err(AdmitJobError::Repository(fault)) ==> r->Err_0
            == ApplicationError::Repository(fault),
{
}

/// What became of a step's preconditions is told by its reason.
pub proof fn preconditions_outcome_is_told<J, C>(
    satisfied: Result<JobStep, SatisfyStepPreconditionsError>,
    r: Result<JobStep, ApplicationError>,
)
    requires
        call_ensures(
            JobSchedulingService::<J, C>::satisfy_current_step_preconditions,
            (satisfied,),
            r,
        ),
    ensures
        satisfied is Ok <==> r is Ok,
        satisfied matches Ok(step) ==> r->Ok_0 == step,
        satisfied matches Err(SatisfyStepPreconditionsError::JobNotFound(id)) ==> r->Err_0
            == ApplicationError::JobNotFound(id),
        satisfied matches Err(SatisfyStepPreconditionsError::JobNotRunning(id)) ==> r->Err_0
            == ApplicationError::JobNotRunning(id),
        satisfied matches Err(SatisfyStepPreconditionsError::JobStepNotFound(step, job))
            ==> r->Err_0 == ApplicationError::JobStepNotFound(step, job),
        satisfied matches Err(SatisfyStepPreconditionsError::NotCurrent(step)) ==> r->Err_0
            == ApplicationError::JobStepNotCurrent(step),
        satisfied matches Err(SatisfyStepPreconditionsError::Repository(fault)) ==> r->Err_0
            == ApplicationError::Repository(fault),
{
}

/// What became of a report is told: the new revision, that nothing changed, or the
/// reason why it was not recorded.
pub proof fn inventory_outcome_is_told<R, C, V>(
    recorded: Result<Option<V>, EndpointUpdateError>,
    r: Result<Option<V>, ApplicationError>,
)
    requires
        call_ensures(InventoryService::<R, C>::record::<V>, (recorded,), r),
    ensures
        recorded is Ok <==> r is Ok,
        recorded matches Ok(revision) ==> r->Ok_0 == revision,
        recorded matches Err(EndpointUpdateError::NotFound(id)) ==> r->Err_0
            == ApplicationError::EndpointNotFound(id),
        recorded matches Err(EndpointUpdateError::InvalidTransition(fault)) ==> r->Err_0
            == ApplicationError::InvalidTransition(fault),
        recorded matches Err(EndpointUpdateError::Repository(fault)) ==> r->Err_0
            == ApplicationError::Repository(fault),
{
}

} // verus!
