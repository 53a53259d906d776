//! Cancelling a job: the operator's request, and the agent's answer to it.

use vstd::prelude::*;
use std::sync::Arc;
use crate::clock::{SystemClock, Timestamp};
use crate::errors::{ApplicationError, ApplyActionEvidenceError, RequestCancellationError};
use crate::evidence::EvidenceResult;
use crate::evidence_service::{self, settle_commit, Settled};
use crate::ids::{self, fresh_uuid, ActionId, AttemptId, EndpointId, ProtocolId};
use crate::model::{Actor, Attempt, AuditRecord, DomainEvent, Job};
use crate::reservations::AttemptReservationRegistry;
use crate::text::{self, append_identity};

verus! {

/// Why a frame could not be handed to an agent's session.
#[derive(Clone, Copy, Debug, PartialEq, Eq, Structural)]
pub enum AgentDispatchError {
    NoSession,
    SendFailed,
}

/// The job to cancel, with the attempt that is still active for it, read under
/// one lock.
#[derive(Debug)]
pub struct CancellationFacts {
    pub job: Job,
    pub active_attempt: Option<Attempt>,
}

/// How the workflow takes a cancellation request.
#[derive(Debug)]
pub enum CancellationRequestOutcome {
    EnteredCancelling { job: Job, attempt_id: AttemptId, action_id: ActionId },
    CompletedImmediately { job: Job, event: DomainEvent },
    AlreadyCancelling,
    AlreadyTerminal,
}

/// The job's state does not admit a cancellation request.
#[derive(Clone, Copy, Debug, PartialEq, Eq, Structural)]
pub enum CancellationRequestError {
    NotEligible,
}

/// What is to be committed for a cancellation request.
#[derive(Debug)]
pub enum CancellationRequestDecided {
    EnteredCancelling {
        job: Job,
        attempt_id: AttemptId,
        action_id: ActionId,
        audit: AuditRecord,
    },
    CompletedImmediately { job: Job, event: DomainEvent, audit: AuditRecord },
    AlreadyCancelling,
    AlreadyTerminal,
}

/// `record` reports the operator's request while an attempt is still active.
pub open spec fn is_request_audit(
    record: AuditRecord,
    job: Job,
    attempt_id: AttemptId,
    action_id: ActionId,
    operator: Actor,
    now: Timestamp,
) -> bool {
    &&& ids::is_uuid_v4(record.audit_id)
    &&& record.endpoint_id == job.endpoint_id
    &&& record.actor == operator
    &&& record.occurred_at == now
    &&& record.detail@ == "operator cancellation requested for job "@ + text::identity_text(
        "JobId"@,
        job.id.0,
    ) + "; attempt "@ + text::identity_text("AttemptId"@, attempt_id.0) + " action "@
        + text::identity_text("ActionId"@, action_id.0) + " remains active"@
    &&& record.job_id == Some(job.id)
    &&& record.job_step_id is None
    &&& record.attempt_id == Some(attempt_id)
    &&& record.action_id == Some(action_id)
}

/// `record` reports that the operator's request took effect at once.
pub open spec fn is_completion_audit(
    record: AuditRecord,
    job: Job,
    operator: Actor,
    now: Timestamp,
) -> bool {
    &&& ids::is_uuid_v4(record.audit_id)
    &&& record.endpoint_id == job.endpoint_id
    &&& record.actor == operator
    &&& record.occurred_at == now
    &&& record.detail@ == "operator cancellation completed immediately for job "@
        + text::identity_text("JobId"@, job.id.0) + " (no active attempt)"@
    &&& record.job_id == Some(job.id)
    &&& record.job_step_id is None
    &&& record.attempt_id is None
    &&& record.action_id is None
}

/// `decided` is what follows from the workflow's `outcome`: what changes the job
/// is audited, what does not is not.
pub open spec fn request_concludes(
    decided: Result<CancellationRequestDecided, CancellationRequestError>,
    outcome: Result<CancellationRequestOutcome, CancellationRequestError>,
    operator: Actor,
    now: Timestamp,
) -> bool {
    match outcome {
        Err(error) => decided == Err::<CancellationRequestDecided, CancellationRequestError>(error),
        Ok(CancellationRequestOutcome::EnteredCancelling { job, attempt_id, action_id }) => {
            &&& decided matches Ok(
                CancellationRequestDecided::EnteredCancelling {
                    job: decided_job,
                    attempt_id: decided_attempt,
                    action_id: decided_action,
                    audit,
                },
            )
            &&& decided_job == job
            &&& decided_attempt == attempt_id
            &&& decided_action == action_id
            &&& is_request_audit(audit, job, attempt_id, action_id, operator, now)
        },
        Ok(CancellationRequestOutcome::CompletedImmediately { job, event }) => {
            &&& decided matches Ok(
                CancellationRequestDecided::CompletedImmediately {
                    job: decided_job,
                    event: decided_event,
                    audit,
                },
            )
            &&& decided_job == job
            &&& decided_event == event
            &&& is_completion_audit(audit, job, operator, now)
        },
        Ok(CancellationRequestOutcome::AlreadyCancelling) => decided matches Ok(
            CancellationRequestDecided::AlreadyCancelling,
        ),
        Ok(CancellationRequestOutcome::AlreadyTerminal) => decided matches Ok(
            CancellationRequestDecided::AlreadyTerminal,
        ),
    }
}

/// Turns the workflow's outcome for a cancellation request into what is
/// committed.
pub fn conclude_request(
    outcome: Result<CancellationRequestOutcome, CancellationRequestError>,
    operator: Actor,
    now: Timestamp,
) -> (r: Result<CancellationRequestDecided, CancellationRequestError>)
    ensures
        request_concludes(r, outcome, operator, now),
{
    match outcome {
        Err(error) => Err(error),
        Ok(CancellationRequestOutcome::EnteredCancelling { job, attempt_id, action_id }) => {
            let mut detail = String::new();
            detail.append("operator cancellation requested for job ");
            append_identity(&mut detail, "JobId", job.id.0);
            detail.append("; attempt ");
            append_identity(&mut detail, "AttemptId", attempt_id.0);
            detail.append(" action ");
            append_identity(&mut detail, "ActionId", action_id.0);
            detail.append(" remains active");
            assert(detail@ =~= "operator cancellation requested for job "@ + text::identity_text(
                "JobId"@,
                job.id.0,
            ) + "; attempt "@ + text::identity_text("AttemptId"@, attempt_id.0) + " action "@
                + text::identity_text("ActionId"@, action_id.0) + " remains active"@);
            let audit = AuditRecord {
                audit_id: fresh_uuid(),
                endpoint_id: job.endpoint_id,
                actor: operator,
                occurred_at: now,
                detail,
                job_id: Some(job.id),
                job_step_id: None,
                attempt_id: Some(attempt_id),
                action_id: Some(action_id),
            };
            Ok(CancellationRequestDecided::EnteredCancelling { job, attempt_id, action_id, audit })
        },
        Ok(CancellationRequestOutcome::CompletedImmediately { job, event }) => {
            let mut detail = String::new();
            detail.append("operator cancellation completed immediately for job ");
            append_identity(&mut detail, "JobId", job.id.0);
            detail.append(" (no active attempt)");
            assert(detail@ =~= "operator cancellation completed immediately for job "@
                + text::identity_text("JobId"@, job.id.0) + " (no active attempt)"@);
            let audit = AuditRecord {
                audit_id: fresh_uuid(),
                endpoint_id: job.endpoint_id,
                actor: operator,
                occurred_at: now,
                detail,
                job_id: Some(job.id),
                job_step_id: None,
                attempt_id: None,
                action_id: None,
            };
            Ok(CancellationRequestDecided::CompletedImmediately { job, event, audit })
        },
        Ok(CancellationRequestOutcome::AlreadyCancelling) => Ok(
            CancellationRequestDecided::AlreadyCancelling,
        ),
        Ok(CancellationRequestOutcome::AlreadyTerminal) => Ok(
            CancellationRequestDecided::AlreadyTerminal,
        ),
    }
}

/// Decides what is committed for a cancellation request.
pub fn decide_request<
    F: FnOnce(&CancellationFacts, Timestamp) -> Result<
        CancellationRequestOutcome,
        CancellationRequestError,
    >,
>(facts: &CancellationFacts, operator: Actor, now: Timestamp, workflow: F) -> (r: Result<
    CancellationRequestDecided,
    CancellationRequestError,
>)
    requires
        call_requires(workflow, (facts, now)),
    ensures
        exists|outcome: Result<CancellationRequestOutcome, CancellationRequestError>|
            call_ensures(workflow, (facts, now), outcome) && #[trigger] request_concludes(
                r,
                outcome,
                operator,
                now,
            ),
{
    let outcome = workflow(facts, now);
    conclude_request(outcome, operator, now)
}

/// What was committed for a cancellation request.
#[derive(Debug)]
pub enum RequestCancellationResult {
    EnteredCancelling { attempt_id: AttemptId, action_id: ActionId, endpoint_id: EndpointId },
    CompletedImmediately,
    AlreadyCancelling,
    AlreadyTerminal,
}

/// Whether the cancellation was handed to the agent's session.
#[derive(Clone, Copy, Debug, PartialEq, Eq, Structural)]
pub enum CancelActionSendOutcome {
    Sent,
    SendFailed(AgentDispatchError),
}

/// What the operator is told about a cancellation request.
#[derive(Clone, Copy, Debug, PartialEq, Eq, Structural)]
pub enum CancellationRequestResult {
    EnteredCancelling { send: CancelActionSendOutcome },
    CompletedImmediately,
    AlreadyCancelling,
    AlreadyTerminal,
}

/// The next step after a cancellation request was committed or refused.
#[derive(Debug)]
pub enum CancellationStep {
    /// The agent is to be told, once.
    SendCancel { endpoint_id: EndpointId, action_id: ProtocolId },
    Done(Result<CancellationRequestResult, ApplicationError>),
}

/// Cancels jobs.
pub struct CancellationService<R, G, A, D, C> {
    pub repo: Arc<R>,
    pub reservations: Arc<G>,
    pub arbiter: Arc<A>,
    pub dispatch: Arc<D>,
    pub clock: Arc<C>,
}

impl<R, G, A, D> CancellationService<R, G, A, D, SystemClock> {
    /// With the real clock.
    pub fn new(repo: Arc<R>, reservations: Arc<G>, arbiter: Arc<A>, dispatch: Arc<D>) -> (r: Self)
        ensures
            r.repo == repo,
            r.reservations == reservations,
            r.arbiter == arbiter,
            r.dispatch == dispatch,
    {
        CancellationService { repo, reservations, arbiter, dispatch, clock: Arc::new(SystemClock) }
    }
}

impl<R, G, A, D, C> CancellationService<R, G, A, D, C> {
    pub fn with_clock(
        repo: Arc<R>,
        reservations: Arc<G>,
        arbiter: Arc<A>,
        dispatch: Arc<D>,
        clock: Arc<C>,
    ) -> (r: Self)
        ensures
            r.repo == repo,
            r.reservations == reservations,
            r.arbiter == arbiter,
            r.dispatch == dispatch,
            r.clock == clock,
    {
        CancellationService { repo, reservations, arbiter, dispatch, clock }
    }

    /// What follows once the request is durable: the agent is told if and only
    /// if the job has just entered `Cancelling`.
    pub fn request(committed: Result<RequestCancellationResult, RequestCancellationError>) -> (r:
        CancellationStep)
        requires
            committed matches Ok(RequestCancellationResult::EnteredCancelling { action_id, .. })
                ==> ids::is_uuid_v4(action_id.0),
        ensures
            match committed {
                Ok(RequestCancellationResult::EnteredCancelling { action_id, endpoint_id, .. }) => r
                    == (CancellationStep::SendCancel {
                    endpoint_id,
                    action_id: ProtocolId(action_id.0),
                }),
                Ok(RequestCancellationResult::CompletedImmediately) => r == CancellationStep::Done(
                    Ok(CancellationRequestResult::CompletedImmediately),
                ),
                Ok(RequestCancellationResult::AlreadyCancelling) => r == CancellationStep::Done(
                    Ok(CancellationRequestResult::AlreadyCancelling),
                ),
                Ok(RequestCancellationResult::AlreadyTerminal) => r == CancellationStep::Done(
                    Ok(CancellationRequestResult::AlreadyTerminal),
                ),
                Err(RequestCancellationError::JobNotFound(id)) => r == CancellationStep::Done(
                    Err(ApplicationError::JobNotFound(id)),
                ),
                Err(RequestCancellationError::NotEligible(id)) => r == CancellationStep::Done(
                    Err(ApplicationError::JobNotEligibleForCancellation(id)),
                ),
                Err(RequestCancellationError::Repository(fault)) => r == CancellationStep::Done(
                    Err(ApplicationError::Repository(fault)),
                ),
            },
    {
        match committed {
            Ok(RequestCancellationResult::EnteredCancelling { action_id, endpoint_id, .. }) =>
                CancellationStep::SendCancel { endpoint_id, action_id: ProtocolId(action_id.0) },
            Ok(RequestCancellationResult::CompletedImmediately) => CancellationStep::Done(
                Ok(CancellationRequestResult::CompletedImmediately),
            ),
            Ok(RequestCancellationResult::AlreadyCancelling) => CancellationStep::Done(
                Ok(CancellationRequestResult::AlreadyCancelling),
            ),
            Ok(RequestCancellationResult::AlreadyTerminal) => CancellationStep::Done(
                Ok(CancellationRequestResult::AlreadyTerminal),
            ),
            Err(error) => CancellationStep::Done(Err(ApplicationError::from(error))),
        }
    }

    /// What the operator is told once telling the agent was tried. A failure to
    /// reach it is reported; it is neither undone nor tried again.
    pub fn request_sent(sent: Result<(), AgentDispatchError>) -> (r: CancellationRequestResult)
        ensures
            match sent {
                Ok(()) => r == (CancellationRequestResult::EnteredCancelling {
                    send: CancelActionSendOutcome::Sent,
                }),
                Err(error) => r == (CancellationRequestResult::EnteredCancelling {
                    send: CancelActionSendOutcome::SendFailed(error),
                }),
            },
    {
        match sent {
            Ok(()) => CancellationRequestResult::EnteredCancelling {
                send: CancelActionSendOutcome::Sent,
            },
            Err(error) => CancellationRequestResult::EnteredCancelling {
                send: CancelActionSendOutcome::SendFailed(error),
            },
        }
    }

    /// Concludes the agent's answer to a cancellation.
    pub fn apply_cancel_ack(
        registry: &mut AttemptReservationRegistry,
        committed: Result<EvidenceResult, ApplyActionEvidenceError>,
    ) -> (r: Settled<Result<EvidenceResult, ApplicationError>>)
        ensures
            r.told == evidence_service::told_result(committed),
            evidence_service::settles(
                old(registry)@,
                final(registry)@,
                evidence_service::ended_by_commit(committed),
                r.release,
            ),
    {
        settle_commit(registry, committed)
    }
}

/// The agent's answer that ended the attempt hands out its reservation, and any other
/// hands out none.
pub proof fn cancelled_attempt_gives_its_reservation_back<R, G, A, D, C>(
    registry: &mut AttemptReservationRegistry,
    committed: Result<EvidenceResult, ApplyActionEvidenceError>,
    r: Settled<Result<EvidenceResult, ApplicationError>>,
)
    requires
        call_ensures(CancellationService::<R, G, A, D, C>::apply_cancel_ack, (registry, committed), r),
    ensures
        match committed {
            Ok(EvidenceResult::Applied(applied)) if applied.terminal => {
                &&& final(registry)@ == old(registry)@.remove(applied.attempt.id.0)
                &&& r.release is Some <==> old(registry)@.dom().contains(applied.attempt.id.0)
                &&& r.release matches Some(given) ==> given == old(registry)@[applied.attempt.id.0]
            },
            _ => final(registry)@ == old(registry)@ && r.release is None,
        },
        committed matches Ok(result) ==> r.told == Ok::<EvidenceResult, ApplicationError>(result),
        committed is Err <==> r.told is Err,
        committed matches Err(ApplyActionEvidenceError::UnknownAction) ==> r.told matches Err(
            ApplicationError::UnknownAction,
        ),
        committed matches Err(ApplyActionEvidenceError::Repository(fault)) ==> r.told matches Err(
            ApplicationError::Repository(same),
        ) && same == fault,
{
}

/// A request is decided as the workflow takes it. One that changes the job is in the
/// audit trail under the operator, the job and, while an attempt is active, that
/// attempt; one that changes nothing is not.
pub proof fn request_is_decided_as_the_workflow_takes_it<
    F: FnOnce(&CancellationFacts, Timestamp) -> Result<
        CancellationRequestOutcome,
        CancellationRequestError,
    >,
>(
    facts: CancellationFacts,
    operator: Actor,
    now: Timestamp,
    workflow: F,
    outcome: Result<CancellationRequestOutcome, CancellationRequestError>,
    decided: Result<CancellationRequestDecided, CancellationRequestError>,
)
    requires
        call_ensures(decide_request::<F>, (&facts, operator, now, workflow), decided),
        forall|
            about: CancellationFacts,
            at: Timestamp,
            answer: Result<CancellationRequestOutcome, CancellationRequestError>,
        |
            #[trigger] call_ensures(workflow, (&about, at), answer) && about == facts && at == now
                ==> answer == outcome,
    ensures
        outcome is Err <==> decided is Err,
        outcome matches Ok(CancellationRequestOutcome::AlreadyCancelling) <==> decided matches Ok(
            CancellationRequestDecided::AlreadyCancelling,
        ),
        outcome matches Ok(CancellationRequestOutcome::AlreadyTerminal) <==> decided matches Ok(
            CancellationRequestDecided::AlreadyTerminal,
        ),
        outcome matches Ok(
            CancellationRequestOutcome::EnteredCancelling { job, attempt_id, action_id },
        ) ==> {
            &&& decided matches Ok(
                CancellationRequestDecided::EnteredCancelling {
                    job: same,
                    attempt_id: attempt,
                    action_id: action,
                    audit,
                },
            )
            &&& same == job && attempt == attempt_id && action == action_id
            &&& ids::is_uuid_v4(audit.audit_id)
            &&& audit.endpoint_id == job.endpoint_id
            &&& audit.actor == operator
            &&& audit.occurred_at == now
            &&& audit.job_id == Some(job.id)
            &&& audit.job_step_id is None
            &&& audit.attempt_id == Some(attempt_id)
            &&& audit.action_id == Some(action_id)
            &&& audit.detail@ == "operator cancellation requested for job "@ + text::identity_text(
                "JobId"@,
                job.id.0,
            ) + "; attempt "@ + text::identity_text("AttemptId"@, attempt_id.0) + " action "@
                + text::identity_text("ActionId"@, action_id.0) + " remains active"@
        },
        outcome matches Ok(CancellationRequestOutcome::CompletedImmediately { job, event }) ==> {
            &&& decided matches Ok(
                CancellationRequestDecided::CompletedImmediately { job: same, event: reported, audit },
            )
            &&& same == job && reported == event
            &&& ids::is_uuid_v4(audit.audit_id)
            &&& audit.endpoint_id == job.endpoint_id
            &&& audit.actor == operator
            &&& audit.occurred_at == now
            &&& audit.job_id == Some(job.id)
            &&& audit.job_step_id is None
            &&& audit.attempt_id is None
            &&& audit.action_id is None
            &&& audit.detail@ == "operator cancellation completed immediately for job "@
                + text::identity_text("JobId"@, job.id.0) + " (no active attempt)"@
        },
{
}

/// The agent is told of a cancellation exactly where the job has just entered it, and
/// then the endpoint of the job is, about the action that is still active.
pub proof fn agent_is_told_exactly_when_cancelling_begins<R, G, A, D, C>(
    committed: Result<RequestCancellationResult, RequestCancellationError>,
    step: CancellationStep,
)
    requires
        call_ensures(CancellationService::<R, G, A, D, C>::request, (committed,), step),
    ensures
        step is SendCancel <==> committed matches Ok(
            RequestCancellationResult::EnteredCancelling { .. },
        ),
        committed matches Ok(
            RequestCancellationResult::EnteredCancelling { action_id, endpoint_id, .. },
        ) ==> (step matches CancellationStep::SendCancel { endpoint_id: to, action_id: about } && to
            == endpoint_id && about.0 == action_id.0),
        committed matches Ok(RequestCancellationResult::CompletedImmediately)
            <==> step matches CancellationStep::Done(
            Ok(CancellationRequestResult::CompletedImmediately),
        ),
        committed matches Ok(RequestCancellationResult::AlreadyCancelling)
            <==> step matches CancellationStep::Done(
            Ok(CancellationRequestResult::AlreadyCancelling),
        ),
        committed matches Ok(RequestCancellationResult::AlreadyTerminal)
            <==> step matches CancellationStep::Done(Ok(CancellationRequestResult::AlreadyTerminal)),
        committed matches Err(RequestCancellationError::JobNotFound(id))
            ==> step matches CancellationStep::Done(Err(ApplicationError::JobNotFound(same)))
            && same == id,
        committed matches Err(RequestCancellationError::NotEligible(id))
            ==> step matches CancellationStep::Done(
            Err(ApplicationError::JobNotEligibleForCancellation(same)),
        ) && same == id,
        committed matches Err(RequestCancellationError::Repository(fault))
            ==> step matches CancellationStep::Done(Err(ApplicationError::Repository(same)))
            && same == fault,
{
}

/// The operator learns whether the agent could be told; either way the job is being
/// cancelled.
pub proof fn operator_learns_whether_the_agent_was_told<R, G, A, D, C>(
    sent: Result<(), AgentDispatchError>,
    r: CancellationRequestResult,
)
    requires
        call_ensures(CancellationService::<R, G, A, D, C>::request_sent, (sent,), r),
    ensures
        r matches CancellationRequestResult::EnteredCancelling { send } && (send
            == CancelActionSendOutcome::Sent <==> sent is Ok) && (sent matches Err(error) ==> send
            == CancelActionSendOutcome::SendFailed(error)),
{
}

} // verus!
