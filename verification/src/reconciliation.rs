//! Attempts whose outcome became uncertain: how they get there, how an agent is
//! asked about them, and how an operator closes one that stays uncertain.

use vstd::prelude::*;
use std::sync::Arc;
use crate::cancellation::AgentDispatchError;
use crate::clock::{SystemClock, Timestamp};
use crate::errors::{
    ApplicationError, ApplyActionEvidenceError, CloseIndeterminateError, RepositoryError,
};
use crate::evidence::{EvidenceApplied, EvidenceFacts, EvidenceResult};
use crate::evidence_service::{self, settle_commit, Settled};
use crate::ids::{self, fresh_uuid, ActionId, AttemptId, EndpointId, ProtocolId};
use crate::model::{Actor, Attempt, AuditRecord, Job};
use crate::reservations::AttemptReservationRegistry;
use crate::text::{self, append_identity};

verus! {

/// Decides what becomes of an endpoint's active attempt when a session is lost:
/// it becomes uncertain if and only if it is the very attempt that the lost
/// session carried and the workflow agrees.
pub fn decide_mark_uncertain<F: FnOnce(&Attempt) -> Option<Attempt>>(
    attempt: &Attempt,
    expected_action_id: ActionId,
    workflow: F,
) -> (r: Option<Attempt>)
    requires
        attempt.action_id == expected_action_id ==> call_requires(workflow, (attempt,)),
    ensures
        attempt.action_id != expected_action_id ==> r is None,
        attempt.action_id == expected_action_id ==> call_ensures(workflow, (attempt,), r),
{
    if attempt.action_id != expected_action_id {
        return None;
    }
    workflow(attempt)
}

/// How the workflow takes the closing of an uncertain attempt.
#[derive(Debug)]
pub enum CloseIndeterminateOutcome {
    AlreadyIndeterminate,
    NotEligible,
    Applied(EvidenceApplied),
}

/// What is to be committed for the closing of an uncertain attempt.
#[derive(Debug)]
pub enum CloseIndeterminateDecision {
    AlreadyIndeterminate,
    NotEligible,
    Applied { outcome: EvidenceApplied, audit: AuditRecord },
}

/// What was committed for the closing of an uncertain attempt.
#[derive(Debug)]
pub enum CloseIndeterminateResult {
    AlreadyIndeterminate,
    Applied(EvidenceApplied),
}

/// `record` reports, on the operator's authority, that the attempt was closed.
pub open spec fn is_closing_audit(
    record: AuditRecord,
    job: Job,
    applied: EvidenceApplied,
    operator: Actor,
    now: Timestamp,
) -> bool {
    &&& ids::is_uuid_v4(record.audit_id)
    &&& record.endpoint_id == job.endpoint_id
    &&& record.actor == operator
    &&& record.occurred_at == now
    &&& record.detail@ == closing_text(job, applied)
    &&& record.job_id == Some(job.id)
    &&& record.job_step_id == Some(applied.job_step.id)
    &&& record.attempt_id == Some(applied.attempt.id)
    &&& record.action_id == Some(applied.attempt.action_id)
}

/// The audit trail's wording of a closing.
pub open spec fn closing_text(job: Job, applied: EvidenceApplied) -> Seq<char> {
    "operator closed attempt "@ + text::identity_text("AttemptId"@, applied.attempt.id.0)
        + " action "@ + text::identity_text("ActionId"@, applied.attempt.action_id.0)
        + " Indeterminate for job_step "@ + text::identity_text("JobStepId"@, applied.job_step.id.0)
        + " (job "@ + text::identity_text("JobId"@, job.id.0)
        + "): authoritative execution outcome could not be established"@
}

/// `decision` is what follows from the workflow's `outcome`.
pub open spec fn closing_concludes(
    decision: CloseIndeterminateDecision,
    job: Job,
    outcome: CloseIndeterminateOutcome,
    operator: Actor,
    now: Timestamp,
) -> bool {
    match outcome {
        CloseIndeterminateOutcome::AlreadyIndeterminate => decision is AlreadyIndeterminate,
        CloseIndeterminateOutcome::NotEligible => decision is NotEligible,
        CloseIndeterminateOutcome::Applied(applied) => {
            &&& decision matches CloseIndeterminateDecision::Applied { outcome: committed, audit }
            &&& committed == applied
            &&& is_closing_audit(audit, job, applied, operator, now)
        },
    }
}

/// Turns the workflow's outcome for a closing into what is committed. A closing
/// that takes effect is always audited.
pub fn conclude_close_indeterminate(
    facts: &EvidenceFacts,
    outcome: CloseIndeterminateOutcome,
    operator: Actor,
    now: Timestamp,
) -> (r: CloseIndeterminateDecision)
    ensures
        closing_concludes(r, facts.job, outcome, operator, now),
{
    match outcome {
        CloseIndeterminateOutcome::AlreadyIndeterminate =>
            CloseIndeterminateDecision::AlreadyIndeterminate,
        CloseIndeterminateOutcome::NotEligible => CloseIndeterminateDecision::NotEligible,
        CloseIndeterminateOutcome::Applied(applied) => {
            let mut detail = String::new();
            detail.append("operator closed attempt ");
            append_identity(&mut detail, "AttemptId", applied.attempt.id.0);
            detail.append(" action ");
            append_identity(&mut detail, "ActionId", applied.attempt.action_id.0);
            detail.append(" Indeterminate for job_step ");
            append_identity(&mut detail, "JobStepId", applied.job_step.id.0);
            detail.append(" (job ");
            append_identity(&mut detail, "JobId", facts.job.id.0);
            detail.append("): authoritative execution outcome could not be established");
            assert(detail@ =~= closing_text(facts.job, applied));
            let audit = AuditRecord {
                audit_id: fresh_uuid(),
                endpoint_id: facts.job.endpoint_id,
                actor: operator,
                occurred_at: now,
                detail,
                job_id: Some(facts.job.id),
                job_step_id: Some(applied.job_step.id),
                attempt_id: Some(applied.attempt.id),
                action_id: Some(applied.attempt.action_id),
            };
            CloseIndeterminateDecision::Applied { outcome: applied, audit }
        },
    }
}

/// Decides what is committed for the closing of an uncertain attempt.
pub fn decide_close_indeterminate<
    F: FnOnce(&EvidenceFacts, Timestamp) -> CloseIndeterminateOutcome,
>(facts: &EvidenceFacts, operator: Actor, now: Timestamp, workflow: F) -> (r:
    CloseIndeterminateDecision)
    requires
        call_requires(workflow, (facts, now)),
    ensures
        exists|outcome: CloseIndeterminateOutcome|
            call_ensures(workflow, (facts, now), outcome) && #[trigger] closing_concludes(
                r,
                facts.job,
                outcome,
                operator,
                now,
            ),
{
    let outcome = workflow(facts, now);
    conclude_close_indeterminate(facts, outcome, operator, now)
}

/// Whether an agent was asked about an uncertain attempt.
#[derive(Clone, Copy, Debug, PartialEq, Eq, Structural)]
pub enum StatusQuerySendOutcome {
    NoneNeeded,
    Sent,
    SendFailed(AgentDispatchError),
}

/// The next step when a session starts.
#[derive(Debug)]
pub enum SessionStartStep {
    /// The agent is to be asked about this action.
    SendStatusQuery { endpoint_id: EndpointId, action_id: ProtocolId },
    Done(Result<StatusQuerySendOutcome, ApplicationError>),
}

/// The attempt that a closing ended, if it took effect.
pub open spec fn closed_by(
    committed: Result<CloseIndeterminateResult, CloseIndeterminateError>,
) -> Option<AttemptId> {
    match committed {
        Ok(CloseIndeterminateResult::Applied(applied)) => Some(applied.attempt.id),
        _ => None,
    }
}

/// Brings uncertain attempts back to a known outcome.
pub struct ReconciliationService<R, G, A, D, C> {
    pub repo: Arc<R>,
    pub reservations: Arc<G>,
    pub arbiter: Arc<A>,
    pub dispatch: Arc<D>,
    pub clock: Arc<C>,
}

impl<R, G, A, D> ReconciliationService<R, G, A, D, SystemClock> {
    /// With the real clock.
    pub fn new(repo: Arc<R>, reservations: Arc<G>, arbiter: Arc<A>, dispatch: Arc<D>) -> (r: Self)
        ensures
            r.repo == repo,
            r.reservations == reservations,
            r.arbiter == arbiter,
            r.dispatch == dispatch,
    {
        ReconciliationService { repo, reservations, arbiter, dispatch, clock: Arc::new(SystemClock) }
    }
}

impl<R, G, A, D, C> ReconciliationService<R, G, A, D, C> {
    pub fn with_clock(
        repo: Arc<R>,
        reservations: Arc<G>,
        arbiter: Arc<A>,
        dispatch: Arc<D>,
        clock: Arc<C>,
    ) -> (r: Self)
        ensures
            r.repo == repo,
            r.reservations == reservations,
            r.arbiter == arbiter,
            r.dispatch == dispatch,
            r.clock == clock,
    {
        ReconciliationService { repo, reservations, arbiter, dispatch, clock }
    }

    /// What is reported once a lost session was accounted for.
    pub fn mark_endpoint_uncertain(marked: Result<Option<AttemptId>, RepositoryError>) -> (r:
        Result<Option<AttemptId>, ApplicationError>)
        ensures
            r == (match marked {
                Ok(attempt) => Ok::<Option<AttemptId>, ApplicationError>(attempt),
                Err(fault) => Err::<Option<AttemptId>, ApplicationError>(
                    ApplicationError::Repository(fault),
                ),
            }),
    {
        match marked {
            Ok(attempt) => Ok(attempt),
            Err(fault) => Err(ApplicationError::Repository(fault)),
        }
    }

    /// What is reported once the attempts of an earlier process were accounted
    /// for.
    pub fn reconcile_on_startup(marked: Result<Vec<AttemptId>, RepositoryError>) -> (r: Result<
        Vec<AttemptId>,
        ApplicationError,
    >)
        ensures
            r == (match marked {
                Ok(attempts) => Ok::<Vec<AttemptId>, ApplicationError>(attempts),
                Err(fault) => Err::<Vec<AttemptId>, ApplicationError>(
                    ApplicationError::Repository(fault),
                ),
            }),
    {
        match marked {
            Ok(attempts) => Ok(attempts),
            Err(fault) => Err(ApplicationError::Repository(fault)),
        }
    }

    /// Whether an agent has to be asked something when its session starts: about
    /// the endpoint's uncertain action, under that action's own identity, if
    /// there is one.
    pub fn reconcile_on_session_start(
        endpoint_id: EndpointId,
        candidate: Result<Option<ActionId>, RepositoryError>,
    ) -> (r: SessionStartStep)
        requires
            candidate matches Ok(Some(action_id)) ==> ids::is_uuid_v4(action_id.0),
        ensures
            match candidate {
                Ok(Some(action_id)) => r == (SessionStartStep::SendStatusQuery {
                    endpoint_id,
                    action_id: ProtocolId(action_id.0),
                }),
                Ok(None) => r == SessionStartStep::Done(Ok(StatusQuerySendOutcome::NoneNeeded)),
                Err(fault) => r == SessionStartStep::Done(
                    Err(ApplicationError::Repository(fault)),
                ),
            },
    {
        match candidate {
            Ok(Some(action_id)) => SessionStartStep::SendStatusQuery {
                endpoint_id,
                action_id: ProtocolId(action_id.0),
            },
            Ok(None) => SessionStartStep::Done(Ok(StatusQuerySendOutcome::NoneNeeded)),
            Err(fault) => SessionStartStep::Done(Err(ApplicationError::Repository(fault))),
        }
    }

    /// What is reported once asking the agent was tried.
    pub fn status_query_sent(sent: Result<(), AgentDispatchError>) -> (r: StatusQuerySendOutcome)
        ensures
            match sent {
                Ok(()) => r is Sent,
                Err(error) => r == StatusQuerySendOutcome::SendFailed(error),
            },
    {
        match sent {
            Ok(()) => StatusQuerySendOutcome::Sent,
            Err(error) => StatusQuerySendOutcome::SendFailed(error),
        }
    }

    /// Concludes a status report.
    pub fn apply_status_report(
        registry: &mut AttemptReservationRegistry,
        committed: Result<EvidenceResult, ApplyActionEvidenceError>,
    ) -> (r: Settled<Result<EvidenceResult, ApplicationError>>)
        ensures
            r.told == evidence_service::told_result(committed),
            evidence_service::settles(
                old(registry)@,
                final(registry)@,
                evidence_service::ended_by_commit(committed),
                r.release,
            ),
    {
        settle_commit(registry, committed)
    }

    /// Concludes the closing of an uncertain attempt. One that takes effect
    /// always ends the attempt.
    pub fn close_indeterminate(
        registry: &mut AttemptReservationRegistry,
        committed: Result<CloseIndeterminateResult, CloseIndeterminateError>,
    ) -> (r: Settled<Result<CloseIndeterminateResult, ApplicationError>>)
        ensures
            evidence_service::settles(
                old(registry)@,
                final(registry)@,
                closed_by(committed),
                r.release,
            ),
            match committed {
                Ok(result) => r.told == Ok::<CloseIndeterminateResult, ApplicationError>(result),
                Err(CloseIndeterminateError::JobNotFound(id)) => r.told == Err::<
                    CloseIndeterminateResult,
                    ApplicationError,
                >(ApplicationError::JobNotFound(id)),
                Err(CloseIndeterminateError::NoUncertainAttempt(id)) => r.told == Err::<
                    CloseIndeterminateResult,
                    ApplicationError,
                >(ApplicationError::JobHasNoUncertainAttempt(id)),
                Err(CloseIndeterminateError::Repository(fault)) => r.told == Err::<
                    CloseIndeterminateResult,
                    ApplicationError,
                >(ApplicationError::Repository(fault)),
            },
    {
        match committed {
            Ok(CloseIndeterminateResult::Applied(applied)) => {
                let release = registry.take(applied.attempt.id);
                Settled { told: Ok(CloseIndeterminateResult::Applied(applied)), release }
            },
            Ok(CloseIndeterminateResult::AlreadyIndeterminate) => Settled {
                told: Ok(CloseIndeterminateResult::AlreadyIndeterminate),
                release: None,
            },
            Err(error) => Settled { told: Err(ApplicationError::from(error)), release: None },
        }
    }
}

/// A status report that ended the attempt hands out its reservation, and any other
/// hands out none.
pub proof fn reconciled_attempt_gives_its_reservation_back<R, G, A, D, C>(
    registry: &mut AttemptReservationRegistry,
    committed: Result<EvidenceResult, ApplyActionEvidenceError>,
    r: Settled<Result<EvidenceResult, ApplicationError>>,
)
    requires
        call_ensures(ReconciliationService::<R, G, A, D, C>::apply_status_report, (registry, committed), r),
    ensures
        match committed {
            Ok(EvidenceResult::Applied(applied)) if applied.terminal => {
                &&& final(registry)@ == old(registry)@.remove(applied.attempt.id.0)
                &&& r.release is Some <==> old(registry)@.dom().contains(applied.attempt.id.0)
                &&& r.release matches Some(given) ==> given == old(registry)@[applied.attempt.id.0]
            },
            _ => final(registry)@ == old(registry)@ && r.release is None,
        },
        committed matches Ok(result) ==> r.told == Ok::<EvidenceResult, ApplicationError>(result),
        committed is Err <==> r.told is Err,
        committed matches Err(ApplyActionEvidenceError::UnknownAction) ==> r.told matches Err(
            ApplicationError::UnknownAction,
        ),
        committed matches Err(ApplyActionEvidenceError::Repository(fault)) ==> r.told matches Err(
            ApplicationError::Repository(same),
        ) && same == fault,
{
}

/// A closing that takes effect always ends its attempt, and hands out its reservation;
/// one that does not hands out none.
pub proof fn closed_attempt_gives_its_reservation_back<R, G, A, D, C>(
    registry: &mut AttemptReservationRegistry,
    committed: Result<CloseIndeterminateResult, CloseIndeterminateError>,
    r: Settled<Result<CloseIndeterminateResult, ApplicationError>>,
)
    requires
        call_ensures(ReconciliationService::<R, G, A, D, C>::close_indeterminate, (registry, committed), r),
    ensures
        match committed {
            Ok(CloseIndeterminateResult::Applied(applied)) => {
                &&& final(registry)@ == old(registry)@.remove(applied.attempt.id.0)
                &&& r.release is Some <==> old(registry)@.dom().contains(applied.attempt.id.0)
                &&& r.release matches Some(given) ==> given == old(registry)@[applied.attempt.id.0]
            },
            _ => final(registry)@ == old(registry)@ && r.release is None,
        },
        committed matches Ok(result) ==> r.told == Ok::<CloseIndeterminateResult, ApplicationError>(
            result,
        ),
        committed matches Err(CloseIndeterminateError::JobNotFound(id)) ==> r.told matches Err(
            ApplicationError::JobNotFound(same),
        ) && same == id,
        committed matches Err(CloseIndeterminateError::NoUncertainAttempt(id))
            ==> r.told matches Err(ApplicationError::JobHasNoUncertainAttempt(same)) && same == id,
        committed matches Err(CloseIndeterminateError::Repository(fault)) ==> r.told matches Err(
            ApplicationError::Repository(same),
        ) && same == fault,
{
}

/// A lost session makes an attempt uncertain only where it carried that attempt's own
/// action, and then as the workflow says; whatever another session carried is left
/// alone.
pub proof fn only_the_lost_action_becomes_uncertain<F: FnOnce(&Attempt) -> Option<Attempt>>(
    attempt: Attempt,
    expected_action_id: ActionId,
    workflow: F,
    uncertain: Attempt,
    r: Option<Attempt>,
)
    requires
        call_ensures(decide_mark_uncertain::<F>, (&attempt, expected_action_id, workflow), r),
        forall|about: Attempt, answer: Option<Attempt>| #[trigger]
            call_ensures(workflow, (&about,), answer) && about == attempt ==> answer == Some(
                uncertain,
            ),
    ensures
        r is Some <==> attempt.action_id.0 == expected_action_id.0,
        r matches Some(marked) ==> marked == uncertain,
{
}

/// A closing is decided as the workflow takes it; one that takes effect is in the
/// audit trail under the operator, the job, the step, the attempt and the action.
pub proof fn closing_is_decided_as_the_workflow_takes_it<
    F: FnOnce(&EvidenceFacts, Timestamp) -> CloseIndeterminateOutcome,
>(
    facts: EvidenceFacts,
    operator: Actor,
    now: Timestamp,
    workflow: F,
    outcome: CloseIndeterminateOutcome,
    decision: CloseIndeterminateDecision,
)
    requires
        call_ensures(
            decide_close_indeterminate::<F>,
            (&facts, operator, now, workflow),
            decision,
        ),
        forall|about: EvidenceFacts, at: Timestamp, answer: CloseIndeterminateOutcome| #[trigger]
            call_ensures(workflow, (&about, at), answer) && about == facts && at == now ==> answer
                == outcome,
    ensures
        decision is AlreadyIndeterminate <==> outcome is AlreadyIndeterminate,
        decision is NotEligible <==> outcome is NotEligible,
        outcome matches CloseIndeterminateOutcome::Applied(applied) ==> {
            &&& decision matches CloseIndeterminateDecision::Applied { outcome: committed, audit }
            &&& committed == applied
            &&& ids::is_uuid_v4(audit.audit_id)
            &&& audit.endpoint_id == facts.job.endpoint_id
            &&& audit.actor == operator
            &&& audit.occurred_at == now
            &&& audit.job_id == Some(facts.job.id)
            &&& audit.job_step_id == Some(applied.job_step.id)
            &&& audit.attempt_id == Some(applied.attempt.id)
            &&& audit.action_id == Some(applied.attempt.action_id)
            &&& audit.detail@ == "operator closed attempt "@ + text::identity_text(
                "AttemptId"@,
                applied.attempt.id.0,
            ) + " action "@ + text::identity_text("ActionId"@, applied.attempt.action_id.0)
                + " Indeterminate for job_step "@ + text::identity_text(
                "JobStepId"@,
                applied.job_step.id.0,
            ) + " (job "@ + text::identity_text("JobId"@, facts.job.id.0)
                + "): authoritative execution outcome could not be established"@
        },
{
}

/// An agent is asked, when its session starts, about the one action of its endpoint
/// that is uncertain, and about nothing where none is.
pub proof fn agent_is_asked_about_its_uncertain_action<R, G, A, D, C>(
    endpoint_id: EndpointId,
    candidate: Result<Option<ActionId>, RepositoryError>,
    step: SessionStartStep,
)
    requires
        call_ensures(
            ReconciliationService::<R, G, A, D, C>::reconcile_on_session_start,
            (endpoint_id, candidate),
            step,
        ),
    ensures
        step is SendStatusQuery <==> candidate matches Ok(Some(_)),
        candidate matches Ok(Some(action_id)) ==> (step matches SessionStartStep::SendStatusQuery {
            endpoint_id: to,
            action_id: about,
        } && to == endpoint_id && about.0 == action_id.0),
        candidate matches Ok(None) ==> step matches SessionStartStep::Done(
            Ok(StatusQuerySendOutcome::NoneNeeded),
        ),
        candidate matches Err(fault) ==> (step matches SessionStartStep::Done(
            Err(ApplicationError::Repository(same)),
        ) && same == fault),
{
}

/// What became of lost sessions, of earlier processes and of a question to an agent is
/// told as it came.
pub proof fn reconciliation_is_told_as_it_came<R, G, A, D, C>(
    marked: Result<Option<AttemptId>, RepositoryError>,
    one: Result<Option<AttemptId>, ApplicationError>,
    found: Result<Vec<AttemptId>, RepositoryError>,
    all: Result<Vec<AttemptId>, ApplicationError>,
    sent: Result<(), AgentDispatchError>,
    asked: StatusQuerySendOutcome,
)
    requires
        call_ensures(
            ReconciliationService::<R, G, A, D, C>::mark_endpoint_uncertain,
            (marked,),
            one,
        ),
        call_ensures(ReconciliationService::<R, G, A, D, C>::reconcile_on_startup, (found,), all),
        call_ensures(ReconciliationService::<R, G, A, D, C>::status_query_sent, (sent,), asked),
    ensures
        marked is Ok <==> one is Ok,
        marked matches Ok(attempt) ==> one->Ok_0 == attempt,
        marked matches Err(fault) ==> (one matches Err(ApplicationError::Repository(same)) && same
            == fault),
        found is Ok <==> all is Ok,
        found matches Ok(attempts) ==> all->Ok_0 == attempts,
        found matches Err(fault) ==> (all matches Err(ApplicationError::Repository(same)) && same
            == fault),
        asked == StatusQuerySendOutcome::Sent <==> sent is Ok,
        sent matches Err(error) ==> asked == StatusQuerySendOutcome::SendFailed(error),
{
}

} // verus!
