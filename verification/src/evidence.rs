//! Evidence from agents about the actions they were sent, and what it does to
//! the workflow: which outcome is committed, what is written to the audit
//! trail, which artifact fails with it, and when the attempt's reservation is
//! given back.
//!
//! The workflow's own state machine is not here. Where it has to be asked, it is
//! handed in as a function; what is asked of it and what follows from its answer
//! is stated below.

use vstd::prelude::*;
use crate::action_detail::{TransferResultCode, TransferResultDetail};
use crate::clock::Timestamp;
use crate::ids::{self, fresh_uuid};
use crate::model::{
    Actor, Artifact, ArtifactState, Attempt, AttemptState, AuditRecord, DomainEvent, Job, JobStep,
    Transfer,
};
use crate::text::{self, append_identity};

verus! {

/// What an agent said about an action it was sent.
#[derive(Clone, Copy, Debug, PartialEq, Eq, Structural)]
pub enum ActionEvidence {
    AckAccepted,
    AckRejected,
    ResultSucceeded,
    ResultFailed,
}

/// What an agent answered to a cancellation.
#[derive(Clone, Copy, Debug, PartialEq, Eq, Structural)]
pub enum CancelAckEvidence {
    Cancelled,
    AlreadyCompleted,
    CannotCancel,
    Unknown,
}

/// What an agent reported an action's state to be.
#[derive(Clone, Copy, Debug, PartialEq, Eq, Structural)]
pub enum StatusReportEvidence {
    Accepted,
    Running,
    Succeeded,
    Failed,
    Cancelled,
    Unknown,
}

/// The attempt that evidence is about, with the step and the job it belongs to,
/// all read under one lock.
#[derive(Debug)]
pub struct EvidenceFacts {
    pub job: Job,
    pub job_step: JobStep,
    pub attempt: Attempt,
}

/// The workflow after evidence was applied to it. `terminal` says whether the
/// attempt reached its end.
#[derive(Debug)]
pub struct EvidenceApplied {
    pub attempt: Attempt,
    pub job_step: JobStep,
    pub job: Job,
    pub events: Vec<DomainEvent>,
    pub terminal: bool,
}

/// How the workflow takes a piece of evidence. Only acknowledgements and results
/// can conflict with what is already known.
#[derive(Debug)]
pub enum EvidenceOutcome {
    NoOp,
    Conflict,
    Applied(EvidenceApplied),
}

/// An applied outcome and the audit record that is committed with it.
#[derive(Debug)]
pub struct EvidenceCommit {
    pub outcome: EvidenceApplied,
    pub audit: Option<AuditRecord>,
}

/// What is to be committed for a piece of evidence.
#[derive(Debug)]
pub enum EvidenceDecision {
    NoOp,
    Conflict,
    Applied(EvidenceCommit),
}

/// What was committed for a piece of evidence.
#[derive(Debug)]
pub enum EvidenceResult {
    NoOp,
    Conflict,
    Applied(EvidenceApplied),
}

/// The audit trail's wording of an attempt's end.
pub open spec fn terminal_text(applied: &EvidenceApplied) -> Seq<char> {
    "attempt "@ + text::identity_text("AttemptId"@, applied.attempt.id.0) + " action "@
        + text::identity_text("ActionId"@, applied.attempt.action_id.0)
        + " reached terminal state "@ + applied.attempt.state.name_text() + " for job_step "@
        + text::identity_text("JobStepId"@, applied.job_step.id.0)
}

/// `record` reports, on the system's own authority, that the attempt ended.
pub open spec fn is_terminal_audit(
    record: AuditRecord,
    job: Job,
    applied: EvidenceApplied,
    now: Timestamp,
    suffix: Seq<char>,
) -> bool {
    &&& ids::is_uuid_v4(record.audit_id)
    &&& record.endpoint_id == job.endpoint_id
    &&& record.actor is System
    &&& record.occurred_at == now
    &&& record.detail@ == terminal_text(&applied) + suffix
    &&& record.job_id == Some(job.id)
    &&& record.job_step_id == Some(applied.job_step.id)
    &&& record.attempt_id == Some(applied.attempt.id)
    &&& record.action_id == Some(applied.attempt.action_id)
}

fn terminal_audit(job: &Job, applied: &EvidenceApplied, now: Timestamp, suffix: &str) -> (r:
    AuditRecord)
    ensures
        is_terminal_audit(r, *job, *applied, now, suffix@),
{
    let mut detail = String::new();
    detail.append("attempt ");
    append_identity(&mut detail, "AttemptId", applied.attempt.id.0);
    detail.append(" action ");
    append_identity(&mut detail, "ActionId", applied.attempt.action_id.0);
    detail.append(" reached terminal state ");
    detail.append(applied.attempt.state.name());
    detail.append(" for job_step ");
    append_identity(&mut detail, "JobStepId", applied.job_step.id.0);
    detail.append(suffix);
    assert(detail@ =~= terminal_text(applied) + suffix@);
    AuditRecord {
        audit_id: fresh_uuid(),
        endpoint_id: job.endpoint_id,
        actor: Actor::System,
        occurred_at: now,
        detail,
        job_id: Some(job.id),
        job_step_id: Some(applied.job_step.id),
        attempt_id: Some(applied.attempt.id),
        action_id: Some(applied.attempt.action_id),
    }
}

/// `commit` commits `applied` as it is, with an audit record if and only if the
/// attempt ended.
pub open spec fn commits(
    commit: EvidenceCommit,
    job: Job,
    applied: EvidenceApplied,
    now: Timestamp,
    suffix: Seq<char>,
) -> bool {
    &&& commit.outcome == applied
    &&& match commit.audit {
        Some(record) => applied.terminal && is_terminal_audit(record, job, applied, now, suffix),
        None => !applied.terminal,
    }
}

/// `decision` is what follows from the workflow's `outcome`.
pub open spec fn concludes(
    decision: EvidenceDecision,
    job: Job,
    outcome: EvidenceOutcome,
    now: Timestamp,
    suffix: Seq<char>,
) -> bool {
    match outcome {
        EvidenceOutcome::NoOp => decision is NoOp,
        EvidenceOutcome::Conflict => decision is Conflict,
        EvidenceOutcome::Applied(applied) => {
            &&& decision matches EvidenceDecision::Applied(commit)
            &&& commits(commit, job, applied, now, suffix)
        },
    }
}

/// Turns the workflow's outcome for a piece of evidence into what is committed.
pub fn conclude_evidence(
    facts: &EvidenceFacts,
    outcome: EvidenceOutcome,
    now: Timestamp,
    suffix: &str,
) -> (r: EvidenceDecision)
    ensures
        concludes(r, facts.job, outcome, now, suffix@),
{
    match outcome {
        EvidenceOutcome::NoOp => EvidenceDecision::NoOp,
        EvidenceOutcome::Conflict => EvidenceDecision::Conflict,
        EvidenceOutcome::Applied(applied) => {
            let audit = if applied.terminal {
                Some(terminal_audit(&facts.job, &applied, now, suffix))
            } else {
                None
            };
            EvidenceDecision::Applied(EvidenceCommit { outcome: applied, audit })
        },
    }
}

/// Decides what is committed for an acknowledgement or a result: the workflow is
/// asked about exactly these facts, this evidence and this moment.
pub fn decide_action_evidence<F: FnOnce(&EvidenceFacts, ActionEvidence, Timestamp) -> EvidenceOutcome>(
    facts: &EvidenceFacts,
    evidence: ActionEvidence,
    now: Timestamp,
    workflow: F,
) -> (r: EvidenceDecision)
    requires
        call_requires(workflow, (facts, evidence, now)),
    ensures
        exists|outcome: EvidenceOutcome|
            call_ensures(workflow, (facts, evidence, now), outcome) && #[trigger] concludes(
                r,
                facts.job,
                outcome,
                now,
                ""@,
            ),
{
    let outcome = workflow(facts, evidence, now);
    let decision = conclude_evidence(facts, outcome, now, "");
    decision
}

/// How the workflow takes a cancellation answer or a status report. These never
/// conflict with what is already known.
#[derive(Debug)]
pub enum SettlementOutcome {
    NoOp,
    Applied(EvidenceApplied),
}

impl SettlementOutcome {
    pub open spec fn as_evidence(self) -> EvidenceOutcome {
        match self {
            SettlementOutcome::NoOp => EvidenceOutcome::NoOp,
            SettlementOutcome::Applied(applied) => EvidenceOutcome::Applied(applied),
        }
    }

    fn into_evidence(self) -> (r: EvidenceOutcome)
        ensures
            r == self.as_evidence(),
    {
        match self {
            SettlementOutcome::NoOp => EvidenceOutcome::NoOp,
            SettlementOutcome::Applied(applied) => EvidenceOutcome::Applied(applied),
        }
    }
}

/// Decides what is committed for a cancellation answer.
pub fn decide_cancel_ack<
    F: FnOnce(&EvidenceFacts, CancelAckEvidence, Timestamp) -> SettlementOutcome,
>(facts: &EvidenceFacts, evidence: CancelAckEvidence, now: Timestamp, workflow: F) -> (r:
    EvidenceDecision)
    requires
        call_requires(workflow, (facts, evidence, now)),
    ensures
        exists|outcome: SettlementOutcome|
            call_ensures(workflow, (facts, evidence, now), outcome) && concludes(
                r,
                facts.job,
                #[trigger] outcome.as_evidence(),
                now,
                " via cancellation evidence"@,
            ),
{
    let outcome = workflow(facts, evidence, now);
    conclude_evidence(facts, outcome.into_evidence(), now, " via cancellation evidence")
}

/// Decides what is committed for a status report.
pub fn decide_status_report<
    F: FnOnce(&EvidenceFacts, StatusReportEvidence, Timestamp) -> SettlementOutcome,
>(facts: &EvidenceFacts, evidence: StatusReportEvidence, now: Timestamp, workflow: F) -> (r:
    EvidenceDecision)
    requires
        call_requires(workflow, (facts, evidence, now)),
    ensures
        exists|outcome: SettlementOutcome|
            call_ensures(workflow, (facts, evidence, now), outcome) && concludes(
                r,
                facts.job,
                #[trigger] outcome.as_evidence(),
                now,
                " via reconciliation evidence"@,
            ),
{
    let outcome = workflow(facts, evidence, now);
    conclude_evidence(facts, outcome.into_evidence(), now, " via reconciliation evidence")
}

/// An attempt that moves data: its workflow, its transfer and the artifact that
/// the transfer fills, all read under one lock.
#[derive(Debug)]
pub struct TransferEvidenceFacts {
    pub workflow: EvidenceFacts,
    pub transfer: Transfer,
    pub artifact: Artifact,
}

impl TransferEvidenceFacts {
    /// The artifact is the transfer's, and the transfer is the attempt's.
    pub open spec fn bound(&self) -> bool {
        &&& self.transfer.artifact_id == self.artifact.id
        &&& self.transfer.attempt_id == Some(self.workflow.attempt.id)
    }

    fn is_bound(&self) -> (r: bool)
        ensures
            r == self.bound(),
    {
        self.transfer.artifact_id == self.artifact.id && match self.transfer.attempt_id {
            Some(attempt_id) => attempt_id == self.workflow.attempt.id,
            None => false,
        }
    }
}

/// What is to be committed for evidence about a transfer. `artifact_failed` is
/// the artifact after it failed along with the attempt.
#[derive(Debug)]
pub enum TransferDecision {
    NoOp,
    Conflict,
    FailClosed,
    Applied { commit: EvidenceCommit, artifact_failed: Option<Artifact> },
}

/// The artifact after `Incomplete -> Failed`.
pub open spec fn failed_artifact(artifact: Artifact) -> Artifact {
    Artifact { state: ArtifactState::Failed, ..artifact }
}

/// `Incomplete -> Failed`, the only way in which an artifact fails without
/// having been verified.
pub fn fail_incomplete(artifact: &Artifact) -> (r: Option<Artifact>)
    ensures
        r == (if artifact.state is Incomplete {
            Some(failed_artifact(*artifact))
        } else {
            None
        }),
{
    match artifact.state {
        ArtifactState::Incomplete => Some(
            Artifact {
                id: artifact.id,
                state: ArtifactState::Failed,
                capture_consistency: artifact.capture_consistency,
            },
        ),
        _ => None,
    }
}

/// What a result code says about the action.
pub open spec fn code_evidence(code: TransferResultCode) -> ActionEvidence {
    if code is TransferVerified {
        ActionEvidence::ResultSucceeded
    } else {
        ActionEvidence::ResultFailed
    }
}

/// The durable artifact bears the code out. An agent's word alone never does.
pub open spec fn artifact_supports(code: TransferResultCode, artifact: Artifact) -> bool {
    match code {
        TransferResultCode::TransferVerified => artifact.state is Verified,
        TransferResultCode::ArtifactVerificationFailed => artifact.state is Failed,
        TransferResultCode::ChunkVerificationFailed | TransferResultCode::TransferAbandoned =>
            artifact.state is Incomplete,
    }
}

/// The code is itself the reason for the artifact to fail.
pub open spec fn code_fails_artifact(code: TransferResultCode) -> bool {
    code is ChunkVerificationFailed || code is TransferAbandoned
}

/// The name of a result code.
pub open spec fn code_name(code: TransferResultCode) -> Seq<char> {
    match code {
        TransferResultCode::TransferVerified => "TransferVerified"@,
        TransferResultCode::ArtifactVerificationFailed => "ArtifactVerificationFailed"@,
        TransferResultCode::ChunkVerificationFailed => "ChunkVerificationFailed"@,
        TransferResultCode::TransferAbandoned => "TransferAbandoned"@,
    }
}

/// What the audit trail adds about a transfer's end.
pub open spec fn transfer_suffix(code: TransferResultCode) -> Seq<char> {
    " (bamep.m1.data-plane-transfer: "@ + code_name(code) + (if code_fails_artifact(code) {
        ", artifact Incomplete -> Failed"@
    } else {
        ""@
    }) + ")"@
}

fn transfer_suffix_text(code: TransferResultCode) -> (r: String)
    ensures
        r@ == transfer_suffix(code),
{
    let mut suffix = String::new();
    suffix.append(" (bamep.m1.data-plane-transfer: ");
    match code {
        TransferResultCode::TransferVerified => {
            suffix.append("TransferVerified");
        },
        TransferResultCode::ArtifactVerificationFailed => {
            suffix.append("ArtifactVerificationFailed");
        },
        TransferResultCode::ChunkVerificationFailed => {
            suffix.append("ChunkVerificationFailed");
            suffix.append(", artifact Incomplete -> Failed");
        },
        TransferResultCode::TransferAbandoned => {
            suffix.append("TransferAbandoned");
            suffix.append(", artifact Incomplete -> Failed");
        },
    }
    suffix.append(")");
    proof {
        reveal_strlit("");
    }
    assert(suffix@ =~= transfer_suffix(code));
    suffix
}

/// `decision` is what follows from the workflow's `outcome` for a transfer's
/// result.
pub open spec fn transfer_result_concludes(
    decision: TransferDecision,
    code: TransferResultCode,
    facts: TransferEvidenceFacts,
    outcome: EvidenceOutcome,
    now: Timestamp,
) -> bool {
    match outcome {
        EvidenceOutcome::NoOp => decision is NoOp,
        EvidenceOutcome::Conflict => decision is Conflict,
        EvidenceOutcome::Applied(applied) => if artifact_supports(code, facts.artifact) {
            &&& decision matches TransferDecision::Applied { commit, artifact_failed }
            &&& commits(commit, facts.workflow.job, applied, now, transfer_suffix(code))
            &&& artifact_failed == (if code_fails_artifact(code) {
                Some(failed_artifact(facts.artifact))
            } else {
                None
            })
        } else {
            decision is FailClosed
        },
    }
}

/// Turns the workflow's outcome for a transfer's result into what is committed.
pub fn conclude_transfer_result(
    code: TransferResultCode,
    facts: &TransferEvidenceFacts,
    outcome: EvidenceOutcome,
    now: Timestamp,
) -> (r: TransferDecision)
    ensures
        transfer_result_concludes(r, code, *facts, outcome, now),
{
    let applied = match outcome {
        EvidenceOutcome::NoOp => {
            return TransferDecision::NoOp;
        },
        EvidenceOutcome::Conflict => {
            return TransferDecision::Conflict;
        },
        EvidenceOutcome::Applied(applied) => applied,
    };
    let artifact_failed = match code {
        TransferResultCode::TransferVerified => {
            if !matches!(facts.artifact.state, ArtifactState::Verified) {
                return TransferDecision::FailClosed;
            }
            None
        },
        TransferResultCode::ArtifactVerificationFailed => {
            if !matches!(facts.artifact.state, ArtifactState::Failed) {
                return TransferDecision::FailClosed;
            }
            None
        },
        TransferResultCode::ChunkVerificationFailed | TransferResultCode::TransferAbandoned => {
            match fail_incomplete(&facts.artifact) {
                Some(failed) => Some(failed),
                None => {
                    return TransferDecision::FailClosed;
                },
            }
        },
    };
    let audit = if applied.terminal {
        let suffix = transfer_suffix_text(code);
        Some(terminal_audit(&facts.workflow.job, &applied, now, suffix.as_str()))
    } else {
        None
    };
    TransferDecision::Applied { commit: EvidenceCommit { outcome: applied, audit }, artifact_failed }
}

/// The result names exactly the artifact that is bound to the attempt.
pub open spec fn result_correlates(
    detail: TransferResultDetail,
    facts: &TransferEvidenceFacts,
) -> bool {
    detail.artifact_id == facts.artifact.id.0 && facts.bound()
}

/// Decides what is committed for a transfer's result. A result that names
/// another artifact commits nothing, and the workflow is not asked.
pub fn decide_transfer_terminal_evidence<
    F: FnOnce(&EvidenceFacts, ActionEvidence, Timestamp) -> EvidenceOutcome,
>(detail: TransferResultDetail, facts: &TransferEvidenceFacts, now: Timestamp, workflow: F) -> (r:
    TransferDecision)
    requires
        call_requires(workflow, (&facts.workflow, code_evidence(detail.code), now)),
    ensures
        !result_correlates(detail, facts) ==> r is FailClosed,
        result_correlates(detail, facts) ==> exists|outcome: EvidenceOutcome|
            call_ensures(workflow, (&facts.workflow, code_evidence(detail.code), now), outcome)
                && #[trigger] transfer_result_concludes(r, detail.code, *facts, outcome, now),
{
    if detail.artifact_id != facts.artifact.id.0 || !facts.is_bound() {
        return TransferDecision::FailClosed;
    }
    let evidence = match detail.code {
        TransferResultCode::TransferVerified => ActionEvidence::ResultSucceeded,
        TransferResultCode::ArtifactVerificationFailed
        | TransferResultCode::ChunkVerificationFailed
        | TransferResultCode::TransferAbandoned => ActionEvidence::ResultFailed,
    };
    let outcome = workflow(&facts.workflow, evidence, now);
    conclude_transfer_result(detail.code, facts, outcome, now)
}

/// The attempt was cancelled for good while its artifact was still incomplete.
pub open spec fn cancellation_fails_artifact(applied: EvidenceApplied, artifact: Artifact) -> bool {
    applied.terminal && applied.attempt.state is Cancelled && artifact.state is Incomplete
}

/// `decision` is what follows from the workflow's `outcome` for a cancellation
/// that concerns a transfer. `artifact_note` is added to the audit record where
/// the artifact fails.
pub open spec fn transfer_cancellation_concludes(
    decision: TransferDecision,
    facts: TransferEvidenceFacts,
    outcome: SettlementOutcome,
    now: Timestamp,
    suffix: Seq<char>,
    artifact_note: Seq<char>,
) -> bool {
    match outcome {
        SettlementOutcome::NoOp => decision is NoOp,
        SettlementOutcome::Applied(applied) => {
            let fails = cancellation_fails_artifact(applied, facts.artifact);
            &&& decision matches TransferDecision::Applied { commit, artifact_failed }
            &&& commits(
                commit,
                facts.workflow.job,
                applied,
                now,
                suffix + (if fails {
                    artifact_note
                } else {
                    ""@
                }),
            )
            &&& artifact_failed == (if fails {
                Some(failed_artifact(facts.artifact))
            } else {
                None
            })
        },
    }
}

/// Turns the workflow's outcome for a cancellation that concerns a transfer into
/// what is committed. The artifact fails with the attempt exactly when the
/// attempt is cancelled for good and the artifact is still incomplete; any other
/// artifact is left alone.
pub fn conclude_transfer_cancellation(
    facts: &TransferEvidenceFacts,
    outcome: SettlementOutcome,
    now: Timestamp,
    suffix: &str,
    artifact_note: &str,
) -> (r: TransferDecision)
    ensures
        transfer_cancellation_concludes(r, *facts, outcome, now, suffix@, artifact_note@),
{
    let applied = match outcome {
        SettlementOutcome::NoOp => {
            return TransferDecision::NoOp;
        },
        SettlementOutcome::Applied(applied) => applied,
    };
    let artifact_failed = if applied.terminal && matches!(
        applied.attempt.state,
        AttemptState::Cancelled
    ) {
        fail_incomplete(&facts.artifact)
    } else {
        None
    };
    let audit = if applied.terminal {
        let mut full = String::new();
        full.append(suffix);
        full.append(
            if artifact_failed.is_some() {
                artifact_note
            } else {
                ""
            },
        );
        assert(full@ =~= suffix@ + (if artifact_failed is Some {
            artifact_note@
        } else {
            ""@
        }));
        Some(terminal_audit(&facts.workflow.job, &applied, now, full.as_str()))
    } else {
        None
    };
    TransferDecision::Applied { commit: EvidenceCommit { outcome: applied, audit }, artifact_failed }
}

/// Decides what is committed for a cancellation answer about a transfer. Facts
/// that do not belong together commit nothing, and the workflow is not asked.
pub fn decide_transfer_cancel_ack<
    F: FnOnce(&EvidenceFacts, CancelAckEvidence, Timestamp) -> SettlementOutcome,
>(evidence: CancelAckEvidence, facts: &TransferEvidenceFacts, now: Timestamp, workflow: F) -> (r:
    TransferDecision)
    requires
        call_requires(workflow, (&facts.workflow, evidence, now)),
    ensures
        !facts.bound() ==> r is NoOp,
        facts.bound() ==> exists|outcome: SettlementOutcome|
            call_ensures(workflow, (&facts.workflow, evidence, now), outcome)
                && #[trigger] transfer_cancellation_concludes(
                r,
                *facts,
                outcome,
                now,
                " via cancellation evidence"@,
                " (bamep.m1.data-plane-transfer: artifact Incomplete -> Failed)"@,
            ),
{
    if !facts.is_bound() {
        return TransferDecision::NoOp;
    }
    let outcome = workflow(&facts.workflow, evidence, now);
    conclude_transfer_cancellation(
        facts,
        outcome,
        now,
        " via cancellation evidence",
        " (bamep.m1.data-plane-transfer: artifact Incomplete -> Failed)",
    )
}

/// Decides what is committed when an agent reports a transfer as cancelled.
pub fn decide_transfer_status_report_cancelled<
    F: FnOnce(&EvidenceFacts, StatusReportEvidence, Timestamp) -> SettlementOutcome,
>(facts: &TransferEvidenceFacts, now: Timestamp, workflow: F) -> (r: TransferDecision)
    requires
        call_requires(workflow, (&facts.workflow, StatusReportEvidence::Cancelled, now)),
    ensures
        !facts.bound() ==> r is NoOp,
        facts.bound() ==> exists|outcome: SettlementOutcome|
            call_ensures(workflow, (&facts.workflow, StatusReportEvidence::Cancelled, now), outcome)
                && #[trigger] transfer_cancellation_concludes(
                r,
                *facts,
                outcome,
                now,
                " via reconciliation evidence"@,
                ", artifact Incomplete -> Failed"@,
            ),
{
    if !facts.is_bound() {
        return TransferDecision::NoOp;
    }
    let outcome = workflow(&facts.workflow, StatusReportEvidence::Cancelled, now);
    conclude_transfer_cancellation(
        facts,
        outcome,
        now,
        " via reconciliation evidence",
        ", artifact Incomplete -> Failed",
    )
}

/// Success is committed only for an artifact that is durably verified, whatever
/// the agent claims.
pub proof fn success_needs_a_verified_artifact(
    decision: TransferDecision,
    facts: TransferEvidenceFacts,
    outcome: EvidenceOutcome,
    now: Timestamp,
)
    requires
        transfer_result_concludes(
            decision,
            TransferResultCode::TransferVerified,
            facts,
            outcome,
            now,
        ),
        decision is Applied,
    ensures
        facts.artifact.state is Verified,
{
}

/// A result never changes an artifact that is past being incomplete.
pub proof fn result_never_rewrites_a_settled_artifact(
    decision: TransferDecision,
    code: TransferResultCode,
    facts: TransferEvidenceFacts,
    outcome: EvidenceOutcome,
    now: Timestamp,
)
    requires
        transfer_result_concludes(decision, code, facts, outcome, now),
    ensures
        decision matches TransferDecision::Applied { artifact_failed: Some(failed), .. } ==> {
            &&& facts.artifact.state is Incomplete
            &&& failed == failed_artifact(facts.artifact)
        },
{
}

/// A cancellation never changes an artifact that is past being incomplete.
pub proof fn cancellation_never_rewrites_a_settled_artifact(
    decision: TransferDecision,
    facts: TransferEvidenceFacts,
    outcome: SettlementOutcome,
    now: Timestamp,
    suffix: Seq<char>,
    artifact_note: Seq<char>,
)
    requires
        transfer_cancellation_concludes(decision, facts, outcome, now, suffix, artifact_note),
    ensures
        decision matches TransferDecision::Applied { artifact_failed: Some(failed), .. } ==> {
            &&& facts.artifact.state is Incomplete
            &&& failed == failed_artifact(facts.artifact)
        },
{
}

/// A cancellation that leaves the attempt's outcome open leaves the artifact
/// alone, and the audit trail too.
pub proof fn open_cancellation_leaves_the_artifact_alone(
    decision: TransferDecision,
    facts: TransferEvidenceFacts,
    applied: EvidenceApplied,
    now: Timestamp,
    suffix: Seq<char>,
    artifact_note: Seq<char>,
)
    requires
        !applied.terminal,
        transfer_cancellation_concludes(
            decision,
            facts,
            SettlementOutcome::Applied(applied),
            now,
            suffix,
            artifact_note,
        ),
    ensures
        decision matches TransferDecision::Applied { commit, artifact_failed } && commit.audit
            is None && artifact_failed is None,
{
}

/// What is committed for an acknowledgement or a result is what the workflow makes
/// of it, and the end of the attempt, and nothing else, is in the audit trail.
pub proof fn action_evidence_is_committed_as_the_workflow_takes_it<
    F: FnOnce(&EvidenceFacts, ActionEvidence, Timestamp) -> EvidenceOutcome,
>(
    facts: EvidenceFacts,
    evidence: ActionEvidence,
    now: Timestamp,
    workflow: F,
    outcome: EvidenceOutcome,
    decision: EvidenceDecision,
)
    requires
        call_ensures(decide_action_evidence::<F>, (&facts, evidence, now, workflow), decision),
        forall|about: EvidenceFacts, said: ActionEvidence, at: Timestamp, answer: EvidenceOutcome|
            #[trigger] call_ensures(workflow, (&about, said, at), answer) && about == facts && said
                == evidence && at == now ==> answer == outcome,
    ensures
        decision is NoOp <==> outcome is NoOp,
        decision is Conflict <==> outcome is Conflict,
        outcome matches EvidenceOutcome::Applied(applied) ==> {
            &&& decision matches EvidenceDecision::Applied(commit)
            &&& commit.outcome == applied
            &&& commit.audit is Some <==> applied.terminal
            &&& commit.audit matches Some(record) ==> {
                &&& ids::is_uuid_v4(record.audit_id)
                &&& record.endpoint_id == facts.job.endpoint_id
                &&& record.actor == Actor::System
                &&& record.occurred_at == now
                &&& record.job_id == Some(facts.job.id)
                &&& record.job_step_id == Some(commit.outcome.job_step.id)
                &&& record.attempt_id == Some(commit.outcome.attempt.id)
                &&& record.action_id == Some(commit.outcome.attempt.action_id)
                &&& record.detail@ == "attempt "@ + text::identity_text(
                    "AttemptId"@,
                    commit.outcome.attempt.id.0,
                ) + " action "@ + text::identity_text(
                    "ActionId"@,
                    commit.outcome.attempt.action_id.0,
                ) + " reached terminal state "@ + commit.outcome.attempt.state.name_text()
                    + " for job_step "@ + text::identity_text(
                    "JobStepId"@,
                    commit.outcome.job_step.id.0,
                ) + ""@
            }
        },
{
}

/// The same of the answer to a cancellation, which the audit trail tells apart.
pub proof fn cancel_ack_is_committed_as_the_workflow_takes_it<
    F: FnOnce(&EvidenceFacts, CancelAckEvidence, Timestamp) -> SettlementOutcome,
>(
    facts: EvidenceFacts,
    evidence: CancelAckEvidence,
    now: Timestamp,
    workflow: F,
    outcome: SettlementOutcome,
    decision: EvidenceDecision,
)
    requires
        call_ensures(decide_cancel_ack::<F>, (&facts, evidence, now, workflow), decision),
        forall|about: EvidenceFacts, said: CancelAckEvidence, at: Timestamp, answer: SettlementOutcome|
            #[trigger] call_ensures(workflow, (&about, said, at), answer) && about == facts && said
                == evidence && at == now ==> answer == outcome,
    ensures
        decision is NoOp <==> outcome is NoOp,
        !(decision is Conflict),
        outcome matches SettlementOutcome::Applied(applied) ==> {
            &&& decision matches EvidenceDecision::Applied(commit)
            &&& commit.outcome == applied
            &&& commit.audit is Some <==> applied.terminal
            &&& commit.audit matches Some(record) ==> {
                &&& ids::is_uuid_v4(record.audit_id)
                &&& record.endpoint_id == facts.job.endpoint_id
                &&& record.actor == Actor::System
                &&& record.occurred_at == now
                &&& record.job_id == Some(facts.job.id)
                &&& record.job_step_id == Some(commit.outcome.job_step.id)
                &&& record.attempt_id == Some(commit.outcome.attempt.id)
                &&& record.action_id == Some(commit.outcome.attempt.action_id)
                &&& record.detail@ == "attempt "@ + text::identity_text(
                    "AttemptId"@,
                    commit.outcome.attempt.id.0,
                ) + " action "@ + text::identity_text(
                    "ActionId"@,
                    commit.outcome.attempt.action_id.0,
                ) + " reached terminal state "@ + commit.outcome.attempt.state.name_text()
                    + " for job_step "@ + text::identity_text(
                    "JobStepId"@,
                    commit.outcome.job_step.id.0,
                ) + " via cancellation evidence"@
            }
        },
{
}

/// The same of a status report.
pub proof fn status_report_is_committed_as_the_workflow_takes_it<
    F: FnOnce(&EvidenceFacts, StatusReportEvidence, Timestamp) -> SettlementOutcome,
>(
    facts: EvidenceFacts,
    evidence: StatusReportEvidence,
    now: Timestamp,
    workflow: F,
    outcome: SettlementOutcome,
    decision: EvidenceDecision,
)
    requires
        call_ensures(decide_status_report::<F>, (&facts, evidence, now, workflow), decision),
        forall|about: EvidenceFacts, said: StatusReportEvidence, at: Timestamp, answer: SettlementOutcome|
            #[trigger] call_ensures(workflow, (&about, said, at), answer) && about == facts && said
                == evidence && at == now ==> answer == outcome,
    ensures
        decision is NoOp <==> outcome is NoOp,
        !(decision is Conflict),
        outcome matches SettlementOutcome::Applied(applied) ==> {
            &&& decision matches EvidenceDecision::Applied(commit)
            &&& commit.outcome == applied
            &&& commit.audit is Some <==> applied.terminal
            &&& commit.audit matches Some(record) ==> {
                &&& ids::is_uuid_v4(record.audit_id)
                &&& record.endpoint_id == facts.job.endpoint_id
                &&& record.actor == Actor::System
                &&& record.occurred_at == now
                &&& record.job_id == Some(facts.job.id)
                &&& record.job_step_id == Some(commit.outcome.job_step.id)
                &&& record.attempt_id == Some(commit.outcome.attempt.id)
                &&& record.action_id == Some(commit.outcome.attempt.action_id)
                &&& record.detail@ == "attempt "@ + text::identity_text(
                    "AttemptId"@,
                    commit.outcome.attempt.id.0,
                ) + " action "@ + text::identity_text(
                    "ActionId"@,
                    commit.outcome.attempt.action_id.0,
                ) + " reached terminal state "@ + commit.outcome.attempt.state.name_text()
                    + " for job_step "@ + text::identity_text(
                    "JobStepId"@,
                    commit.outcome.job_step.id.0,
                ) + " via reconciliation evidence"@
            }
        },
{
}

/// The workflow is asked about success exactly for the code that says so, and about
/// failure for each of the other three; its answer is what is committed.
pub proof fn workflow_is_asked_what_the_code_says<
    F: FnOnce(&EvidenceFacts, ActionEvidence, Timestamp) -> EvidenceOutcome,
>(
    detail: TransferResultDetail,
    facts: TransferEvidenceFacts,
    now: Timestamp,
    workflow: F,
    commit: EvidenceCommit,
    artifact_failed: Option<Artifact>,
)
    requires
        call_ensures(
            decide_transfer_terminal_evidence::<F>,
            (detail, &facts, now, workflow),
            TransferDecision::Applied { commit, artifact_failed },
        ),
    ensures
        exists|evidence: ActionEvidence|
            {
                &&& #[trigger] call_ensures(
                    workflow,
                    (&facts.workflow, evidence, now),
                    EvidenceOutcome::Applied(commit.outcome),
                )
                &&& evidence == ActionEvidence::ResultSucceeded <==> detail.code
                    == TransferResultCode::TransferVerified
                &&& evidence == ActionEvidence::ResultFailed <==> (detail.code
                    == TransferResultCode::ArtifactVerificationFailed || detail.code
                    == TransferResultCode::ChunkVerificationFailed || detail.code
                    == TransferResultCode::TransferAbandoned)
                &&& evidence == ActionEvidence::ResultSucceeded ==> facts.artifact.state
                    == ArtifactState::Verified
            },
{
    assert(call_ensures(
        workflow,
        (&facts.workflow, code_evidence(detail.code), now),
        EvidenceOutcome::Applied(commit.outcome),
    ));
}

/// Where the workflow lets an attempt succeed on success alone, a transfer's result
/// lets it succeed exactly with the success code, and then its artifact is durably
/// verified; no artifact that fails or stays unverified goes with a success.
pub proof fn attempt_succeeds_only_with_a_verified_artifact<
    F: FnOnce(&EvidenceFacts, ActionEvidence, Timestamp) -> EvidenceOutcome,
>(
    detail: TransferResultDetail,
    facts: TransferEvidenceFacts,
    now: Timestamp,
    workflow: F,
    commit: EvidenceCommit,
    artifact_failed: Option<Artifact>,
)
    requires
        forall|about: EvidenceFacts, said: ActionEvidence, at: Timestamp, answer: EvidenceOutcome|
            #[trigger] call_ensures(workflow, (&about, said, at), answer) ==> (answer
                matches EvidenceOutcome::Applied(applied) ==> (applied.attempt.state is Succeeded
                <==> said is ResultSucceeded)),
        call_ensures(
            decide_transfer_terminal_evidence::<F>,
            (detail, &facts, now, workflow),
            TransferDecision::Applied { commit, artifact_failed },
        ),
    ensures
        commit.outcome.attempt.state is Succeeded <==> detail.code
            == TransferResultCode::TransferVerified,
        commit.outcome.attempt.state is Succeeded ==> facts.artifact.state == ArtifactState::Verified
            && artifact_failed is None,
        artifact_failed is Some ==> !(commit.outcome.attempt.state is Succeeded),
{
    workflow_is_asked_what_the_code_says(detail, facts, now, workflow, commit, artifact_failed);
}

/// A result that the workflow takes is committed exactly where it names the artifact
/// of the attempt's own transfer and the durable artifact bears the code out; the
/// artifact then fails along with it exactly where the code says that it never became
/// complete.
pub proof fn transfer_result_needs_its_artifact<
    F: FnOnce(&EvidenceFacts, ActionEvidence, Timestamp) -> EvidenceOutcome,
>(
    detail: TransferResultDetail,
    facts: TransferEvidenceFacts,
    now: Timestamp,
    workflow: F,
    decision: TransferDecision,
)
    requires
        forall|about: EvidenceFacts, said: ActionEvidence, at: Timestamp, answer: EvidenceOutcome|
            #[trigger] call_ensures(workflow, (&about, said, at), answer) ==> answer is Applied,
        call_ensures(
            decide_transfer_terminal_evidence::<F>,
            (detail, &facts, now, workflow),
            decision,
        ),
    ensures
        decision is Applied || decision is FailClosed,
        decision is Applied <==> {
            &&& detail.artifact_id == facts.artifact.id.0
            &&& facts.transfer.artifact_id.0 == facts.artifact.id.0
            &&& facts.transfer.attempt_id matches Some(bound) && bound.0
                == facts.workflow.attempt.id.0
            &&& detail.code == TransferResultCode::TransferVerified ==> facts.artifact.state
                == ArtifactState::Verified
            &&& detail.code == TransferResultCode::ArtifactVerificationFailed
                ==> facts.artifact.state == ArtifactState::Failed
            &&& detail.code == TransferResultCode::ChunkVerificationFailed ==> facts.artifact.state
                == ArtifactState::Incomplete
            &&& detail.code == TransferResultCode::TransferAbandoned ==> facts.artifact.state
                == ArtifactState::Incomplete
        },
        decision matches TransferDecision::Applied { artifact_failed, .. } ==> {
            &&& artifact_failed is Some <==> (detail.code
                == TransferResultCode::ChunkVerificationFailed || detail.code
                == TransferResultCode::TransferAbandoned)
            &&& artifact_failed matches Some(failed) ==> failed.id == facts.artifact.id
                && failed.state == ArtifactState::Failed && failed.capture_consistency
                == facts.artifact.capture_consistency
        },
{
    if decision is Applied {
        let outcome = choose|outcome: EvidenceOutcome|
            call_ensures(workflow, (&facts.workflow, code_evidence(detail.code), now), outcome)
                && #[trigger] transfer_result_concludes(decision, detail.code, facts, outcome, now);
        assert(outcome is Applied);
    }
}

/// What the workflow does not take of a transfer's result commits nothing.
pub proof fn untaken_transfer_result_commits_nothing<
    F: FnOnce(&EvidenceFacts, ActionEvidence, Timestamp) -> EvidenceOutcome,
>(
    detail: TransferResultDetail,
    facts: TransferEvidenceFacts,
    now: Timestamp,
    workflow: F,
    conflicts: bool,
    decision: TransferDecision,
)
    requires
        forall|about: EvidenceFacts, said: ActionEvidence, at: Timestamp, answer: EvidenceOutcome|
            #[trigger] call_ensures(workflow, (&about, said, at), answer) ==> answer == (
            if conflicts {
                EvidenceOutcome::Conflict
            } else {
                EvidenceOutcome::NoOp
            }),
        call_ensures(
            decide_transfer_terminal_evidence::<F>,
            (detail, &facts, now, workflow),
            decision,
        ),
    ensures
        decision is Conflict ==> conflicts,
        decision is NoOp ==> !conflicts,
        !(decision is Applied),
        decision is FailClosed <==> !(detail.artifact_id == facts.artifact.id.0
            && facts.transfer.artifact_id == facts.artifact.id && facts.transfer.attempt_id == Some(
            facts.workflow.attempt.id,
        )),
{
}

/// The end of a transfer's attempt is in the audit trail with the code that ended it
/// and, exactly where the artifact failed with it, that it did.
pub proof fn transfer_result_is_audited<
    F: FnOnce(&EvidenceFacts, ActionEvidence, Timestamp) -> EvidenceOutcome,
>(
    detail: TransferResultDetail,
    facts: TransferEvidenceFacts,
    now: Timestamp,
    workflow: F,
    commit: EvidenceCommit,
    artifact_failed: Option<Artifact>,
)
    requires
        call_ensures(
            decide_transfer_terminal_evidence::<F>,
            (detail, &facts, now, workflow),
            TransferDecision::Applied { commit, artifact_failed },
        ),
    ensures
        commit.audit is Some <==> commit.outcome.terminal,
        commit.audit matches Some(record) ==> {
            &&& ids::is_uuid_v4(record.audit_id)
            &&& record.endpoint_id == facts.workflow.job.endpoint_id
            &&& record.actor == Actor::System
            &&& record.occurred_at == now
            &&& record.job_id == Some(facts.workflow.job.id)
            &&& record.job_step_id == Some(commit.outcome.job_step.id)
            &&& record.attempt_id == Some(commit.outcome.attempt.id)
            &&& record.action_id == Some(commit.outcome.attempt.action_id)
            &&& record.detail@ == "attempt "@ + text::identity_text(
                "AttemptId"@,
                commit.outcome.attempt.id.0,
            ) + " action "@ + text::identity_text(
                "ActionId"@,
                commit.outcome.attempt.action_id.0,
            ) + " reached terminal state "@ + commit.outcome.attempt.state.name_text()
                + " for job_step "@ + text::identity_text(
                "JobStepId"@,
                commit.outcome.job_step.id.0,
            ) + (
            " (bamep.m1.data-plane-transfer: "@ + code_name(detail.code) + (
            if artifact_failed is Some {
                ", artifact Incomplete -> Failed"@
            } else {
                ""@
            }) + ")"@)
        },
        detail.code is TransferVerified ==> code_name(detail.code) == "TransferVerified"@,
        detail.code is ArtifactVerificationFailed ==> code_name(detail.code)
            == "ArtifactVerificationFailed"@,
        detail.code is ChunkVerificationFailed ==> code_name(detail.code)
            == "ChunkVerificationFailed"@,
        detail.code is TransferAbandoned ==> code_name(detail.code) == "TransferAbandoned"@,
{
}

/// Only an incomplete artifact fails this way, and nothing but its state changes.
pub proof fn only_an_incomplete_artifact_fails(artifact: Artifact, r: Option<Artifact>)
    requires
        call_ensures(fail_incomplete, (&artifact,), r),
    ensures
        r is Some <==> artifact.state == ArtifactState::Incomplete,
        r matches Some(failed) ==> failed.id == artifact.id && failed.state == ArtifactState::Failed
            && failed.capture_consistency == artifact.capture_consistency,
{
}

/// The answer to a cancellation of a transfer is committed as the workflow takes it,
/// for the attempt's own transfer alone; the artifact fails with it exactly where
/// the attempt was cancelled for good while the artifact was incomplete.
pub proof fn transfer_cancel_ack_is_committed_as_the_workflow_takes_it<
    F: FnOnce(&EvidenceFacts, CancelAckEvidence, Timestamp) -> SettlementOutcome,
>(
    facts: TransferEvidenceFacts,
    evidence: CancelAckEvidence,
    now: Timestamp,
    workflow: F,
    outcome: SettlementOutcome,
    decision: TransferDecision,
)
    requires
        call_ensures(decide_transfer_cancel_ack::<F>, (evidence, &facts, now, workflow), decision),
        forall|about: EvidenceFacts, said: CancelAckEvidence, at: Timestamp, answer: SettlementOutcome|
            #[trigger] call_ensures(workflow, (&about, said, at), answer) && about == facts.workflow
                && said == evidence && at == now ==> answer == outcome,
    ensures
        !(decision is Conflict) && !(decision is FailClosed),
        decision is Applied <==> {
            &&& outcome is Applied
            &&& facts.transfer.artifact_id.0 == facts.artifact.id.0
            &&& facts.transfer.attempt_id matches Some(bound) && bound.0
                == facts.workflow.attempt.id.0
        },
        decision matches TransferDecision::Applied { commit, artifact_failed } ==> {
            &&& outcome == SettlementOutcome::Applied(commit.outcome)
            &&& artifact_failed is Some <==> commit.outcome.terminal && commit.outcome.attempt.state
                == AttemptState::Cancelled && facts.artifact.state == ArtifactState::Incomplete
            &&& artifact_failed matches Some(failed) ==> failed.id == facts.artifact.id
                && failed.state == ArtifactState::Failed && failed.capture_consistency
                == facts.artifact.capture_consistency
            &&& commit.audit is Some <==> commit.outcome.terminal
            &&& commit.audit matches Some(record) ==> {
                &&& ids::is_uuid_v4(record.audit_id)
                &&& record.endpoint_id == facts.workflow.job.endpoint_id
                &&& record.actor == Actor::System
                &&& record.occurred_at == now
                &&& record.job_id == Some(facts.workflow.job.id)
                &&& record.job_step_id == Some(commit.outcome.job_step.id)
                &&& record.attempt_id == Some(commit.outcome.attempt.id)
                &&& record.action_id == Some(commit.outcome.attempt.action_id)
                &&& record.detail@ == "attempt "@ + text::identity_text(
                    "AttemptId"@,
                    commit.outcome.attempt.id.0,
                ) + " action "@ + text::identity_text(
                    "ActionId"@,
                    commit.outcome.attempt.action_id.0,
                ) + " reached terminal state "@ + commit.outcome.attempt.state.name_text()
                    + " for job_step "@ + text::identity_text(
                    "JobStepId"@,
                    commit.outcome.job_step.id.0,
                ) + (" via cancellation evidence"@ + (if artifact_failed is Some {
                    " (bamep.m1.data-plane-transfer: artifact Incomplete -> Failed)"@
                } else {
                    ""@
                }))
            }
        },
{
}

/// The same of the report that a transfer was cancelled.
pub proof fn transfer_cancelled_report_is_committed_as_the_workflow_takes_it<
    F: FnOnce(&EvidenceFacts, StatusReportEvidence, Timestamp) -> SettlementOutcome,
>(
    facts: TransferEvidenceFacts,
    now: Timestamp,
    workflow: F,
    outcome: SettlementOutcome,
    decision: TransferDecision,
)
    requires
        call_ensures(decide_transfer_status_report_cancelled::<F>, (&facts, now, workflow), decision),
        forall|about: EvidenceFacts, said: StatusReportEvidence, at: Timestamp, answer: SettlementOutcome|
            #[trigger] call_ensures(workflow, (&about, said, at), answer) && about == facts.workflow
                && said == StatusReportEvidence::Cancelled && at == now ==> answer == outcome,
    ensures
        !(decision is Conflict) && !(decision is FailClosed),
        decision is Applied <==> {
            &&& outcome is Applied
            &&& facts.transfer.artifact_id.0 == facts.artifact.id.0
            &&& facts.transfer.attempt_id matches Some(bound) && bound.0
                == facts.workflow.attempt.id.0
        },
        decision matches TransferDecision::Applied { commit, artifact_failed } ==> {
            &&& outcome == SettlementOutcome::Applied(commit.outcome)
            &&& artifact_failed is Some <==> commit.outcome.terminal && commit.outcome.attempt.state
                == AttemptState::Cancelled && facts.artifact.state == ArtifactState::Incomplete
            &&& artifact_failed matches Some(failed) ==> failed.id == facts.artifact.id
                && failed.state == ArtifactState::Failed && failed.capture_consistency
                == facts.artifact.capture_consistency
            &&& commit.audit is Some <==> commit.outcome.terminal
            &&& commit.audit matches Some(record) ==> {
                &&& ids::is_uuid_v4(record.audit_id)
                &&& record.endpoint_id == facts.workflow.job.endpoint_id
                &&& record.actor == Actor::System
                &&& record.occurred_at == now
                &&& record.job_id == Some(facts.workflow.job.id)
                &&& record.job_step_id == Some(commit.outcome.job_step.id)
                &&& record.attempt_id == Some(commit.outcome.attempt.id)
                &&& record.action_id == Some(commit.outcome.attempt.action_id)
                &&& record.detail@ == "attempt "@ + text::identity_text(
                    "AttemptId"@,
                    commit.outcome.attempt.id.0,
                ) + " action "@ + text::identity_text(
                    "ActionId"@,
                    commit.outcome.attempt.action_id.0,
                ) + " reached terminal state "@ + commit.outcome.attempt.state.name_text()
                    + " for job_step "@ + text::identity_text(
                    "JobStepId"@,
                    commit.outcome.job_step.id.0,
                ) + (" via reconciliation evidence"@ + (if artifact_failed is Some {
                    ", artifact Incomplete -> Failed"@
                } else {
                    ""@
                }))
            }
        },
{
}

} // verus!
