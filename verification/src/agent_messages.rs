//! What each message of an agent in session leads to.

use vstd::prelude::*;
use crate::action_detail::{
    self, m1_result_detail_matches, parse_transfer_result_detail, ActionResultOutcome,
    TransferResultDetail, TransferResultDetailError,
};
use crate::agent_gateway::{
    AgentControlGateway, AgentGatewayError, GENERIC_PROTOCOL_ERROR_CODE,
    GENERIC_PROTOCOL_ERROR_MESSAGE, GENERIC_TRANSFER_AUTHORIZATION_DENIED_REASON,
};
use crate::authorization::TransferAuthorizationOutcome;
use crate::clock::Timestamp;
use crate::errors::ApplicationError;
use crate::evidence::{ActionEvidence, CancelAckEvidence, EvidenceResult, StatusReportEvidence};
use crate::evidence_service::{
    TransferActionClassification, TransferCancelAckOutcome, TransferStatusReportOutcome,
    TransferTerminalOutcome,
};
use crate::ids::{ProtocolId, TransferId};
use crate::json;
use crate::worker_runtime_ownership::IoFault;

verus! {

/// What is around a message.
#[derive(Clone, Copy, Debug, PartialEq, Eq, Structural)]
pub struct AgentEnvelope {
    pub message_id: ProtocolId,
    pub correlation_id: Option<ProtocolId>,
    pub speaks_v1: bool,
}

/// How an agent took an action.
#[derive(Clone, Copy, Debug, PartialEq, Eq, Structural)]
pub enum ActionAckOutcome {
    Accepted,
    Rejected,
}

/// How an agent took a cancellation.
#[derive(Clone, Copy, Debug, PartialEq, Eq, Structural)]
pub enum CancelAckOutcome {
    Cancelled,
    AlreadyCompleted,
    CannotCancel,
    Unknown,
}

/// What an agent knows of an action that it was asked about.
#[derive(Clone, Copy, Debug, PartialEq, Eq, Structural)]
pub enum KnownActionState {
    Accepted,
    Running,
    Succeeded,
    Failed,
    Cancelled,
    Unknown,
}

/// A message of an agent in session, as far as the gateway reads it.
#[derive(Debug)]
pub enum AgentMessage {
    BootstrapEvidence,
    InventoryReport,
    ActionAck { action_id: ProtocolId, outcome: ActionAckOutcome },
    ActionResult {
        action_id: ProtocolId,
        outcome: ActionResultOutcome,
        detail: serde_json::Map<String, serde_json::Value>,
    },
    ActionProgress { action_id: ProtocolId },
    CancelAck { action_id: ProtocolId, outcome: CancelAckOutcome },
    StatusReport { action_id: ProtocolId, known_state: KnownActionState },
    TransferAuthorizationRequest { transfer_id: ProtocolId, proof_public_key: String },
    ProtocolError,
    /// A message of the handshake, or one that only the server sends.
    OutOfPlace,
}

/// What came on a session's connection.
#[derive(Debug)]
pub enum AgentFrame {
    Ended,
    Failed(IoFault),
    Close,
    /// A ping, a pong or a raw frame.
    Control,
    Binary,
    /// Text that is not a message.
    Malformed,
    Message(AgentEnvelope, AgentMessage),
}

/// What the gateway does next for a session.
#[derive(Debug)]
pub enum GatewayStep {
    /// Nothing; wait for what comes next.
    Done,
    /// End the session.
    End,
    /// End the session with a failure.
    Fail(AgentGatewayError),
    /// Send the generic protocol error, correlated to this message if there is
    /// one.
    ProtocolError { correlation_id: Option<ProtocolId> },
    VerifyBootstrapEvidence,
    RecordInventory,
    ApplyEvidence { action_id: ProtocolId, evidence: ActionEvidence },
    /// Find out what kind of action it is.
    Classify { action_id: ProtocolId },
    ApplyTransferResult { action_id: ProtocolId, detail: TransferResultDetail },
    ApplyTransferCancelAck { action_id: ProtocolId, evidence: CancelAckEvidence },
    ApplyTransferCancelled { action_id: ProtocolId },
    ApplyCancelAck { action_id: ProtocolId, evidence: CancelAckEvidence },
    /// `via_transfer` tells a report that was first taken for a transfer's.
    ApplyStatusReport {
        action_id: ProtocolId,
        evidence: StatusReportEvidence,
        via_transfer: bool,
    },
    /// Find out whether the action is the endpoint's own.
    CheckOwnership { action_id: ProtocolId },
    IssueAuthorization {
        correlation_id: ProtocolId,
        transfer_id: TransferId,
        proof_public_key: String,
    },
    SendGrant(TransferAuthorizationGrant),
    SendDenied(TransferAuthorizationDenied),
    /// From now on the session is the one that the action depends on.
    Rebind { action_id: ProtocolId },
}

/// A granted authorization as it is sent.
#[derive(Debug)]
pub struct TransferAuthorizationGrant {
    pub correlation_id: ProtocolId,
    pub transfer_id: ProtocolId,
    pub token: String,
    pub expires_at: Timestamp,
    pub data_plane_base_url: String,
}

/// A denied authorization as it is sent.
#[derive(Debug)]
pub struct TransferAuthorizationDenied {
    pub correlation_id: ProtocolId,
    pub transfer_id: ProtocolId,
    pub reason: String,
}

/// The generic protocol error as it is sent.
#[derive(Debug)]
pub struct ProtocolErrorReply {
    pub code: String,
    pub message: String,
    pub correlation_id: Option<ProtocolId>,
}

/// The protocol error that is sent, whatever the breach was.
pub fn protocol_error(correlation_id: Option<ProtocolId>) -> (r: ProtocolErrorReply)
    ensures
        r.code@ == GENERIC_PROTOCOL_ERROR_CODE@,
        r.message@ == GENERIC_PROTOCOL_ERROR_MESSAGE@,
        r.correlation_id == correlation_id,
{
    ProtocolErrorReply {
        code: GENERIC_PROTOCOL_ERROR_CODE.to_owned(),
        message: GENERIC_PROTOCOL_ERROR_MESSAGE.to_owned(),
        correlation_id,
    }
}

/// What sending a message came to for the session.
pub fn message_sent(sent: Result<(), IoFault>) -> (r: Result<(), AgentGatewayError>)
    ensures
        r == (match sent {
            Ok(_) => Ok::<(), AgentGatewayError>(()),
            Err(fault) => Err::<(), AgentGatewayError>(AgentGatewayError::Send(fault)),
        }),
{
    match sent {
        Ok(_) => Ok(()),
        Err(fault) => Err(AgentGatewayError::Send(fault)),
    }
}

/// The evidence in an acknowledgement.
pub open spec fn ack_evidence(outcome: ActionAckOutcome) -> ActionEvidence {
    match outcome {
        ActionAckOutcome::Accepted => ActionEvidence::AckAccepted,
        ActionAckOutcome::Rejected => ActionEvidence::AckRejected,
    }
}

/// The evidence in the answer to a cancellation.
pub open spec fn cancel_evidence(outcome: CancelAckOutcome) -> CancelAckEvidence {
    match outcome {
        CancelAckOutcome::Cancelled => CancelAckEvidence::Cancelled,
        CancelAckOutcome::AlreadyCompleted => CancelAckEvidence::AlreadyCompleted,
        CancelAckOutcome::CannotCancel => CancelAckEvidence::CannotCancel,
        CancelAckOutcome::Unknown => CancelAckEvidence::Unknown,
    }
}

fn evidence_of_cancel_ack(outcome: CancelAckOutcome) -> (r: CancelAckEvidence)
    ensures
        r == cancel_evidence(outcome),
{
    match outcome {
        CancelAckOutcome::Cancelled => CancelAckEvidence::Cancelled,
        CancelAckOutcome::AlreadyCompleted => CancelAckEvidence::AlreadyCompleted,
        CancelAckOutcome::CannotCancel => CancelAckEvidence::CannotCancel,
        CancelAckOutcome::Unknown => CancelAckEvidence::Unknown,
    }
}

/// The evidence in a status report.
pub open spec fn status_evidence(known_state: KnownActionState) -> StatusReportEvidence {
    match known_state {
        KnownActionState::Accepted => StatusReportEvidence::Accepted,
        KnownActionState::Running => StatusReportEvidence::Running,
        KnownActionState::Succeeded => StatusReportEvidence::Succeeded,
        KnownActionState::Failed => StatusReportEvidence::Failed,
        KnownActionState::Cancelled => StatusReportEvidence::Cancelled,
        KnownActionState::Unknown => StatusReportEvidence::Unknown,
    }
}

fn evidence_of_status(known_state: KnownActionState) -> (r: StatusReportEvidence)
    ensures
        r == status_evidence(known_state),
{
    match known_state {
        KnownActionState::Accepted => StatusReportEvidence::Accepted,
        KnownActionState::Running => StatusReportEvidence::Running,
        KnownActionState::Succeeded => StatusReportEvidence::Succeeded,
        KnownActionState::Failed => StatusReportEvidence::Failed,
        KnownActionState::Cancelled => StatusReportEvidence::Cancelled,
        KnownActionState::Unknown => StatusReportEvidence::Unknown,
    }
}

/// A detail that a simulated execution reports for an outcome.
pub open spec fn is_simulated_detail(
    outcome: ActionResultOutcome,
    detail: serde_json::Map<String, serde_json::Value>,
) -> bool {
    action_detail::simulated_code(outcome) is Some && json::member_text(
        json::json_members(detail),
        "code"@,
    ) == action_detail::simulated_code(outcome)
}

/// A message about an action names that action twice: in its envelope and in its
/// body.
pub open spec fn correlated(envelope: AgentEnvelope, action_id: ProtocolId) -> bool {
    envelope.correlation_id == Some(action_id)
}

fn is_correlated(envelope: &AgentEnvelope, action_id: ProtocolId) -> (r: bool)
    ensures
        r == correlated(*envelope, action_id),
{
    match envelope.correlation_id {
        Some(id) => id == action_id,
        None => false,
    }
}

/// The protocol error that answers a message.
pub open spec fn refused(envelope: AgentEnvelope) -> GatewayStep {
    GatewayStep::ProtocolError { correlation_id: Some(envelope.message_id) }
}

/// What a service's answer comes to where nothing else depends on it: an action
/// that is not known, or another endpoint's, is passed over in silence.
pub open spec fn settled<R>(told: Result<R, ApplicationError>) -> GatewayStep {
    match told {
        Ok(_) => GatewayStep::Done,
        Err(ApplicationError::UnknownAction) => GatewayStep::Done,
        Err(error) => GatewayStep::Fail(AgentGatewayError::Application(error)),
    }
}

/// Passes on a service's answer.
pub fn settle<R>(told: Result<R, ApplicationError>) -> (r: GatewayStep)
    ensures
        r == settled(told),
{
    match told {
        Ok(_) => GatewayStep::Done,
        Err(error) => settle_error(error),
    }
}

fn settle_error(error: ApplicationError) -> (r: GatewayStep)
    ensures
        r == settled(Err::<(), ApplicationError>(error)),
{
    match error {
        ApplicationError::UnknownAction => GatewayStep::Done,
        error => GatewayStep::Fail(AgentGatewayError::Application(error)),
    }
}

/// What applied evidence comes to: where it left the action open, the session it
/// came on is the one that the action depends on from now on.
pub open spec fn evidence_settled(
    action_id: ProtocolId,
    told: Result<EvidenceResult, ApplicationError>,
) -> GatewayStep {
    match told {
        Ok(EvidenceResult::Applied(applied)) => if applied.terminal {
            GatewayStep::Done
        } else {
            GatewayStep::Rebind { action_id }
        },
        _ => settled(told),
    }
}

/// Passes on what applied evidence came to.
pub fn settle_evidence(action_id: ProtocolId, told: Result<EvidenceResult, ApplicationError>) -> (r:
    GatewayStep)
    ensures
        r == evidence_settled(action_id, told),
{
    match told {
        Ok(EvidenceResult::Applied(applied)) => if applied.terminal {
            GatewayStep::Done
        } else {
            GatewayStep::Rebind { action_id }
        },
        Ok(_) => GatewayStep::Done,
        Err(error) => settle_error(error),
    }
}

/// What evidence for the general service comes to. Only an acknowledgement can
/// leave the action open on this session; a result never does.
pub open spec fn evidence_follows(
    action_id: ProtocolId,
    evidence: ActionEvidence,
    told: Result<EvidenceResult, ApplicationError>,
) -> GatewayStep {
    match evidence {
        ActionEvidence::AckAccepted | ActionEvidence::AckRejected => evidence_settled(
            action_id,
            told,
        ),
        ActionEvidence::ResultSucceeded | ActionEvidence::ResultFailed => settled(told),
    }
}

/// What a status report for the general service comes to.
pub open spec fn status_follows(
    action_id: ProtocolId,
    via_transfer: bool,
    told: Result<EvidenceResult, ApplicationError>,
) -> GatewayStep {
    if via_transfer {
        settled(told)
    } else {
        evidence_settled(action_id, told)
    }
}

/// What a service's answer comes to where every failure is the session's: what
/// was reported is recorded or verified, or the session ends.
pub fn settle_report<R>(told: Result<R, ApplicationError>) -> (r: GatewayStep)
    ensures
        r == (match told {
            Ok(_) => GatewayStep::Done,
            Err(error) => GatewayStep::Fail(AgentGatewayError::Application(error)),
        }),
{
    match told {
        Ok(_) => GatewayStep::Done,
        Err(error) => GatewayStep::Fail(AgentGatewayError::Application(error)),
    }
}

impl<E, B, I, A, T, C, N, F, P, O> AgentControlGateway<E, B, I, A, T, C, N, F, P, O> {
    /// What evidence for the general service leads to.
    pub open spec fn evidence_step(&self, action_id: ProtocolId, evidence: ActionEvidence) ->
        GatewayStep {
        if self.action_evidence is None {
            GatewayStep::Fail(AgentGatewayError::ActionEvidenceServiceNotConfigured)
        } else {
            GatewayStep::ApplyEvidence { action_id, evidence }
        }
    }

    /// What the result of an action that is no transfer leads to.
    pub open spec fn simulated_result_step(
        &self,
        envelope: AgentEnvelope,
        action_id: ProtocolId,
        outcome: ActionResultOutcome,
        detail: serde_json::Map<String, serde_json::Value>,
    ) -> GatewayStep {
        match outcome {
            ActionResultOutcome::Cancelled => GatewayStep::Done,
            ActionResultOutcome::Succeeded => if is_simulated_detail(outcome, detail) {
                self.evidence_step(action_id, ActionEvidence::ResultSucceeded)
            } else {
                refused(envelope)
            },
            ActionResultOutcome::Failed => if is_simulated_detail(outcome, detail) {
                self.evidence_step(action_id, ActionEvidence::ResultFailed)
            } else {
                refused(envelope)
            },
        }
    }

    /// What the answer to a cancellation leads to where no transfer is concerned.
    pub open spec fn cancel_ack_step(&self, action_id: ProtocolId, evidence: CancelAckEvidence) ->
        GatewayStep {
        if self.cancellation is None {
            GatewayStep::Fail(AgentGatewayError::CancellationServiceNotConfigured)
        } else {
            GatewayStep::ApplyCancelAck { action_id, evidence }
        }
    }

    /// What a status report leads to where no transfer is concerned.
    pub open spec fn status_step(
        &self,
        action_id: ProtocolId,
        evidence: StatusReportEvidence,
        via_transfer: bool,
    ) -> GatewayStep {
        if self.reconciliation is None {
            GatewayStep::Fail(AgentGatewayError::ReconciliationServiceNotConfigured)
        } else {
            GatewayStep::ApplyStatusReport { action_id, evidence, via_transfer }
        }
    }

    /// What the answer to a cancellation leads to once it is known what kind of
    /// action it is of.
    pub open spec fn cancel_ack_follows(
        &self,
        action_id: ProtocolId,
        outcome: CancelAckOutcome,
        classified: Result<TransferActionClassification, ApplicationError>,
    ) -> GatewayStep {
        match classified {
            Ok(TransferActionClassification::Unknown) => GatewayStep::Done,
            Ok(TransferActionClassification::DataPlaneTransfer) =>
                GatewayStep::ApplyTransferCancelAck {
                action_id,
                evidence: cancel_evidence(outcome),
            },
            Ok(TransferActionClassification::SimulatedExecution) => self.cancel_ack_step(
                action_id,
                cancel_evidence(outcome),
            ),
            Err(error) => settled(Err::<(), ApplicationError>(error)),
        }
    }

    /// What the report that an action was cancelled leads to once it is known what
    /// kind of action it is.
    pub open spec fn cancelled_report_follows(
        &self,
        action_id: ProtocolId,
        classified: Result<TransferActionClassification, ApplicationError>,
    ) -> GatewayStep {
        match classified {
            Ok(TransferActionClassification::Unknown) => GatewayStep::Done,
            Ok(TransferActionClassification::DataPlaneTransfer) =>
                GatewayStep::ApplyTransferCancelled { action_id },
            Ok(TransferActionClassification::SimulatedExecution) => self.status_step(
                action_id,
                StatusReportEvidence::Cancelled,
                false,
            ),
            Err(error) => settled(Err::<(), ApplicationError>(error)),
        }
    }

    /// Whether a message leads to `step` once it is known what kind of action it is
    /// about.
    pub open spec fn classification_leads_to(
        &self,
        envelope: AgentEnvelope,
        message: AgentMessage,
        classified: Result<TransferActionClassification, ApplicationError>,
        step: GatewayStep,
    ) -> bool {
        match message {
            AgentMessage::ActionResult { action_id, outcome, detail } => match classified {
                Ok(TransferActionClassification::Unknown) => step is Done,
                Ok(TransferActionClassification::DataPlaneTransfer) => exists|
                    parsed: Result<TransferResultDetail, TransferResultDetailError>,
                | #[trigger]
                    action_detail::detail_reads_as(outcome, json::json_members(detail), parsed)
                        && step == (match parsed {
                        Ok(detail) => GatewayStep::ApplyTransferResult { action_id, detail },
                        Err(_) => refused(envelope),
                    }),
                Ok(TransferActionClassification::SimulatedExecution) => step
                    == self.simulated_result_step(envelope, action_id, outcome, detail),
                Err(error) => step == settled(Err::<(), ApplicationError>(error)),
            },
            AgentMessage::CancelAck { action_id, outcome } => step == self.cancel_ack_follows(
                action_id,
                outcome,
                classified,
            ),
            AgentMessage::StatusReport { action_id, known_state } => step == (
            if known_state is Cancelled {
                self.cancelled_report_follows(action_id, classified)
            } else {
                self.status_step(action_id, status_evidence(known_state), false)
            }),
            _ => step is Done,
        }
    }

    /// Whether a message of the version that is spoken here leads to `step`.
    pub open spec fn message_leads_to(
        &self,
        envelope: AgentEnvelope,
        message: AgentMessage,
        step: GatewayStep,
    ) -> bool {
        match message {
            AgentMessage::BootstrapEvidence => step is VerifyBootstrapEvidence,
            AgentMessage::InventoryReport => if self.inventory is None {
                step == GatewayStep::Fail(AgentGatewayError::InventoryServiceNotConfigured)
            } else {
                step is RecordInventory
            },
            AgentMessage::ActionAck { action_id, outcome } => if !correlated(envelope, action_id) {
                step == refused(envelope)
            } else {
                step == self.evidence_step(action_id, ack_evidence(outcome))
            },
            AgentMessage::ActionResult { action_id, outcome, detail } => if !correlated(
                envelope,
                action_id,
            ) {
                step == refused(envelope)
            } else if outcome is Cancelled {
                step is Done
            } else if self.transfer_terminal_evidence is Some {
                step == (GatewayStep::Classify { action_id })
            } else {
                step == self.simulated_result_step(envelope, action_id, outcome, detail)
            },
            AgentMessage::ActionProgress { action_id } => if !correlated(envelope, action_id) {
                step == refused(envelope)
            } else if self.action_evidence is None {
                step == GatewayStep::Fail(AgentGatewayError::ActionEvidenceServiceNotConfigured)
            } else {
                step == (GatewayStep::CheckOwnership { action_id })
            },
            AgentMessage::CancelAck { action_id, outcome } => if !correlated(envelope, action_id) {
                step == refused(envelope)
            } else if self.transfer_terminal_evidence is Some {
                step == (GatewayStep::Classify { action_id })
            } else {
                step == self.cancel_ack_step(action_id, cancel_evidence(outcome))
            },
            AgentMessage::StatusReport { action_id, known_state } => if !correlated(
                envelope,
                action_id,
            ) {
                step == refused(envelope)
            } else if known_state is Cancelled && self.transfer_terminal_evidence is Some {
                step == (GatewayStep::Classify { action_id })
            } else {
                step == self.status_step(action_id, status_evidence(known_state), false)
            },
            AgentMessage::TransferAuthorizationRequest { transfer_id, proof_public_key } =>
                if self.transfer_authorization is None {
                step == GatewayStep::Fail(
                    AgentGatewayError::TransferAuthorizationServiceNotConfigured,
                )
            } else {
                match envelope.correlation_id {
                    None => step == refused(envelope),
                    Some(correlation_id) => step == (GatewayStep::IssueAuthorization {
                        correlation_id,
                        transfer_id: TransferId(transfer_id.0),
                        proof_public_key,
                    }),
                }
            },
            AgentMessage::ProtocolError => step is Done,
            AgentMessage::OutOfPlace => step == refused(envelope),
        }
    }

    /// Whether a frame leads to `step`. Without the service that takes a session's
    /// evidence no frame is looked at.
    pub open spec fn frame_leads_to(&self, frame: AgentFrame, step: GatewayStep) -> bool {
        if self.bootstrap_evidence is None {
            step == GatewayStep::Fail(AgentGatewayError::BootstrapEvidenceServiceNotConfigured)
        } else {
            self.configured_frame_leads_to(frame, step)
        }
    }

    /// Whether a frame leads to `step` where the session's evidence can be taken.
    pub open spec fn configured_frame_leads_to(&self, frame: AgentFrame, step: GatewayStep) -> bool {
        match frame {
            AgentFrame::Ended | AgentFrame::Close => step is End,
            AgentFrame::Failed(fault) => step == GatewayStep::Fail(
                AgentGatewayError::Receive(fault),
            ),
            AgentFrame::Control => step is Done,
            AgentFrame::Binary | AgentFrame::Malformed => step == (GatewayStep::ProtocolError {
                correlation_id: None,
            }),
            AgentFrame::Message(envelope, message) => if !envelope.speaks_v1 {
                step == refused(envelope)
            } else {
                self.message_leads_to(envelope, message, step)
            },
        }
    }

    /// Decides about one frame of a session. A breach of the protocol is
    /// reported and does not end the session; that the session's evidence cannot
    /// be taken does.
    pub fn run_message_loop(&self, frame: AgentFrame) -> (r: GatewayStep)
        ensures
            self.frame_leads_to(frame, r),
    {
        if self.bootstrap_evidence.is_none() {
            return GatewayStep::Fail(AgentGatewayError::BootstrapEvidenceServiceNotConfigured);
        }
        match frame {
            AgentFrame::Ended | AgentFrame::Close => GatewayStep::End,
            AgentFrame::Failed(fault) => GatewayStep::Fail(AgentGatewayError::Receive(fault)),
            AgentFrame::Control => GatewayStep::Done,
            AgentFrame::Binary | AgentFrame::Malformed => GatewayStep::ProtocolError {
                correlation_id: None,
            },
            AgentFrame::Message(envelope, message) => {
                let refusal = GatewayStep::ProtocolError {
                    correlation_id: Some(envelope.message_id),
                };
                if !envelope.speaks_v1 {
                    return refusal;
                }
                match message {
                    AgentMessage::BootstrapEvidence => GatewayStep::VerifyBootstrapEvidence,
                    AgentMessage::InventoryReport => if self.inventory.is_none() {
                        GatewayStep::Fail(AgentGatewayError::InventoryServiceNotConfigured)
                    } else {
                        GatewayStep::RecordInventory
                    },
                    AgentMessage::ActionAck { action_id, outcome } => self.handle_action_ack(
                        &envelope,
                        action_id,
                        outcome,
                    ),
                    AgentMessage::ActionResult { action_id, outcome, detail } =>
                        self.handle_action_result(&envelope, action_id, outcome, &detail),
                    AgentMessage::ActionProgress { action_id } => self.handle_action_progress(
                        &envelope,
                        action_id,
                    ),
                    AgentMessage::CancelAck { action_id, outcome } => self.handle_cancel_ack(
                        &envelope,
                        action_id,
                        outcome,
                    ),
                    AgentMessage::StatusReport { action_id, known_state } =>
                        self.handle_status_report(&envelope, action_id, known_state),
                    AgentMessage::TransferAuthorizationRequest { transfer_id, proof_public_key } =>
                        self.handle_transfer_authorization_request(
                        &envelope,
                        transfer_id,
                        proof_public_key,
                    ),
                    AgentMessage::ProtocolError => GatewayStep::Done,
                    AgentMessage::OutOfPlace => refusal,
                }
            },
        }
    }

    /// Decides about an acknowledgement.
    pub fn handle_action_ack(
        &self,
        envelope: &AgentEnvelope,
        action_id: ProtocolId,
        outcome: ActionAckOutcome,
    ) -> (r: GatewayStep)
        ensures
            self.message_leads_to(*envelope, (AgentMessage::ActionAck { action_id, outcome }), r),
    {
        if !is_correlated(envelope, action_id) {
            return GatewayStep::ProtocolError { correlation_id: Some(envelope.message_id) };
        }
        let evidence = match outcome {
            ActionAckOutcome::Accepted => ActionEvidence::AckAccepted,
            ActionAckOutcome::Rejected => ActionEvidence::AckRejected,
        };
        self.apply_evidence(action_id, evidence)
    }

    fn apply_evidence(&self, action_id: ProtocolId, evidence: ActionEvidence) -> (r: GatewayStep)
        ensures
            r == self.evidence_step(action_id, evidence),
    {
        if self.action_evidence.is_none() {
            GatewayStep::Fail(AgentGatewayError::ActionEvidenceServiceNotConfigured)
        } else {
            GatewayStep::ApplyEvidence { action_id, evidence }
        }
    }

    /// Decides about a result. That an action was cancelled is not learned this
    /// way.
    pub fn handle_action_result(
        &self,
        envelope: &AgentEnvelope,
        action_id: ProtocolId,
        outcome: ActionResultOutcome,
        detail: &serde_json::Map<String, serde_json::Value>,
    ) -> (r: GatewayStep)
        ensures
            self.message_leads_to(
                *envelope,
                (AgentMessage::ActionResult { action_id, outcome, detail: *detail }),
                r,
            ),
    {
        if !is_correlated(envelope, action_id) {
            return GatewayStep::ProtocolError { correlation_id: Some(envelope.message_id) };
        }
        if matches!(outcome, ActionResultOutcome::Cancelled) {
            return GatewayStep::Done;
        }
        if self.transfer_terminal_evidence.is_some() {
            return GatewayStep::Classify { action_id };
        }
        self.simulated_result(envelope, action_id, outcome, detail)
    }

    fn simulated_result(
        &self,
        envelope: &AgentEnvelope,
        action_id: ProtocolId,
        outcome: ActionResultOutcome,
        detail: &serde_json::Map<String, serde_json::Value>,
    ) -> (r: GatewayStep)
        ensures
            r == self.simulated_result_step(*envelope, action_id, outcome, *detail),
    {
        let evidence = match outcome {
            ActionResultOutcome::Succeeded => ActionEvidence::ResultSucceeded,
            ActionResultOutcome::Failed => ActionEvidence::ResultFailed,
            ActionResultOutcome::Cancelled => {
                return GatewayStep::Done;
            },
        };
        if !m1_result_detail_matches(outcome, detail) {
            return GatewayStep::ProtocolError { correlation_id: Some(envelope.message_id) };
        }
        self.apply_evidence(action_id, evidence)
    }

    /// Goes on with a result once it is known what kind of action it is of. The
    /// kind is the durable record's word, never the message's. A transfer's
    /// result has to be spelled as one.
    pub fn action_result_classified(
        &self,
        envelope: &AgentEnvelope,
        action_id: ProtocolId,
        outcome: ActionResultOutcome,
        detail: &serde_json::Map<String, serde_json::Value>,
        classified: Result<TransferActionClassification, ApplicationError>,
    ) -> (r: GatewayStep)
        ensures
            self.classification_leads_to(
                *envelope,
                (AgentMessage::ActionResult { action_id, outcome, detail: *detail }),
                classified,
                r,
            ),
    {
        match classified {
            Ok(TransferActionClassification::Unknown) => GatewayStep::Done,
            Ok(TransferActionClassification::DataPlaneTransfer) => {
                let parsed = parse_transfer_result_detail(outcome, detail);
                match parsed {
                    Ok(detail) => GatewayStep::ApplyTransferResult { action_id, detail },
                    Err(_) => GatewayStep::ProtocolError {
                        correlation_id: Some(envelope.message_id),
                    },
                }
            },
            Ok(TransferActionClassification::SimulatedExecution) => self.simulated_result(
                envelope,
                action_id,
                outcome,
                detail,
            ),
            Err(error) => settle_error(error),
        }
    }

    /// Goes on with a transfer's result once it was applied. One that the
    /// durable record contradicts is a breach of the protocol.
    pub fn transfer_result_applied(
        &self,
        envelope: &AgentEnvelope,
        told: Result<TransferTerminalOutcome, ApplicationError>,
    ) -> (r: GatewayStep)
        ensures
            r == (match told {
                Ok(TransferTerminalOutcome::FailClosed) => refused(*envelope),
                _ => settled(told),
            }),
    {
        match told {
            Ok(TransferTerminalOutcome::FailClosed) => GatewayStep::ProtocolError {
                correlation_id: Some(envelope.message_id),
            },
            Ok(TransferTerminalOutcome::Consumed) => GatewayStep::Done,
            Err(error) => settle_error(error),
        }
    }

    /// Decides about the answer to a cancellation.
    pub fn handle_cancel_ack(
        &self,
        envelope: &AgentEnvelope,
        action_id: ProtocolId,
        outcome: CancelAckOutcome,
    ) -> (r: GatewayStep)
        ensures
            self.message_leads_to(*envelope, (AgentMessage::CancelAck { action_id, outcome }), r),
    {
        if !is_correlated(envelope, action_id) {
            return GatewayStep::ProtocolError { correlation_id: Some(envelope.message_id) };
        }
        if self.transfer_terminal_evidence.is_some() {
            return GatewayStep::Classify { action_id };
        }
        self.apply_generic_cancel_ack(action_id, evidence_of_cancel_ack(outcome))
    }

    fn apply_generic_cancel_ack(&self, action_id: ProtocolId, evidence: CancelAckEvidence) -> (r:
        GatewayStep)
        ensures
            r == self.cancel_ack_step(action_id, evidence),
    {
        if self.cancellation.is_none() {
            GatewayStep::Fail(AgentGatewayError::CancellationServiceNotConfigured)
        } else {
            GatewayStep::ApplyCancelAck { action_id, evidence }
        }
    }

    /// Goes on with the answer to a cancellation once it is known what kind of
    /// action it is of.
    pub fn cancel_ack_classified(
        &self,
        action_id: ProtocolId,
        outcome: CancelAckOutcome,
        classified: Result<TransferActionClassification, ApplicationError>,
    ) -> (r: GatewayStep)
        ensures
            r == self.cancel_ack_follows(action_id, outcome, classified),
    {
        match classified {
            Ok(TransferActionClassification::Unknown) => GatewayStep::Done,
            Ok(TransferActionClassification::DataPlaneTransfer) =>
                GatewayStep::ApplyTransferCancelAck {
                action_id,
                evidence: evidence_of_cancel_ack(outcome),
            },
            Ok(TransferActionClassification::SimulatedExecution) => self.apply_generic_cancel_ack(
                action_id,
                evidence_of_cancel_ack(outcome),
            ),
            Err(error) => settle_error(error),
        }
    }

    /// Goes on with the answer to a transfer's cancellation. Where the action
    /// turned out to be no transfer after all, the general service takes it.
    pub fn transfer_cancel_ack_applied(
        &self,
        action_id: ProtocolId,
        evidence: CancelAckEvidence,
        told: Result<TransferCancelAckOutcome, ApplicationError>,
    ) -> (r: GatewayStep)
        ensures
            r == (match told {
                Ok(TransferCancelAckOutcome::NotTransferAction) => self.cancel_ack_step(
                    action_id,
                    evidence,
                ),
                _ => settled(told),
            }),
    {
        match told {
            Ok(TransferCancelAckOutcome::Consumed) => GatewayStep::Done,
            Ok(TransferCancelAckOutcome::NotTransferAction) => self.apply_generic_cancel_ack(
                action_id,
                evidence,
            ),
            Err(error) => settle_error(error),
        }
    }

    /// Decides about a status report. Only that an action was cancelled can
    /// concern a transfer's artifact.
    pub fn handle_status_report(
        &self,
        envelope: &AgentEnvelope,
        action_id: ProtocolId,
        known_state: KnownActionState,
    ) -> (r: GatewayStep)
        ensures
            self.message_leads_to(
                *envelope,
                (AgentMessage::StatusReport { action_id, known_state }),
                r,
            ),
    {
        if !is_correlated(envelope, action_id) {
            return GatewayStep::ProtocolError { correlation_id: Some(envelope.message_id) };
        }
        if matches!(known_state, KnownActionState::Cancelled)
            && self.transfer_terminal_evidence.is_some() {
            return GatewayStep::Classify { action_id };
        }
        self.apply_generic_status_report(action_id, evidence_of_status(known_state), false)
    }

    fn apply_generic_status_report(
        &self,
        action_id: ProtocolId,
        evidence: StatusReportEvidence,
        via_transfer: bool,
    ) -> (r: GatewayStep)
        ensures
            r == self.status_step(action_id, evidence, via_transfer),
    {
        if self.reconciliation.is_none() {
            GatewayStep::Fail(AgentGatewayError::ReconciliationServiceNotConfigured)
        } else {
            GatewayStep::ApplyStatusReport { action_id, evidence, via_transfer }
        }
    }

    /// Goes on with the report that an action was cancelled once it is known
    /// what kind of action it is.
    pub fn status_report_classified(
        &self,
        action_id: ProtocolId,
        classified: Result<TransferActionClassification, ApplicationError>,
    ) -> (r: GatewayStep)
        ensures
            r == self.cancelled_report_follows(action_id, classified),
    {
        match classified {
            Ok(TransferActionClassification::Unknown) => GatewayStep::Done,
            Ok(TransferActionClassification::DataPlaneTransfer) =>
                GatewayStep::ApplyTransferCancelled { action_id },
            Ok(TransferActionClassification::SimulatedExecution) =>
                self.apply_generic_status_report(action_id, StatusReportEvidence::Cancelled, false),
            Err(error) => settle_error(error),
        }
    }

    /// Goes on with the report that a transfer was cancelled. Where the action
    /// turned out to be no transfer after all, the general service takes it.
    pub fn transfer_cancelled_applied(
        &self,
        action_id: ProtocolId,
        told: Result<TransferStatusReportOutcome, ApplicationError>,
    ) -> (r: GatewayStep)
        ensures
            r == (match told {
                Ok(TransferStatusReportOutcome::NotTransferAction) => self.status_step(
                    action_id,
                    StatusReportEvidence::Cancelled,
                    true,
                ),
                _ => settled(told),
            }),
    {
        match told {
            Ok(TransferStatusReportOutcome::Consumed) => GatewayStep::Done,
            Ok(TransferStatusReportOutcome::NotTransferAction) => self.apply_generic_status_report(
                action_id,
                StatusReportEvidence::Cancelled,
                true,
            ),
            Err(error) => settle_error(error),
        }
    }

    /// Goes on with evidence once the general service applied it, or did not. Only
    /// an acknowledgement can bring the action to depend on this session; a result
    /// never does.
    pub fn action_evidence_applied(
        &self,
        action_id: ProtocolId,
        evidence: ActionEvidence,
        told: Result<EvidenceResult, ApplicationError>,
    ) -> (r: GatewayStep)
        ensures
            r == evidence_follows(action_id, evidence, told),
    {
        match evidence {
            ActionEvidence::AckAccepted | ActionEvidence::AckRejected => settle_evidence(
                action_id,
                told,
            ),
            ActionEvidence::ResultSucceeded | ActionEvidence::ResultFailed => settle(told),
        }
    }

    /// Goes on with the answer to a cancellation once the general service applied
    /// it, or did not. It never brings the action to depend on this session.
    pub fn cancel_ack_applied(&self, told: Result<EvidenceResult, ApplicationError>) -> (r:
        GatewayStep)
        ensures
            r == settled(told),
    {
        settle(told)
    }

    /// Goes on with a status report once the general service applied it, or did
    /// not. One that was first taken for a transfer's never brings the action to
    /// depend on this session.
    pub fn status_report_applied(
        &self,
        action_id: ProtocolId,
        via_transfer: bool,
        told: Result<EvidenceResult, ApplicationError>,
    ) -> (r: GatewayStep)
        ensures
            r == status_follows(action_id, via_transfer, told),
    {
        if via_transfer {
            settle(told)
        } else {
            settle_evidence(action_id, told)
        }
    }

    /// Goes on with the message whose action was to be classified: each kind of
    /// message in its own way.
    pub fn message_classified(
        &self,
        envelope: &AgentEnvelope,
        message: &AgentMessage,
        classified: Result<TransferActionClassification, ApplicationError>,
    ) -> (r: GatewayStep)
        ensures
            self.classification_leads_to(*envelope, *message, classified, r),
    {
        match message {
            AgentMessage::ActionResult { action_id, outcome, detail } =>
                self.action_result_classified(envelope, *action_id, *outcome, detail, classified),
            AgentMessage::CancelAck { action_id, outcome } => self.cancel_ack_classified(
                *action_id,
                *outcome,
                classified,
            ),
            AgentMessage::StatusReport { action_id, known_state } => if matches!(
                known_state,
                KnownActionState::Cancelled
            ) {
                self.status_report_classified(*action_id, classified)
            } else {
                self.apply_generic_status_report(
                    *action_id,
                    evidence_of_status(*known_state),
                    false,
                )
            },
            _ => GatewayStep::Done,
        }
    }

    /// Decides about a request for a transfer authorization. One without a
    /// correlation is no such request.
    pub fn handle_transfer_authorization_request(
        &self,
        envelope: &AgentEnvelope,
        transfer_id: ProtocolId,
        proof_public_key: String,
    ) -> (r: GatewayStep)
        ensures
            self.message_leads_to(
                *envelope,
                (AgentMessage::TransferAuthorizationRequest { transfer_id, proof_public_key }),
                r,
            ),
    {
        if self.transfer_authorization.is_none() {
            return GatewayStep::Fail(AgentGatewayError::TransferAuthorizationServiceNotConfigured);
        }
        match envelope.correlation_id {
            None => GatewayStep::ProtocolError { correlation_id: Some(envelope.message_id) },
            Some(correlation_id) => GatewayStep::IssueAuthorization {
                correlation_id,
                transfer_id: TransferId(transfer_id.0),
                proof_public_key,
            },
        }
    }

    /// Answers a request for a transfer authorization. A denial gives one
    /// reason, whatever the cause; the correlation is the one that was presented.
    pub fn transfer_authorization_issued(
        &self,
        envelope: &AgentEnvelope,
        correlation_id: ProtocolId,
        transfer_id: ProtocolId,
        issued: Result<TransferAuthorizationOutcome, ApplicationError>,
    ) -> (r: GatewayStep)
        ensures
            match issued {
                Ok(
                    TransferAuthorizationOutcome::Granted {
                        token,
                        expires_at,
                        data_plane_base_url,
                    },
                ) => r == GatewayStep::SendGrant(
                    TransferAuthorizationGrant {
                        correlation_id,
                        transfer_id,
                        token,
                        expires_at,
                        data_plane_base_url,
                    },
                ),
                Ok(TransferAuthorizationOutcome::Denied) => {
                    &&& r matches GatewayStep::SendDenied(denied)
                    &&& denied.correlation_id == correlation_id
                    &&& denied.transfer_id == transfer_id
                    &&& denied.reason@ == GENERIC_TRANSFER_AUTHORIZATION_DENIED_REASON@
                },
                Ok(TransferAuthorizationOutcome::ProtocolViolation) => r == refused(*envelope),
                Err(error) => r == GatewayStep::Fail(AgentGatewayError::Application(error)),
            },
    {
        match issued {
            Ok(
                TransferAuthorizationOutcome::Granted { token, expires_at, data_plane_base_url },
            ) => GatewayStep::SendGrant(
                TransferAuthorizationGrant {
                    correlation_id,
                    transfer_id,
                    token,
                    expires_at,
                    data_plane_base_url,
                },
            ),
            Ok(TransferAuthorizationOutcome::Denied) => GatewayStep::SendDenied(
                TransferAuthorizationDenied {
                    correlation_id,
                    transfer_id,
                    reason: GENERIC_TRANSFER_AUTHORIZATION_DENIED_REASON.to_owned(),
                },
            ),
            Ok(TransferAuthorizationOutcome::ProtocolViolation) => GatewayStep::ProtocolError {
                correlation_id: Some(envelope.message_id),
            },
            Err(error) => GatewayStep::Fail(AgentGatewayError::Application(error)),
        }
    }

    /// Decides about a report of progress, of which nothing is kept.
    pub fn handle_action_progress(&self, envelope: &AgentEnvelope, action_id: ProtocolId) -> (r:
        GatewayStep)
        ensures
            self.message_leads_to(*envelope, (AgentMessage::ActionProgress { action_id }), r),
    {
        if !is_correlated(envelope, action_id) {
            return GatewayStep::ProtocolError { correlation_id: Some(envelope.message_id) };
        }
        if self.action_evidence.is_none() {
            return GatewayStep::Fail(AgentGatewayError::ActionEvidenceServiceNotConfigured);
        }
        GatewayStep::CheckOwnership { action_id }
    }

    /// Goes on with a report of progress. One about an action that is not the
    /// endpoint's own is refused like one that is not correlated.
    pub fn action_progress_checked(
        &self,
        envelope: &AgentEnvelope,
        belongs: Result<bool, ApplicationError>,
    ) -> (r: GatewayStep)
        ensures
            r == (match belongs {
                Ok(true) => GatewayStep::Done,
                Ok(false) => refused(*envelope),
                Err(error) => GatewayStep::Fail(AgentGatewayError::Application(error)),
            }),
    {
        match belongs {
            Ok(true) => GatewayStep::Done,
            Ok(false) => GatewayStep::ProtocolError { correlation_id: Some(envelope.message_id) },
            Err(error) => GatewayStep::Fail(AgentGatewayError::Application(error)),
        }
    }
}

/// The action that a message is about, where it is about one.
pub open spec fn action_of(message: AgentMessage) -> Option<ProtocolId> {
    match message {
        AgentMessage::ActionAck { action_id, .. } => Some(action_id),
        AgentMessage::ActionResult { action_id, .. } => Some(action_id),
        AgentMessage::ActionProgress { action_id } => Some(action_id),
        AgentMessage::CancelAck { action_id, .. } => Some(action_id),
        AgentMessage::StatusReport { action_id, .. } => Some(action_id),
        _ => None,
    }
}

/// A message about an action that does not name it in its envelope too is
/// refused, whatever it says, or ends a session that could not have been opened; no
/// service hears of it.
pub proof fn uncorrelated_message_reaches_no_service<E, B, I, A, T, C, N, F, P, O>(
    gateway: AgentControlGateway<E, B, I, A, T, C, N, F, P, O>,
    envelope: AgentEnvelope,
    message: AgentMessage,
    step: GatewayStep,
)
    requires
        gateway.frame_leads_to(AgentFrame::Message(envelope, message), step),
        action_of(message) matches Some(action_id) && !correlated(envelope, action_id),
    ensures
        gateway.bootstrap_evidence is Some ==> step == refused(envelope),
        gateway.bootstrap_evidence is None ==> step == GatewayStep::Fail(
            AgentGatewayError::BootstrapEvidenceServiceNotConfigured,
        ),
{
}

/// Whatever an agent sends, it can start none of the things that are the
/// server's to start: in a session that could be opened it is refused, and the
/// session goes on.
pub proof fn agent_cannot_speak_for_the_server<E, B, I, A, T, C, N, F, P, O>(
    gateway: AgentControlGateway<E, B, I, A, T, C, N, F, P, O>,
    envelope: AgentEnvelope,
    step: GatewayStep,
)
    requires
        gateway.frame_leads_to(AgentFrame::Message(envelope, AgentMessage::OutOfPlace), step),
    ensures
        gateway.bootstrap_evidence is Some ==> step == refused(envelope),
        gateway.bootstrap_evidence is None ==> step == GatewayStep::Fail(
            AgentGatewayError::BootstrapEvidenceServiceNotConfigured,
        ),
{
}

/// An agent does not learn whether an action that is not its own exists: that
/// the action is not known looks like evidence that changed nothing.
pub proof fn unknown_action_looks_like_nothing_happened(action_id: ProtocolId)
    ensures
        settled(Err::<EvidenceResult, ApplicationError>(ApplicationError::UnknownAction))
            == settled(Ok::<EvidenceResult, ApplicationError>(EvidenceResult::NoOp)),
        evidence_settled(action_id, Err(ApplicationError::UnknownAction)) == evidence_settled(
            action_id,
            Ok(EvidenceResult::NoOp),
        ),
{
}

/// A session takes an action over only where evidence for it was committed that
/// left the action open; and only an acknowledgement, or a status report that was
/// never taken for a transfer's, does it.
pub proof fn rebinding_needs_committed_open_evidence(
    action_id: ProtocolId,
    evidence: ActionEvidence,
    via_transfer: bool,
    told: Result<EvidenceResult, ApplicationError>,
)
    ensures
        evidence_follows(action_id, evidence, told) is Rebind ==> {
            &&& evidence is AckAccepted || evidence is AckRejected
            &&& told matches Ok(EvidenceResult::Applied(applied)) && !applied.terminal
            &&& evidence_follows(action_id, evidence, told) == (GatewayStep::Rebind { action_id })
        },
        status_follows(action_id, via_transfer, told) is Rebind ==> {
            &&& !via_transfer
            &&& told matches Ok(EvidenceResult::Applied(applied)) && !applied.terminal
            &&& status_follows(action_id, via_transfer, told) == (GatewayStep::Rebind { action_id })
        },
        !(settled(told) is Rebind),
{
}

/// A frame that is no message ends the session, fails it, is passed over or is refused
/// without an answer to anything; a message of another version is refused as an answer
/// to it. Without the service that takes a session's evidence every frame fails it.
pub proof fn session_goes_by_what_came<E, B, I, A, T, C, N, F, P, O>(
    gateway: AgentControlGateway<E, B, I, A, T, C, N, F, P, O>,
    frame: AgentFrame,
    r: GatewayStep,
)
    requires
        call_ensures(AgentControlGateway::<E, B, I, A, T, C, N, F, P, O>::run_message_loop, (&gateway, frame), r),
    ensures
        gateway.bootstrap_evidence is None ==> r == GatewayStep::Fail(
            AgentGatewayError::BootstrapEvidenceServiceNotConfigured,
        ),
        gateway.bootstrap_evidence is Some ==> {
            &&& r is End <==> frame is Ended || frame is Close
            &&& frame matches AgentFrame::Failed(fault) ==> r == GatewayStep::Fail(
                AgentGatewayError::Receive(fault),
            )
            &&& frame is Control ==> r is Done
            &&& frame is Binary || frame is Malformed ==> r == (GatewayStep::ProtocolError {
                correlation_id: None,
            })
            &&& frame matches AgentFrame::Message(envelope, message) ==> (!envelope.speaks_v1 ==> r
                == (GatewayStep::ProtocolError { correlation_id: Some(envelope.message_id) }))
        },
{
}

/// Evidence of the boot and reports of inventory go to their services; a protocol error
/// is passed over, and what is out of place is refused.
pub proof fn reports_go_to_their_services<E, B, I, A, T, C, N, F, P, O>(
    gateway: AgentControlGateway<E, B, I, A, T, C, N, F, P, O>,
    envelope: AgentEnvelope,
    message: AgentMessage,
    r: GatewayStep,
)
    requires
        call_ensures(
            AgentControlGateway::<E, B, I, A, T, C, N, F, P, O>::run_message_loop,
            (
                &gateway,
                AgentFrame::Message(envelope, message),
            ),
            r,
        ),
        gateway.bootstrap_evidence is Some,
        envelope.speaks_v1,
    ensures
        message is BootstrapEvidence ==> r is VerifyBootstrapEvidence,
        message is InventoryReport ==> (gateway.inventory is Some ==> r is RecordInventory) && (
        gateway.inventory is None ==> r == GatewayStep::Fail(
            AgentGatewayError::InventoryServiceNotConfigured,
        )),
        message is ProtocolError ==> r is Done,
        message is OutOfPlace ==> r == (GatewayStep::ProtocolError { correlation_id: Some(envelope.message_id) }),
{
}

/// An acknowledgement that names its action twice is applied to that action, as an
/// acceptance or a rejection; any other is refused.
pub proof fn acknowledgement_is_applied_as_sent<E, B, I, A, T, C, N, F, P, O>(
    gateway: AgentControlGateway<E, B, I, A, T, C, N, F, P, O>,
    envelope: AgentEnvelope,
    action_id: ProtocolId,
    outcome: ActionAckOutcome,
    r: GatewayStep,
)
    requires
        call_ensures(
            AgentControlGateway::<E, B, I, A, T, C, N, F, P, O>::run_message_loop,
            (
                &gateway,
                AgentFrame::Message(envelope, AgentMessage::ActionAck { action_id, outcome }),
            ),
            r,
        ),
        gateway.bootstrap_evidence is Some,
        envelope.speaks_v1,
    ensures
        envelope.correlation_id != Some(action_id) ==> r == (GatewayStep::ProtocolError { correlation_id: Some(envelope.message_id) }),
        envelope.correlation_id == Some(action_id) && gateway.action_evidence is None ==> r
            == GatewayStep::Fail(AgentGatewayError::ActionEvidenceServiceNotConfigured),
        envelope.correlation_id == Some(action_id) && gateway.action_evidence is Some ==> {
            &&& outcome is Accepted ==> r == (GatewayStep::ApplyEvidence {
                action_id,
                evidence: ActionEvidence::AckAccepted,
            })
            &&& outcome is Rejected ==> r == (GatewayStep::ApplyEvidence {
                action_id,
                evidence: ActionEvidence::AckRejected,
            })
        },
{
}

/// A result that names its action twice is looked into where transfers are served, and
/// applied as what a simulated execution reports where they are not: success with its
/// code, failure with its own. That an action was cancelled is not learned this way.
pub proof fn result_is_applied_as_sent<E, B, I, A, T, C, N, F, P, O>(
    gateway: AgentControlGateway<E, B, I, A, T, C, N, F, P, O>,
    envelope: AgentEnvelope,
    action_id: ProtocolId,
    outcome: ActionResultOutcome,
    detail: serde_json::Map<String, serde_json::Value>,
    r: GatewayStep,
)
    requires
        call_ensures(
            AgentControlGateway::<E, B, I, A, T, C, N, F, P, O>::run_message_loop,
            (
                &gateway,
                AgentFrame::Message(envelope, AgentMessage::ActionResult { action_id, outcome, detail }),
            ),
            r,
        ),
        gateway.bootstrap_evidence is Some,
        envelope.speaks_v1,
    ensures
        envelope.correlation_id != Some(action_id) ==> r == (GatewayStep::ProtocolError { correlation_id: Some(envelope.message_id) }),
        envelope.correlation_id == Some(action_id) ==> {
            let code = json::member_text(json::json_members(detail), "code"@);
            let simulated = outcome !is Cancelled && gateway.transfer_terminal_evidence is None;
            &&& outcome is Cancelled ==> r is Done
            &&& outcome !is Cancelled && gateway.transfer_terminal_evidence is Some ==> r
                == (GatewayStep::Classify { action_id })
            &&& simulated && outcome is Succeeded && code != Some("SIMULATED_COMPLETION"@) ==> r
                == (GatewayStep::ProtocolError { correlation_id: Some(envelope.message_id) })
            &&& simulated && outcome is Failed && code != Some("SIMULATED_FAILURE"@) ==> r
                == (GatewayStep::ProtocolError { correlation_id: Some(envelope.message_id) })
            &&& simulated && gateway.action_evidence is Some && outcome is Succeeded && code
                == Some("SIMULATED_COMPLETION"@) ==> r == (GatewayStep::ApplyEvidence {
                action_id,
                evidence: ActionEvidence::ResultSucceeded,
            })
            &&& simulated && gateway.action_evidence is Some && outcome is Failed && code == Some(
                "SIMULATED_FAILURE"@,
            ) ==> r == (GatewayStep::ApplyEvidence {
                action_id,
                evidence: ActionEvidence::ResultFailed,
            })
        },
{
}

/// Progress that names its action twice is looked into; any other is refused.
pub proof fn progress_is_checked_for_ownership<E, B, I, A, T, C, N, F, P, O>(
    gateway: AgentControlGateway<E, B, I, A, T, C, N, F, P, O>,
    envelope: AgentEnvelope,
    action_id: ProtocolId,
    r: GatewayStep,
)
    requires
        call_ensures(
            AgentControlGateway::<E, B, I, A, T, C, N, F, P, O>::run_message_loop,
            (
                &gateway,
                AgentFrame::Message(envelope, AgentMessage::ActionProgress { action_id }),
            ),
            r,
        ),
        gateway.bootstrap_evidence is Some,
        envelope.speaks_v1,
    ensures
        envelope.correlation_id != Some(action_id) ==> r == (GatewayStep::ProtocolError { correlation_id: Some(envelope.message_id) }),
        envelope.correlation_id == Some(action_id) && gateway.action_evidence is None ==> r
            == GatewayStep::Fail(AgentGatewayError::ActionEvidenceServiceNotConfigured),
        envelope.correlation_id == Some(action_id) && gateway.action_evidence is Some ==> r
            == (GatewayStep::CheckOwnership { action_id }),
{
}

/// The answer to a cancellation that names its action twice is looked into where
/// transfers are served, and applied as it says where they are not.
pub proof fn cancellation_answer_is_applied_as_sent<E, B, I, A, T, C, N, F, P, O>(
    gateway: AgentControlGateway<E, B, I, A, T, C, N, F, P, O>,
    envelope: AgentEnvelope,
    action_id: ProtocolId,
    outcome: CancelAckOutcome,
    r: GatewayStep,
)
    requires
        call_ensures(
            AgentControlGateway::<E, B, I, A, T, C, N, F, P, O>::run_message_loop,
            (
                &gateway,
                AgentFrame::Message(envelope, AgentMessage::CancelAck { action_id, outcome }),
            ),
            r,
        ),
        gateway.bootstrap_evidence is Some,
        envelope.speaks_v1,
    ensures
        envelope.correlation_id != Some(action_id) ==> r == (GatewayStep::ProtocolError { correlation_id: Some(envelope.message_id) }),
        envelope.correlation_id == Some(action_id) && gateway.transfer_terminal_evidence is Some
            ==> r == (GatewayStep::Classify { action_id }),
        envelope.correlation_id == Some(action_id) && gateway.transfer_terminal_evidence is None
            && gateway.cancellation is None ==> r == GatewayStep::Fail(
            AgentGatewayError::CancellationServiceNotConfigured,
        ),
        envelope.correlation_id == Some(action_id) && gateway.transfer_terminal_evidence is None
            && gateway.cancellation is Some ==> (r matches GatewayStep::ApplyCancelAck {
            action_id: applied,
            evidence,
        } && applied == action_id && (evidence is Cancelled <==> outcome is Cancelled) && (evidence
            is AlreadyCompleted <==> outcome is AlreadyCompleted) && (evidence is CannotCancel
            <==> outcome is CannotCancel) && (evidence is Unknown <==> outcome is Unknown)),
{
}

/// A status report that names its action twice is applied as it says; only that an
/// action was cancelled is looked into first, where transfers are served.
pub proof fn status_report_is_applied_as_sent<E, B, I, A, T, C, N, F, P, O>(
    gateway: AgentControlGateway<E, B, I, A, T, C, N, F, P, O>,
    envelope: AgentEnvelope,
    action_id: ProtocolId,
    known_state: KnownActionState,
    r: GatewayStep,
)
    requires
        call_ensures(
            AgentControlGateway::<E, B, I, A, T, C, N, F, P, O>::run_message_loop,
            (
                &gateway,
                AgentFrame::Message(envelope, AgentMessage::StatusReport { action_id, known_state }),
            ),
            r,
        ),
        gateway.bootstrap_evidence is Some,
        envelope.speaks_v1,
    ensures
        envelope.correlation_id != Some(action_id) ==> r == (GatewayStep::ProtocolError { correlation_id: Some(envelope.message_id) }),
        envelope.correlation_id == Some(action_id) && known_state is Cancelled
            && gateway.transfer_terminal_evidence is Some ==> r == (GatewayStep::Classify {
            action_id,
        }),
        envelope.correlation_id == Some(action_id) && (known_state !is Cancelled
            || gateway.transfer_terminal_evidence is None) && gateway.reconciliation is None ==> r
            == GatewayStep::Fail(AgentGatewayError::ReconciliationServiceNotConfigured),
        envelope.correlation_id == Some(action_id) && (known_state !is Cancelled
            || gateway.transfer_terminal_evidence is None) && gateway.reconciliation is Some ==> (r
            matches GatewayStep::ApplyStatusReport { action_id: applied, evidence, via_transfer }
            && applied == action_id && !via_transfer && (evidence is Accepted <==> known_state
            is Accepted) && (evidence is Running <==> known_state is Running) && (evidence
            is Succeeded <==> known_state is Succeeded) && (evidence is Failed <==> known_state
            is Failed) && (evidence is Cancelled <==> known_state is Cancelled) && (evidence
            is Unknown <==> known_state is Unknown)),
{
}

/// A request for a transfer authorization is issued on under the correlation it came
/// with, for the transfer and the key that it names; one without a correlation is
/// refused.
pub proof fn authorization_request_is_issued_on_as_sent<E, B, I, A, T, C, N, F, P, O>(
    gateway: AgentControlGateway<E, B, I, A, T, C, N, F, P, O>,
    envelope: AgentEnvelope,
    transfer_id: ProtocolId,
    proof_public_key: String,
    r: GatewayStep,
)
    requires
        call_ensures(
            AgentControlGateway::<E, B, I, A, T, C, N, F, P, O>::run_message_loop,
            (
                &gateway,
                AgentFrame::Message(envelope, AgentMessage::TransferAuthorizationRequest { transfer_id, proof_public_key }),
            ),
            r,
        ),
        gateway.bootstrap_evidence is Some,
        envelope.speaks_v1,
    ensures
        gateway.transfer_authorization is None ==> r == GatewayStep::Fail(
            AgentGatewayError::TransferAuthorizationServiceNotConfigured,
        ),
        gateway.transfer_authorization is Some && envelope.correlation_id is None ==> r == (GatewayStep::ProtocolError { correlation_id: Some(envelope.message_id) }),
        gateway.transfer_authorization is Some && envelope.correlation_id is Some ==> (r
            matches GatewayStep::IssueAuthorization {
            correlation_id,
            transfer_id: asked,
            proof_public_key: key,
        } && envelope.correlation_id == Some(correlation_id) && asked.0 == transfer_id.0 && key
            == proof_public_key),
{
}

/// A result goes by what the durable record says its action is: a transfer's is applied
/// with the code and the artifact that were spelled, and refused where it is not spelled
/// as one; an unknown action's is passed over.
pub proof fn classified_result_goes_by_its_kind<E, B, I, A, T, C, N, F, P, O>(
    gateway: AgentControlGateway<E, B, I, A, T, C, N, F, P, O>,
    envelope: AgentEnvelope,
    action_id: ProtocolId,
    outcome: ActionResultOutcome,
    detail: serde_json::Map<String, serde_json::Value>,
    classified: Result<TransferActionClassification, ApplicationError>,
    r: GatewayStep,
)
    requires
        call_ensures(
            AgentControlGateway::<E, B, I, A, T, C, N, F, P, O>::action_result_classified,
            (&gateway, &envelope, action_id, outcome, &detail, classified),
            r,
        ),
    ensures
        classified matches Ok(kind) ==> {
            let code = json::member_text(json::json_members(detail), "code"@);
            &&& kind is Unknown ==> r is Done
            &&& kind is DataPlaneTransfer ==> r is ApplyTransferResult || r == (GatewayStep::ProtocolError { correlation_id: Some(envelope.message_id) })
            &&& kind is DataPlaneTransfer && outcome is Cancelled ==> r == (GatewayStep::ProtocolError { correlation_id: Some(envelope.message_id) })
            &&& r matches GatewayStep::ApplyTransferResult { action_id: applied, detail: read }
                ==> kind is DataPlaneTransfer && applied == action_id && (read.code
                is TransferVerified <==> outcome is Succeeded) && (read.code is TransferVerified
                ==> code == Some("TRANSFER_VERIFIED"@)) && (read.code is ArtifactVerificationFailed
                ==> code == Some("ARTIFACT_VERIFICATION_FAILED"@)) && (read.code
                is ChunkVerificationFailed ==> code == Some("CHUNK_VERIFICATION_FAILED"@)) && (
            read.code is TransferAbandoned ==> code == Some("TRANSFER_ABANDONED"@))
            &&& kind is SimulatedExecution && outcome is Cancelled ==> r is Done
            &&& kind is SimulatedExecution && outcome is Succeeded && code != Some(
                "SIMULATED_COMPLETION"@,
            ) ==> r == (GatewayStep::ProtocolError { correlation_id: Some(envelope.message_id) })
            &&& kind is SimulatedExecution && outcome is Failed && code != Some(
                "SIMULATED_FAILURE"@,
            ) ==> r == (GatewayStep::ProtocolError { correlation_id: Some(envelope.message_id) })
            &&& kind is SimulatedExecution && outcome is Succeeded && gateway.action_evidence
                is Some && code == Some("SIMULATED_COMPLETION"@) ==> r
                == (GatewayStep::ApplyEvidence {
                action_id,
                evidence: ActionEvidence::ResultSucceeded,
            })
            &&& kind is SimulatedExecution && outcome is Failed && gateway.action_evidence is Some
                && code == Some("SIMULATED_FAILURE"@) ==> r == (GatewayStep::ApplyEvidence {
                action_id,
                evidence: ActionEvidence::ResultFailed,
            })
        },
        classified matches Err(error) ==> (error is UnknownAction ==> r is Done) && (error
            !is UnknownAction ==> r == GatewayStep::Fail(AgentGatewayError::Application(error))),
{
}

/// The answer to a cancellation, and the report of one, go by what the durable record
/// says their action is: a transfer's to the transfers, an unknown action's nowhere, any
/// other to the general service, as it was sent.
pub proof fn classified_cancellation_goes_by_its_kind<E, B, I, A, T, C, N, F, P, O>(
    gateway: AgentControlGateway<E, B, I, A, T, C, N, F, P, O>,
    action_id: ProtocolId,
    outcome: CancelAckOutcome,
    classified: Result<TransferActionClassification, ApplicationError>,
    answered: GatewayStep,
    reported: GatewayStep,
)
    requires
        call_ensures(
            AgentControlGateway::<E, B, I, A, T, C, N, F, P, O>::cancel_ack_classified,
            (&gateway, action_id, outcome, classified),
            answered,
        ),
        call_ensures(
            AgentControlGateway::<E, B, I, A, T, C, N, F, P, O>::status_report_classified,
            (&gateway, action_id, classified),
            reported,
        ),
    ensures
        classified matches Ok(kind) ==> {
            &&& kind is Unknown ==> answered is Done && reported is Done
            &&& kind is DataPlaneTransfer ==> (answered
                matches GatewayStep::ApplyTransferCancelAck { action_id: applied, evidence }
                && applied == action_id && (evidence is Cancelled <==> outcome is Cancelled) && (
            evidence is AlreadyCompleted <==> outcome is AlreadyCompleted) && (evidence
                is CannotCancel <==> outcome is CannotCancel) && (evidence is Unknown <==> outcome
                is Unknown)) && reported == (GatewayStep::ApplyTransferCancelled { action_id })
            &&& kind is SimulatedExecution && gateway.cancellation is Some ==> (answered
                matches GatewayStep::ApplyCancelAck { action_id: applied, evidence } && applied
                == action_id && (evidence is Cancelled <==> outcome is Cancelled) && (evidence
                is AlreadyCompleted <==> outcome is AlreadyCompleted) && (evidence is CannotCancel
                <==> outcome is CannotCancel) && (evidence is Unknown <==> outcome is Unknown))
            &&& kind is SimulatedExecution && gateway.reconciliation is Some ==> reported
                == (GatewayStep::ApplyStatusReport {
                action_id,
                evidence: StatusReportEvidence::Cancelled,
                via_transfer: false,
            })
            &&& kind is SimulatedExecution && gateway.cancellation is None ==> answered
                == GatewayStep::Fail(AgentGatewayError::CancellationServiceNotConfigured)
            &&& kind is SimulatedExecution && gateway.reconciliation is None ==> reported
                == GatewayStep::Fail(AgentGatewayError::ReconciliationServiceNotConfigured)
        },
        classified matches Err(error) ==> (error is UnknownAction ==> answered is Done && reported
            is Done) && (error !is UnknownAction ==> answered == GatewayStep::Fail(
            AgentGatewayError::Application(error),
        ) && reported == answered),
{
}

/// A message whose action was classified goes on as its own kind does; a status report
/// of anything but a cancellation is applied as it was sent.
pub proof fn classified_message_goes_on_as_its_kind<E, B, I, A, T, C, N, F, P, O>(
    gateway: AgentControlGateway<E, B, I, A, T, C, N, F, P, O>,
    envelope: AgentEnvelope,
    message: AgentMessage,
    classified: Result<TransferActionClassification, ApplicationError>,
    r: GatewayStep,
)
    requires
        call_ensures(
            AgentControlGateway::<E, B, I, A, T, C, N, F, P, O>::message_classified,
            (&gateway, &envelope, &message, classified),
            r,
        ),
    ensures
        message matches AgentMessage::CancelAck { action_id, outcome } ==> (classified matches Ok(
            TransferActionClassification::DataPlaneTransfer,
        ) ==> (r matches GatewayStep::ApplyTransferCancelAck { action_id: applied, evidence }
            && applied == action_id && (evidence is Cancelled <==> outcome is Cancelled))),
        message matches AgentMessage::StatusReport { action_id, known_state } ==> {
            &&& known_state is Cancelled && (classified matches Ok(
                TransferActionClassification::DataPlaneTransfer,
            )) ==> r == (GatewayStep::ApplyTransferCancelled { action_id })
            &&& known_state !is Cancelled && gateway.reconciliation is Some ==> (r
                matches GatewayStep::ApplyStatusReport { action_id: applied, evidence, via_transfer }
                && applied == action_id && !via_transfer && (evidence is Accepted <==> known_state
                is Accepted) && (evidence is Running <==> known_state is Running) && (evidence
                is Succeeded <==> known_state is Succeeded) && (evidence is Failed <==> known_state
                is Failed) && (evidence is Unknown <==> known_state is Unknown))
        },
        message matches AgentMessage::ActionResult { action_id, outcome, detail } ==> (
        classified matches Ok(TransferActionClassification::DataPlaneTransfer) ==> r
            is ApplyTransferResult || r == (GatewayStep::ProtocolError { correlation_id: Some(envelope.message_id) })),
        message !is ActionResult && message !is CancelAck && message !is StatusReport ==> r is Done,
{
}

/// A transfer's result that was consumed is done with; one that the record contradicts
/// is refused; an unknown action is passed over, and any other failure is the session's.
pub proof fn applied_transfer_result_is_answered<E, B, I, A, T, C, N, F, P, O>(
    gateway: AgentControlGateway<E, B, I, A, T, C, N, F, P, O>,
    envelope: AgentEnvelope,
    told: Result<TransferTerminalOutcome, ApplicationError>,
    r: GatewayStep,
)
    requires
        call_ensures(AgentControlGateway::<E, B, I, A, T, C, N, F, P, O>::transfer_result_applied, (&gateway, &envelope, told), r),
    ensures
        told matches Ok(outcome) ==> (outcome is Consumed ==> r is Done) && (outcome is FailClosed
            ==> r == (GatewayStep::ProtocolError { correlation_id: Some(envelope.message_id) })),
        told matches Err(error) ==> (error is UnknownAction ==> r is Done) && (error
            !is UnknownAction ==> r == GatewayStep::Fail(AgentGatewayError::Application(error))),
{
}

/// Where an action turned out to be no transfer after all, the general service takes
/// what was said of it, and knows that it came this way.
pub proof fn no_transfer_after_all_goes_to_the_general_service<E, B, I, A, T, C, N, F, P, O>(
    gateway: AgentControlGateway<E, B, I, A, T, C, N, F, P, O>,
    action_id: ProtocolId,
    evidence: CancelAckEvidence,
    cancel_told: Result<TransferCancelAckOutcome, ApplicationError>,
    answered: GatewayStep,
    status_told: Result<TransferStatusReportOutcome, ApplicationError>,
    reported: GatewayStep,
)
    requires
        call_ensures(
            AgentControlGateway::<E, B, I, A, T, C, N, F, P, O>::transfer_cancel_ack_applied,
            (&gateway, action_id, evidence, cancel_told),
            answered,
        ),
        call_ensures(
            AgentControlGateway::<E, B, I, A, T, C, N, F, P, O>::transfer_cancelled_applied,
            (&gateway, action_id, status_told),
            reported,
        ),
    ensures
        cancel_told matches Ok(outcome) ==> {
            &&& outcome is Consumed ==> answered is Done
            &&& outcome is NotTransferAction && gateway.cancellation is Some ==> answered
                == (GatewayStep::ApplyCancelAck { action_id, evidence })
            &&& outcome is NotTransferAction && gateway.cancellation is None ==> answered
                == GatewayStep::Fail(AgentGatewayError::CancellationServiceNotConfigured)
        },
        status_told matches Ok(outcome) ==> {
            &&& outcome is Consumed ==> reported is Done
            &&& outcome is NotTransferAction && gateway.reconciliation is Some ==> reported
                == (GatewayStep::ApplyStatusReport {
                action_id,
                evidence: StatusReportEvidence::Cancelled,
                via_transfer: true,
            })
            &&& outcome is NotTransferAction && gateway.reconciliation is None ==> reported
                == GatewayStep::Fail(AgentGatewayError::ReconciliationServiceNotConfigured)
        },
        cancel_told matches Err(error) ==> (error is UnknownAction ==> answered is Done) && (error
            !is UnknownAction ==> answered == GatewayStep::Fail(
            AgentGatewayError::Application(error),
        )),
        status_told matches Err(error) ==> (error is UnknownAction ==> reported is Done) && (error
            !is UnknownAction ==> reported == GatewayStep::Fail(
            AgentGatewayError::Application(error),
        )),
{
}

/// A session takes an action over exactly where an acknowledgement, or a status report
/// that was never taken for a transfer's, was applied and left the action open; an
/// unknown action is passed over, and any other failure is the session's.
pub proof fn session_takes_over_an_open_action<E, B, I, A, T, C, N, F, P, O>(
    gateway: AgentControlGateway<E, B, I, A, T, C, N, F, P, O>,
    action_id: ProtocolId,
    evidence: ActionEvidence,
    via_transfer: bool,
    told: Result<EvidenceResult, ApplicationError>,
    after_evidence: GatewayStep,
    after_status: GatewayStep,
    after_cancel: GatewayStep,
)
    requires
        call_ensures(
            AgentControlGateway::<E, B, I, A, T, C, N, F, P, O>::action_evidence_applied,
            (&gateway, action_id, evidence, told),
            after_evidence,
        ),
        call_ensures(
            AgentControlGateway::<E, B, I, A, T, C, N, F, P, O>::status_report_applied,
            (&gateway, action_id, via_transfer, told),
            after_status,
        ),
        call_ensures(AgentControlGateway::<E, B, I, A, T, C, N, F, P, O>::cancel_ack_applied, (&gateway, told), after_cancel),
    ensures
        after_evidence is Rebind <==> (evidence is AckAccepted || evidence is AckRejected) && (told
            matches Ok(EvidenceResult::Applied(applied)) && !applied.terminal),
        after_status is Rebind <==> !via_transfer && (told matches Ok(
            EvidenceResult::Applied(applied),
        ) && !applied.terminal),
        after_cancel !is Rebind,
        after_evidence matches GatewayStep::Rebind { action_id: bound } ==> bound == action_id,
        after_status matches GatewayStep::Rebind { action_id: bound } ==> bound == action_id,
        told is Ok ==> (after_evidence is Rebind || after_evidence is Done) && (after_status
            is Rebind || after_status is Done) && after_cancel is Done,
        told matches Err(error) ==> (error is UnknownAction ==> after_evidence is Done
            && after_status is Done && after_cancel is Done) && (error !is UnknownAction
            ==> after_evidence == GatewayStep::Fail(AgentGatewayError::Application(error))
            && after_status == after_evidence && after_cancel == after_evidence),
{
}

/// What a service made of something is passed on: done, passed over where the action is
/// not known, or a failure of the session; of a report every failure is.
pub proof fn answer_of_a_service_is_passed_on<R>(
    told: Result<R, ApplicationError>,
    r: GatewayStep,
    reported: GatewayStep,
)
    requires
        call_ensures(settle::<R>, (told,), r),
        call_ensures(settle_report::<R>, (told,), reported),
    ensures
        told is Ok ==> r is Done && reported is Done,
        told matches Err(error) ==> {
            &&& error is UnknownAction ==> r is Done
            &&& error !is UnknownAction ==> r == GatewayStep::Fail(
                AgentGatewayError::Application(error),
            )
            &&& reported == GatewayStep::Fail(AgentGatewayError::Application(error))
        },
{
}

/// An authorization is answered under the correlation and for the transfer that were
/// presented: a grant with the token, its end and where to go; a denial with one reason,
/// whatever the cause.
pub proof fn authorization_is_answered_as_issued<E, B, I, A, T, C, N, F, P, O>(
    gateway: AgentControlGateway<E, B, I, A, T, C, N, F, P, O>,
    envelope: AgentEnvelope,
    correlation_id: ProtocolId,
    transfer_id: ProtocolId,
    issued: Result<TransferAuthorizationOutcome, ApplicationError>,
    r: GatewayStep,
)
    requires
        call_ensures(
            AgentControlGateway::<E, B, I, A, T, C, N, F, P, O>::transfer_authorization_issued,
            (&gateway, &envelope, correlation_id, transfer_id, issued),
            r,
        ),
    ensures
        r is SendGrant <==> (issued matches Ok(outcome) && outcome is Granted),
        r matches GatewayStep::SendGrant(grant) ==> (issued matches Ok(
            TransferAuthorizationOutcome::Granted { token, expires_at, data_plane_base_url },
        ) && grant.correlation_id == correlation_id && grant.transfer_id == transfer_id
            && grant.token == token && grant.expires_at == expires_at && grant.data_plane_base_url
            == data_plane_base_url),
        r is SendDenied <==> (issued matches Ok(outcome) && outcome is Denied),
        r matches GatewayStep::SendDenied(denied) ==> denied.correlation_id == correlation_id
            && denied.transfer_id == transfer_id && denied.reason@ == "denied"@,
        issued matches Ok(outcome) ==> (outcome is ProtocolViolation ==> r == (GatewayStep::ProtocolError { correlation_id: Some(envelope.message_id) })),
        issued matches Err(error) ==> r == GatewayStep::Fail(AgentGatewayError::Application(error)),
{
}

/// Progress of the endpoint's own action is passed over, and of another's refused.
pub proof fn progress_of_a_foreign_action_is_refused<E, B, I, A, T, C, N, F, P, O>(
    gateway: AgentControlGateway<E, B, I, A, T, C, N, F, P, O>,
    envelope: AgentEnvelope,
    belongs: Result<bool, ApplicationError>,
    r: GatewayStep,
)
    requires
        call_ensures(AgentControlGateway::<E, B, I, A, T, C, N, F, P, O>::action_progress_checked, (&gateway, &envelope, belongs), r),
    ensures
        belongs matches Ok(own) ==> (own ==> r is Done) && (!own ==> r == (GatewayStep::ProtocolError { correlation_id: Some(envelope.message_id) })),
        belongs matches Err(error) ==> r == GatewayStep::Fail(
            AgentGatewayError::Application(error),
        ),
{
}

/// Every breach of the protocol is answered alike, under the message that it answers;
/// an answer that could not be sent fails the session.
pub proof fn every_breach_is_answered_alike(
    correlation_id: Option<ProtocolId>,
    r: ProtocolErrorReply,
    sent: Result<(), IoFault>,
    outcome: Result<(), AgentGatewayError>,
)
    requires
        call_ensures(protocol_error, (correlation_id,), r),
        call_ensures(message_sent, (sent,), outcome),
    ensures
        r.code@ == "GENERIC"@,
        r.message@ == "protocol violation"@,
        r.correlation_id == correlation_id,
        sent is Ok <==> outcome is Ok,
        sent matches Err(fault) ==> outcome->Err_0 == AgentGatewayError::Send(fault),
{
}

} // verus!
