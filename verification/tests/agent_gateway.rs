use std::sync::Arc;

use bamep_server::action_detail::{ActionResultOutcome, TransferResultCode};
use bamep_server::agent_gateway::{
    AgentControlGateway, AgentGatewayError, AuthenticatedSession, HandshakeFrame,
    HandshakeOutcome, HandshakeStep, HandshakeText, RedeemedStep, SessionStep,
};
use bamep_server::agent_messages::{
    message_sent, protocol_error, settle, settle_evidence, settle_report, ActionAckOutcome,
    AgentEnvelope, AgentFrame, AgentMessage, CancelAckOutcome, GatewayStep, KnownActionState,
};
use bamep_server::authorization::TransferAuthorizationOutcome;
use bamep_server::clock::Timestamp;
use bamep_server::enrollment::RedeemResult;
use bamep_server::errors::{ApplicationError, RepositoryError};
use bamep_server::evidence::{
    ActionEvidence, CancelAckEvidence, EvidenceApplied, EvidenceResult, StatusReportEvidence,
};
use bamep_server::evidence_service::{
    TransferActionClassification, TransferCancelAckOutcome, TransferStatusReportOutcome,
    TransferTerminalOutcome,
};
use bamep_server::ids::{
    uuid_is_v4, ActionId, AttemptId, EndpointId, JobId, JobStepId, ProtocolId, TransferId,
};
use bamep_server::model::{
    Attempt, AttemptState, Job, JobState, JobStep, JobStepState,
};
use bamep_server::worker_runtime_ownership::IoFault;

type Gateway = AgentControlGateway<u8, u8, u8, u8, u8, u8, u8, u8, u8, u8>;

const NOW: Timestamp = Timestamp { seconds: 1_700_000_000, nanos: 0 };
const MESSAGE: ProtocolId = ProtocolId(0x1111);
const ACTION: ProtocolId = ProtocolId(0xac);

fn bare() -> Gateway {
    AgentControlGateway::new(Arc::new(1), Arc::new(2), Arc::new(3))
}

fn plain() -> Gateway {
    bare().with_bootstrap_evidence_service(Arc::new(4))
}

fn equipped() -> Gateway {
    plain()
        .with_inventory_service(Arc::new(5))
        .with_action_evidence_service(Arc::new(6))
        .with_cancellation_service(Arc::new(7))
        .with_reconciliation_service(Arc::new(8))
        .with_transfer_authorization_service(Arc::new(9))
}

fn full() -> Gateway {
    equipped().with_transfer_terminal_evidence_service(Arc::new(10))
}

fn fault() -> ApplicationError {
    ApplicationError::Repository(RepositoryError::Backend("down".to_string()))
}

fn io() -> IoFault {
    IoFault { message: "reset".to_string() }
}

fn envelope(correlation_id: Option<ProtocolId>) -> AgentEnvelope {
    AgentEnvelope { message_id: MESSAGE, correlation_id, speaks_v1: true }
}

fn sent(gateway: &Gateway, message: AgentMessage) -> GatewayStep {
    gateway.run_message_loop(AgentFrame::Message(envelope(Some(ACTION)), message))
}

fn is_refused(step: GatewayStep) -> bool {
    matches!(step, GatewayStep::ProtocolError { correlation_id: Some(MESSAGE) })
}

fn detail(code: &str) -> serde_json::Map<String, serde_json::Value> {
    let mut object = serde_json::Map::new();
    object.insert("code".to_string(), code.into());
    object.insert("artifact_id".to_string(), "00000000-0000-0000-0000-00000000000f".into());
    object
}

#[test]
fn a_handshake_redeems_only_a_fitting_request() {
    let gateway = bare();
    let text = |text| gateway.handshake(HandshakeFrame::Text(text));
    assert!(matches!(
        text(HandshakeText::AuthRequest { message_id: MESSAGE, speaks_v1: true }),
        HandshakeStep::Redeem { message_id: MESSAGE }
    ));
    assert!(matches!(
        text(HandshakeText::AuthRequest { message_id: MESSAGE, speaks_v1: false }),
        HandshakeStep::Reject { correlation_id: Some(MESSAGE) }
    ));
    assert!(matches!(
        text(HandshakeText::WrongPhase { message_id: MESSAGE }),
        HandshakeStep::Reject { correlation_id: Some(MESSAGE) }
    ));
    assert!(matches!(
        text(HandshakeText::Malformed),
        HandshakeStep::Reject { correlation_id: None }
    ));
    assert!(matches!(
        gateway.handshake(HandshakeFrame::Binary),
        HandshakeStep::Reject { correlation_id: None }
    ));
    assert!(matches!(gateway.handshake(HandshakeFrame::Control), HandshakeStep::Continue));
    for frame in [HandshakeFrame::Close, HandshakeFrame::Ended] {
        assert!(matches!(
            gateway.handshake(frame),
            HandshakeStep::Fail(AgentGatewayError::ConnectionClosed)
        ));
    }
    assert!(matches!(
        gateway.handshake(HandshakeFrame::Failed(io())),
        HandshakeStep::Fail(AgentGatewayError::Receive(_))
    ));
}

#[test]
fn a_redeemed_agent_gets_a_session_of_its_own() {
    let gateway = bare();
    let redeemed = || {
        gateway.handle_auth_request(
            MESSAGE,
            Ok(RedeemResult::Established {
                endpoint_id: EndpointId(7),
                runtime_credential: 9u8,
                credential_expires_at: NOW,
            }),
        )
    };
    let session = match redeemed() {
        RedeemedStep::Establish { message, session } => {
            assert_eq!(message.correlation_id, MESSAGE);
            assert_eq!(message.runtime_credential, 9);
            assert_eq!(message.credential_expires_at, NOW);
            assert_eq!(message.session_id, session.session_id);
            assert_eq!(session.endpoint_id, EndpointId(7));
            assert!(uuid_is_v4(session.session_id.0));
            session
        }
        other => panic!("expected a session, got {:?}", other),
    };
    match redeemed() {
        RedeemedStep::Establish { session: second, .. } => {
            assert_ne!(second.session_id, session.session_id);
        }
        other => panic!("expected a session, got {:?}", other),
    }
    assert!(matches!(
        gateway.handle_auth_request::<u8>(MESSAGE, Ok(RedeemResult::Rejected)),
        RedeemedStep::Reject { correlation_id: Some(MESSAGE) }
    ));
    assert!(matches!(
        gateway.handle_auth_request::<u8>(MESSAGE, Err(fault())),
        RedeemedStep::Fail(AgentGatewayError::Application(ApplicationError::Repository(_)))
    ));
    assert!(matches!(
        gateway.handshake_sent(Some(session), Ok(())),
        Ok(HandshakeOutcome::Established(AuthenticatedSession { endpoint_id: EndpointId(7), .. }))
    ));
    assert!(matches!(gateway.handshake_sent(None, Ok(())), Ok(HandshakeOutcome::Rejected)));
    assert!(matches!(
        gateway.handshake_sent(None, Err(io())),
        Err(AgentGatewayError::Send(_))
    ));
}

#[test]
fn frames_that_are_no_messages_do_not_end_the_session() {
    let gateway = full();
    assert!(matches!(gateway.run_message_loop(AgentFrame::Ended), GatewayStep::End));
    assert!(matches!(gateway.run_message_loop(AgentFrame::Close), GatewayStep::End));
    assert!(matches!(gateway.run_message_loop(AgentFrame::Control), GatewayStep::Done));
    for frame in [AgentFrame::Binary, AgentFrame::Malformed] {
        assert!(matches!(
            gateway.run_message_loop(frame),
            GatewayStep::ProtocolError { correlation_id: None }
        ));
    }
    assert!(matches!(
        gateway.run_message_loop(AgentFrame::Failed(io())),
        GatewayStep::Fail(AgentGatewayError::Receive(_))
    ));
    let other_version = AgentEnvelope { speaks_v1: false, ..envelope(Some(ACTION)) };
    assert!(is_refused(
        gateway.run_message_loop(AgentFrame::Message(other_version, AgentMessage::InventoryReport))
    ));
    assert!(is_refused(sent(&gateway, AgentMessage::OutOfPlace)));
    assert!(matches!(sent(&gateway, AgentMessage::ProtocolError), GatewayStep::Done));
    assert!(matches!(
        sent(&gateway, AgentMessage::BootstrapEvidence),
        GatewayStep::VerifyBootstrapEvidence
    ));
    assert!(matches!(sent(&gateway, AgentMessage::InventoryReport), GatewayStep::RecordInventory));
}

fn action_messages(action_id: ProtocolId) -> Vec<AgentMessage> {
    vec![
        AgentMessage::ActionAck { action_id, outcome: ActionAckOutcome::Accepted },
        AgentMessage::ActionResult {
            action_id,
            outcome: ActionResultOutcome::Succeeded,
            detail: detail("SIMULATED_COMPLETION"),
        },
        AgentMessage::ActionProgress { action_id },
        AgentMessage::CancelAck { action_id, outcome: CancelAckOutcome::Cancelled },
        AgentMessage::StatusReport { action_id, known_state: KnownActionState::Running },
    ]
}

#[test]
fn uncorrelated_messages_reach_no_service() {
    for gateway in [plain(), equipped(), full()] {
        for message in action_messages(ProtocolId(0xbad)) {
            assert!(is_refused(sent(&gateway, message)));
        }
        for message in action_messages(ACTION) {
            assert!(is_refused(
                gateway.run_message_loop(AgentFrame::Message(envelope(None), message))
            ));
        }
    }
}

#[test]
fn a_missing_service_fails_the_messages_that_need_it() {
    let words: Vec<String> = action_messages(ACTION)
        .into_iter()
        .chain([
            AgentMessage::InventoryReport,
            AgentMessage::TransferAuthorizationRequest {
                transfer_id: ProtocolId(7),
                proof_public_key: "k".to_string(),
            },
        ])
        .map(|message| match sent(&plain(), message) {
            GatewayStep::Fail(error) => error.message(),
            other => panic!("expected a failure, got {:?}", other),
        })
        .collect();
    let evidence = "authenticated session received ActionAck/ActionResult without a configured ActionEvidenceService";
    assert_eq!(
        words,
        vec![
            evidence,
            evidence,
            evidence,
            "authenticated session received CancelAck without a configured CancellationService",
            "authenticated session received StatusReport without a configured ReconciliationService",
            "authenticated session received InventoryReport without a configured InventoryService",
            "authenticated session received TransferAuthorizationRequest without a configured TransferAuthorizationService",
        ]
    );
    assert_eq!(
        bare().run_authenticated_session().unwrap_err().message(),
        "authenticated session requires a configured BootstrapEvidenceService"
    );
}

#[test]
fn without_bootstrap_evidence_no_frame_is_looked_at() {
    let mut frames = vec![
        AgentFrame::Ended,
        AgentFrame::Close,
        AgentFrame::Control,
        AgentFrame::Binary,
        AgentFrame::Malformed,
        AgentFrame::Failed(io()),
        AgentFrame::Message(envelope(None), AgentMessage::BootstrapEvidence),
        AgentFrame::Message(envelope(None), AgentMessage::OutOfPlace),
    ];
    for message in action_messages(ACTION) {
        frames.push(AgentFrame::Message(envelope(Some(ACTION)), message));
    }
    for frame in frames {
        assert!(matches!(
            bare().run_message_loop(frame),
            GatewayStep::Fail(AgentGatewayError::BootstrapEvidenceServiceNotConfigured)
        ));
    }
}

#[test]
fn each_failure_of_a_connection_is_worded() {
    assert_eq!(
        AgentGatewayError::Receive(io()).message(),
        "failed to receive a WebSocket frame during the handshake"
    );
    assert_eq!(
        AgentGatewayError::Send(io()).message(),
        "failed to send a WebSocket frame during the handshake"
    );
    assert_eq!(
        AgentGatewayError::ConnectionClosed.message(),
        "the connection closed before the handshake completed"
    );
    assert_eq!(AgentGatewayError::Application(fault()).message(), "down");
    let reply = protocol_error(Some(MESSAGE));
    assert_eq!((reply.code.as_str(), reply.message.as_str()), ("GENERIC", "protocol violation"));
    assert_eq!(reply.correlation_id, Some(MESSAGE));
    assert!(message_sent(Ok(())).is_ok());
    assert!(matches!(message_sent(Err(io())), Err(AgentGatewayError::Send(_))));
}

#[test]
fn acknowledgements_become_evidence() {
    for (outcome, evidence) in [
        (ActionAckOutcome::Accepted, ActionEvidence::AckAccepted),
        (ActionAckOutcome::Rejected, ActionEvidence::AckRejected),
    ] {
        match sent(&full(), AgentMessage::ActionAck { action_id: ACTION, outcome }) {
            GatewayStep::ApplyEvidence { action_id, evidence: applied } => {
                assert_eq!(action_id, ACTION);
                assert_eq!(applied, evidence);
            }
            other => panic!("expected evidence, got {:?}", other),
        }
    }
}

#[test]
fn results_go_by_the_kind_of_the_action() {
    let result = |outcome, code: &str| AgentMessage::ActionResult {
        action_id: ACTION,
        outcome,
        detail: detail(code),
    };
    let completed = || result(ActionResultOutcome::Succeeded, "SIMULATED_COMPLETION");
    assert!(matches!(
        sent(&equipped(), completed()),
        GatewayStep::ApplyEvidence { evidence: ActionEvidence::ResultSucceeded, .. }
    ));
    assert!(matches!(
        sent(&equipped(), result(ActionResultOutcome::Failed, "SIMULATED_FAILURE")),
        GatewayStep::ApplyEvidence { evidence: ActionEvidence::ResultFailed, .. }
    ));
    assert!(is_refused(sent(
        &equipped(),
        result(ActionResultOutcome::Failed, "SIMULATED_COMPLETION")
    )));
    assert!(matches!(
        sent(&full(), completed()),
        GatewayStep::Classify { action_id: ACTION }
    ));
    for gateway in [equipped(), full()] {
        assert!(matches!(
            sent(&gateway, result(ActionResultOutcome::Cancelled, "X")),
            GatewayStep::Done
        ));
    }
    let classified = |outcome, code: &str, kind| {
        full().action_result_classified(
            &envelope(Some(ACTION)),
            ACTION,
            outcome,
            &detail(code),
            kind,
        )
    };
    match classified(
        ActionResultOutcome::Succeeded,
        "TRANSFER_VERIFIED",
        Ok(TransferActionClassification::DataPlaneTransfer),
    ) {
        GatewayStep::ApplyTransferResult { detail, .. } => {
            assert_eq!(detail.code, TransferResultCode::TransferVerified);
            assert_eq!(detail.artifact_id, 0xf);
        }
        other => panic!("expected a transfer's result, got {:?}", other),
    }
    assert!(is_refused(classified(
        ActionResultOutcome::Succeeded,
        "SIMULATED_COMPLETION",
        Ok(TransferActionClassification::DataPlaneTransfer)
    )));
    assert!(is_refused(classified(
        ActionResultOutcome::Succeeded,
        "TRANSFER_VERIFIED",
        Ok(TransferActionClassification::SimulatedExecution)
    )));
    assert!(matches!(
        classified(
            ActionResultOutcome::Succeeded,
            "TRANSFER_VERIFIED",
            Ok(TransferActionClassification::Unknown)
        ),
        GatewayStep::Done
    ));
    assert!(matches!(
        classified(ActionResultOutcome::Succeeded, "TRANSFER_VERIFIED", Err(fault())),
        GatewayStep::Fail(AgentGatewayError::Application(_))
    ));
    let applied = |told| full().transfer_result_applied(&envelope(Some(ACTION)), told);
    assert!(matches!(applied(Ok(TransferTerminalOutcome::Consumed)), GatewayStep::Done));
    assert!(is_refused(applied(Ok(TransferTerminalOutcome::FailClosed))));
    assert!(matches!(applied(Err(ApplicationError::UnknownAction)), GatewayStep::Done));
}

#[test]
fn cancellation_answers_go_by_the_kind_of_the_action() {
    for (outcome, evidence) in [
        (CancelAckOutcome::Cancelled, CancelAckEvidence::Cancelled),
        (CancelAckOutcome::AlreadyCompleted, CancelAckEvidence::AlreadyCompleted),
        (CancelAckOutcome::CannotCancel, CancelAckEvidence::CannotCancel),
        (CancelAckOutcome::Unknown, CancelAckEvidence::Unknown),
    ] {
        let message = || AgentMessage::CancelAck { action_id: ACTION, outcome };
        assert!(matches!(
            sent(&equipped(), message()),
            GatewayStep::ApplyCancelAck { evidence: found, .. } if found == evidence
        ));
        assert!(matches!(sent(&full(), message()), GatewayStep::Classify { .. }));
        let classified = |kind| full().cancel_ack_classified(ACTION, outcome, kind);
        assert!(matches!(
            classified(Ok(TransferActionClassification::DataPlaneTransfer)),
            GatewayStep::ApplyTransferCancelAck { evidence: found, .. } if found == evidence
        ));
        assert!(matches!(
            classified(Ok(TransferActionClassification::SimulatedExecution)),
            GatewayStep::ApplyCancelAck { evidence: found, .. } if found == evidence
        ));
        assert!(matches!(
            classified(Ok(TransferActionClassification::Unknown)),
            GatewayStep::Done
        ));
        let applied = |told| full().transfer_cancel_ack_applied(ACTION, evidence, told);
        assert!(matches!(applied(Ok(TransferCancelAckOutcome::Consumed)), GatewayStep::Done));
        assert!(matches!(
            applied(Ok(TransferCancelAckOutcome::NotTransferAction)),
            GatewayStep::ApplyCancelAck { evidence: found, .. } if found == evidence
        ));
        assert!(matches!(applied(Err(fault())), GatewayStep::Fail(_)));
    }
}

#[test]
fn only_a_report_of_cancellation_can_concern_a_transfer() {
    for (known_state, evidence) in [
        (KnownActionState::Accepted, StatusReportEvidence::Accepted),
        (KnownActionState::Running, StatusReportEvidence::Running),
        (KnownActionState::Succeeded, StatusReportEvidence::Succeeded),
        (KnownActionState::Failed, StatusReportEvidence::Failed),
        (KnownActionState::Unknown, StatusReportEvidence::Unknown),
    ] {
        for gateway in [equipped(), full()] {
            assert!(matches!(
                sent(&gateway, AgentMessage::StatusReport { action_id: ACTION, known_state }),
                GatewayStep::ApplyStatusReport { evidence: found, via_transfer: false, .. }
                    if found == evidence
            ));
        }
    }
    let cancelled = || AgentMessage::StatusReport {
        action_id: ACTION,
        known_state: KnownActionState::Cancelled,
    };
    assert!(matches!(
        sent(&equipped(), cancelled()),
        GatewayStep::ApplyStatusReport {
            evidence: StatusReportEvidence::Cancelled,
            via_transfer: false,
            ..
        }
    ));
    assert!(matches!(sent(&full(), cancelled()), GatewayStep::Classify { .. }));
    assert!(matches!(
        full().status_report_classified(ACTION, Ok(TransferActionClassification::DataPlaneTransfer)),
        GatewayStep::ApplyTransferCancelled { action_id: ACTION }
    ));
    assert!(matches!(
        full().status_report_classified(
            ACTION,
            Ok(TransferActionClassification::SimulatedExecution)
        ),
        GatewayStep::ApplyStatusReport {
            evidence: StatusReportEvidence::Cancelled,
            via_transfer: false,
            ..
        }
    ));
    assert!(matches!(
        full().transfer_cancelled_applied(
            ACTION,
            Ok(TransferStatusReportOutcome::NotTransferAction)
        ),
        GatewayStep::ApplyStatusReport {
            evidence: StatusReportEvidence::Cancelled,
            via_transfer: true,
            ..
        }
    ));
    assert!(matches!(
        full().transfer_cancelled_applied(ACTION, Ok(TransferStatusReportOutcome::Consumed)),
        GatewayStep::Done
    ));
}

#[test]
fn authorizations_are_answered_under_the_presented_correlation() {
    let request = || AgentMessage::TransferAuthorizationRequest {
        transfer_id: ProtocolId(7),
        proof_public_key: "k".to_string(),
    };
    match sent(&full(), request()) {
        GatewayStep::IssueAuthorization { correlation_id, transfer_id, proof_public_key } => {
            assert_eq!(correlation_id, ACTION);
            assert_eq!(transfer_id, TransferId(7));
            assert_eq!(proof_public_key, "k");
        }
        other => panic!("expected an authorization, got {:?}", other),
    }
    assert!(is_refused(
        full().run_message_loop(AgentFrame::Message(envelope(None), request()))
    ));
    let issued = |outcome| {
        full().transfer_authorization_issued(
            &envelope(Some(ACTION)),
            ACTION,
            ProtocolId(7),
            outcome,
        )
    };
    match issued(Ok(TransferAuthorizationOutcome::Granted {
        token: "cap_1".to_string(),
        expires_at: NOW,
        data_plane_base_url: "https://worker".to_string(),
    })) {
        GatewayStep::SendGrant(grant) => {
            assert_eq!(grant.correlation_id, ACTION);
            assert_eq!(grant.transfer_id, ProtocolId(7));
            assert_eq!(grant.token, "cap_1");
            assert_eq!(grant.expires_at, NOW);
            assert_eq!(grant.data_plane_base_url, "https://worker");
        }
        other => panic!("expected a grant, got {:?}", other),
    }
    match issued(Ok(TransferAuthorizationOutcome::Denied)) {
        GatewayStep::SendDenied(denied) => assert_eq!(denied.reason, "denied"),
        other => panic!("expected a denial, got {:?}", other),
    }
    assert!(is_refused(issued(Ok(TransferAuthorizationOutcome::ProtocolViolation))));
    assert!(matches!(issued(Err(fault())), GatewayStep::Fail(_)));
}

#[test]
fn progress_of_foreign_actions_is_refused() {
    assert!(matches!(
        sent(&full(), AgentMessage::ActionProgress { action_id: ACTION }),
        GatewayStep::CheckOwnership { action_id: ACTION }
    ));
    let checked = |belongs| full().action_progress_checked(&envelope(Some(ACTION)), belongs);
    assert!(matches!(checked(Ok(true)), GatewayStep::Done));
    assert!(is_refused(checked(Ok(false))));
    assert!(matches!(checked(Err(fault())), GatewayStep::Fail(_)));
}

fn applied(terminal: bool) -> EvidenceApplied {
    EvidenceApplied {
        attempt: Attempt {
            id: AttemptId(1),
            job_step_id: JobStepId(2),
            action_id: ActionId(ACTION.0),
            state: AttemptState::InProgress,
        },
        job_step: JobStep {
            id: JobStepId(2),
            job_id: JobId(3),
            order: 0,
            state: JobStepState::Dispatching,
            destructive_intent: None,
            failure_reason: None,
        },
        job: Job {
            id: JobId(3),
            endpoint_id: EndpointId(4),
            state: JobState::Running,
            steps: Vec::new(),
        },
        events: Vec::new(),
        terminal,
    }
}

#[test]
fn a_session_takes_over_what_it_left_open() {
    assert!(matches!(
        settle_evidence(ACTION, Ok(EvidenceResult::Applied(applied(false)))),
        GatewayStep::Rebind { action_id: ACTION }
    ));
    assert!(matches!(
        settle_evidence(ACTION, Ok(EvidenceResult::Applied(applied(true)))),
        GatewayStep::Done
    ));
    for quiet in [
        Ok(EvidenceResult::NoOp),
        Ok(EvidenceResult::Conflict),
        Err(ApplicationError::UnknownAction),
    ] {
        assert!(matches!(settle_evidence(ACTION, quiet), GatewayStep::Done));
    }
    assert!(matches!(settle_evidence(ACTION, Err(fault())), GatewayStep::Fail(_)));
    assert!(matches!(
        settle::<()>(Err(ApplicationError::UnknownAction)),
        GatewayStep::Done
    ));
    assert!(matches!(settle::<()>(Err(fault())), GatewayStep::Fail(_)));
    assert!(matches!(
        settle_report::<()>(Err(ApplicationError::UnknownAction)),
        GatewayStep::Fail(_)
    ));
    assert!(matches!(settle_report(Ok(())), GatewayStep::Done));
}

#[test]
fn only_an_acknowledgement_or_an_ordinary_report_takes_an_action_over() {
    let open = || Ok(EvidenceResult::Applied(applied(false)));
    for (evidence, rebinds) in [
        (ActionEvidence::AckAccepted, true),
        (ActionEvidence::AckRejected, true),
        (ActionEvidence::ResultSucceeded, false),
        (ActionEvidence::ResultFailed, false),
    ] {
        let step = full().action_evidence_applied(ACTION, evidence, open());
        assert_eq!(matches!(step, GatewayStep::Rebind { action_id: ACTION }), rebinds);
        assert_eq!(matches!(step, GatewayStep::Done), !rebinds);
        let failed = full().action_evidence_applied(ACTION, evidence, Err(fault()));
        assert!(matches!(failed, GatewayStep::Fail(_)));
    }
    assert!(matches!(
        full().status_report_applied(ACTION, false, open()),
        GatewayStep::Rebind { action_id: ACTION }
    ));
    assert!(matches!(full().status_report_applied(ACTION, true, open()), GatewayStep::Done));
    let ended = Ok(EvidenceResult::Applied(applied(true)));
    assert!(matches!(full().status_report_applied(ACTION, false, ended), GatewayStep::Done));
    assert!(matches!(full().cancel_ack_applied(open()), GatewayStep::Done));
    assert!(matches!(full().cancel_ack_applied(Err(fault())), GatewayStep::Fail(_)));
}

#[test]
fn a_classified_action_goes_on_with_the_message_it_came_from() {
    let go_on = |message: AgentMessage, kind| {
        full().message_classified(&envelope(Some(ACTION)), &message, Ok(kind))
    };
    let result = |code: &str| AgentMessage::ActionResult {
        action_id: ACTION,
        outcome: ActionResultOutcome::Succeeded,
        detail: detail(code),
    };
    assert!(matches!(
        go_on(result("TRANSFER_VERIFIED"), TransferActionClassification::DataPlaneTransfer),
        GatewayStep::ApplyTransferResult { action_id: ACTION, .. }
    ));
    assert!(matches!(
        go_on(result("SIMULATED_COMPLETION"), TransferActionClassification::SimulatedExecution),
        GatewayStep::ApplyEvidence { evidence: ActionEvidence::ResultSucceeded, .. }
    ));
    assert!(matches!(
        go_on(
            AgentMessage::CancelAck { action_id: ACTION, outcome: CancelAckOutcome::CannotCancel },
            TransferActionClassification::DataPlaneTransfer,
        ),
        GatewayStep::ApplyTransferCancelAck { evidence: CancelAckEvidence::CannotCancel, .. }
    ));
    let report = || AgentMessage::StatusReport {
        action_id: ACTION,
        known_state: KnownActionState::Cancelled,
    };
    assert!(matches!(
        go_on(report(), TransferActionClassification::DataPlaneTransfer),
        GatewayStep::ApplyTransferCancelled { action_id: ACTION }
    ));
    assert!(matches!(
        go_on(report(), TransferActionClassification::Unknown),
        GatewayStep::Done
    ));
    let running = AgentMessage::StatusReport {
        action_id: ACTION,
        known_state: KnownActionState::Running,
    };
    assert!(matches!(
        go_on(running, TransferActionClassification::DataPlaneTransfer),
        GatewayStep::ApplyStatusReport {
            action_id: ACTION,
            evidence: StatusReportEvidence::Running,
            via_transfer: false,
        }
    ));
}

#[test]
fn dropping_the_lifecycle_guard_unregisters_both_registries() {
    let opened = full().run_authenticated_session().unwrap();
    assert_eq!(
        opened,
        vec![
            SessionStep::RegisterOutbound,
            SessionStep::RegisterPresence,
            SessionStep::SpawnReconciliation,
        ]
    );
    let mut present = false;
    let mut outbound = false;
    for step in opened.into_iter().chain(full().session_ended(None)) {
        match step {
            SessionStep::RegisterOutbound => outbound = true,
            SessionStep::RegisterPresence => present = true,
            SessionStep::UnregisterPresence => present = false,
            SessionStep::UnregisterOutbound => outbound = false,
            _ => {}
        }
        assert!(outbound || !present);
    }
    assert!(!present);
    assert!(!outbound);
}

#[test]
fn what_was_sent_on_a_lost_session_becomes_uncertain() {
    assert_eq!(
        full().session_ended(Some(ACTION)),
        vec![
            SessionStep::UnregisterPresence,
            SessionStep::UnregisterOutbound,
            SessionStep::MarkUncertain { action_id: ACTION },
            SessionStep::Reconcile,
        ]
    );
    assert_eq!(
        plain().run_authenticated_session().unwrap(),
        vec![SessionStep::RegisterOutbound, SessionStep::RegisterPresence]
    );
    assert_eq!(
        plain().session_ended(Some(ACTION)),
        vec![SessionStep::UnregisterPresence, SessionStep::UnregisterOutbound]
    );
}

#[test]
fn a_gateway_keeps_its_registries() {
    let gateway = bare();
    assert_eq!((*gateway.presence(), *gateway.outbound_sessions()), (2, 3));
    let gateway = gateway
        .with_presence_registry(Arc::new(20))
        .with_outbound_session_directory(Arc::new(30));
    assert_eq!((*gateway.presence(), *gateway.outbound_sessions()), (20, 30));
    assert_eq!(*gateway.enrollment, 1);
}
