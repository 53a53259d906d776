//! An agent's connection: the handshake, the session that follows it, and what
//! each message of the agent leads to.
//!
//! The gateway decides nothing about jobs or credentials itself. It checks what
//! the protocol asks of a message, finds the service that is to take it, and
//! turns that service's answer into what the agent is told.

use vstd::prelude::*;
use std::sync::Arc;
use crate::clock::Timestamp;
use crate::enrollment::RedeemResult;
use crate::errors::ApplicationError;
use crate::ids::{self, fresh_uuid, EndpointId, ProtocolId};
use crate::worker_runtime_ownership::IoFault;

verus! {

/// The one reason that a refused handshake gives.
pub const GENERIC_AUTH_ERROR_REASON: &'static str = "rejected";

/// The one code of a protocol error.
pub const GENERIC_PROTOCOL_ERROR_CODE: &'static str = "GENERIC";

/// The one message of a protocol error.
pub const GENERIC_PROTOCOL_ERROR_MESSAGE: &'static str = "protocol violation";

/// The one reason that a denied transfer authorization gives.
pub const GENERIC_TRANSFER_AUTHORIZATION_DENIED_REASON: &'static str = "denied";

/// An agent that is in.
#[derive(Clone, Copy, Debug, PartialEq, Eq, Structural)]
pub struct AuthenticatedSession {
    pub endpoint_id: EndpointId,
    pub session_id: ProtocolId,
}

/// How a handshake ended, where it did not fail.
#[derive(Clone, Copy, Debug, PartialEq, Eq, Structural)]
pub enum HandshakeOutcome {
    Established(AuthenticatedSession),
    Rejected,
}

/// What can go wrong with a connection. A refused agent is none of these.
#[derive(Debug)]
pub enum AgentGatewayError {
    Receive(IoFault),
    Send(IoFault),
    ConnectionClosed,
    BootstrapEvidenceServiceNotConfigured,
    InventoryServiceNotConfigured,
    ActionEvidenceServiceNotConfigured,
    CancellationServiceNotConfigured,
    ReconciliationServiceNotConfigured,
    TransferAuthorizationServiceNotConfigured,
    Application(ApplicationError),
}

impl AgentGatewayError {
    /// The error's wording.
    pub open spec fn text(&self) -> Seq<char> {
        match self {
            AgentGatewayError::Receive(_) =>
                "failed to receive a WebSocket frame during the handshake"@,
            AgentGatewayError::Send(_) => "failed to send a WebSocket frame during the handshake"@,
            AgentGatewayError::ConnectionClosed =>
                "the connection closed before the handshake completed"@,
            AgentGatewayError::BootstrapEvidenceServiceNotConfigured =>
                "authenticated session requires a configured BootstrapEvidenceService"@,
            AgentGatewayError::InventoryServiceNotConfigured =>
                "authenticated session received InventoryReport without a configured InventoryService"@,
            AgentGatewayError::ActionEvidenceServiceNotConfigured =>
                "authenticated session received ActionAck/ActionResult without a configured ActionEvidenceService"@,
            AgentGatewayError::CancellationServiceNotConfigured =>
                "authenticated session received CancelAck without a configured CancellationService"@,
            AgentGatewayError::ReconciliationServiceNotConfigured =>
                "authenticated session received StatusReport without a configured ReconciliationService"@,
            AgentGatewayError::TransferAuthorizationServiceNotConfigured =>
                "authenticated session received TransferAuthorizationRequest without a configured TransferAuthorizationService"@,
            AgentGatewayError::Application(error) => error.text(),
        }
    }

    /// The error's wording.
    pub fn message(&self) -> (r: String)
        ensures
            r@ == self.text(),
    {
        match self {
            AgentGatewayError::Receive(_) =>
                "failed to receive a WebSocket frame during the handshake".to_owned(),
            AgentGatewayError::Send(_) =>
                "failed to send a WebSocket frame during the handshake".to_owned(),
            AgentGatewayError::ConnectionClosed =>
                "the connection closed before the handshake completed".to_owned(),
            AgentGatewayError::BootstrapEvidenceServiceNotConfigured =>
                "authenticated session requires a configured BootstrapEvidenceService".to_owned(),
            AgentGatewayError::InventoryServiceNotConfigured =>
                "authenticated session received InventoryReport without a configured InventoryService".to_owned(),
            AgentGatewayError::ActionEvidenceServiceNotConfigured =>
                "authenticated session received ActionAck/ActionResult without a configured ActionEvidenceService".to_owned(),
            AgentGatewayError::CancellationServiceNotConfigured =>
                "authenticated session received CancelAck without a configured CancellationService".to_owned(),
            AgentGatewayError::ReconciliationServiceNotConfigured =>
                "authenticated session received StatusReport without a configured ReconciliationService".to_owned(),
            AgentGatewayError::TransferAuthorizationServiceNotConfigured =>
                "authenticated session received TransferAuthorizationRequest without a configured TransferAuthorizationService".to_owned(),
            AgentGatewayError::Application(error) => error.message(),
        }
    }
}

/// A text frame, read as a message of the protocol during the handshake.
#[derive(Debug)]
pub enum HandshakeText {
    /// Not a message at all; it has no identity to answer to.
    Malformed,
    /// A message, but of a later phase.
    WrongPhase { message_id: ProtocolId },
    AuthRequest { message_id: ProtocolId, speaks_v1: bool },
}

/// What came on a connection whose handshake is not done.
#[derive(Debug)]
pub enum HandshakeFrame {
    Text(HandshakeText),
    Binary,
    Close,
    /// A ping, a pong or a raw frame.
    Control,
    /// The connection ended.
    Ended,
    Failed(IoFault),
}

/// What the handshake does next.
#[derive(Debug)]
pub enum HandshakeStep {
    /// Read another frame.
    Continue,
    /// Send the generic refusal, correlated to this message if there is one.
    Reject { correlation_id: Option<ProtocolId> },
    /// Redeem the credential that came with this message.
    Redeem { message_id: ProtocolId },
    Fail(AgentGatewayError),
}

/// The message that lets an agent in. `K` is the credential.
#[derive(Debug)]
pub struct SessionEstablished<K> {
    pub session_id: ProtocolId,
    pub runtime_credential: K,
    pub credential_expires_at: Timestamp,
    pub correlation_id: ProtocolId,
}

/// What follows from a redemption.
#[derive(Debug)]
pub enum RedeemedStep<K> {
    /// Send this; the agent is in once that was sent.
    Establish { message: SessionEstablished<K>, session: AuthenticatedSession },
    Reject { correlation_id: Option<ProtocolId> },
    Fail(AgentGatewayError),
}

/// What a text frame of a handshake leads to. The version is looked at before
/// the credential is redeemed, so that an agent of another version does not use
/// its credential up.
pub open spec fn text_leads_to(text: HandshakeText) -> HandshakeStep {
    match text {
        HandshakeText::Malformed => HandshakeStep::Reject { correlation_id: None },
        HandshakeText::WrongPhase { message_id } => HandshakeStep::Reject {
            correlation_id: Some(message_id),
        },
        HandshakeText::AuthRequest { message_id, speaks_v1 } => if speaks_v1 {
            HandshakeStep::Redeem { message_id }
        } else {
            HandshakeStep::Reject { correlation_id: Some(message_id) }
        },
    }
}

/// What a frame of a handshake leads to.
pub open spec fn frame_leads_to(frame: HandshakeFrame) -> HandshakeStep {
    match frame {
        HandshakeFrame::Text(text) => text_leads_to(text),
        HandshakeFrame::Binary => HandshakeStep::Reject { correlation_id: None },
        HandshakeFrame::Close | HandshakeFrame::Ended => HandshakeStep::Fail(
            AgentGatewayError::ConnectionClosed,
        ),
        HandshakeFrame::Control => HandshakeStep::Continue,
        HandshakeFrame::Failed(fault) => HandshakeStep::Fail(AgentGatewayError::Receive(fault)),
    }
}

/// A credential is redeemed only for a message that asks for it, in the version
/// that is spoken here.
pub proof fn only_a_fitting_request_is_redeemed(frame: HandshakeFrame)
    requires
        frame_leads_to(frame) is Redeem,
    ensures
        frame matches HandshakeFrame::Text(HandshakeText::AuthRequest { speaks_v1, .. })
            && speaks_v1,
{
}

/// Takes agents in and serves them. The type parameters are the services and
/// registries behind it; a service that is missing fails the messages that need
/// it.
pub struct AgentControlGateway<E, B, I, A, T, C, N, F, P, O> {
    pub enrollment: Arc<E>,
    pub bootstrap_evidence: Option<Arc<B>>,
    pub inventory: Option<Arc<I>>,
    pub action_evidence: Option<Arc<A>>,
    pub transfer_terminal_evidence: Option<Arc<T>>,
    pub cancellation: Option<Arc<C>>,
    pub reconciliation: Option<Arc<N>>,
    pub transfer_authorization: Option<Arc<F>>,
    pub presence: Arc<P>,
    pub outbound_sessions: Arc<O>,
}

impl<E, B, I, A, T, C, N, F, P, O> AgentControlGateway<E, B, I, A, T, C, N, F, P, O> {
    /// Decides about one frame of a handshake.
    pub fn handshake(&self, frame: HandshakeFrame) -> (r: HandshakeStep)
        ensures
            r == frame_leads_to(frame),
    {
        match frame {
            HandshakeFrame::Text(text) => self.handle_text(text),
            HandshakeFrame::Binary => HandshakeStep::Reject { correlation_id: None },
            HandshakeFrame::Close | HandshakeFrame::Ended => HandshakeStep::Fail(
                AgentGatewayError::ConnectionClosed,
            ),
            HandshakeFrame::Control => HandshakeStep::Continue,
            HandshakeFrame::Failed(fault) => HandshakeStep::Fail(AgentGatewayError::Receive(fault)),
        }
    }

    fn handle_text(&self, text: HandshakeText) -> (r: HandshakeStep)
        ensures
            r == text_leads_to(text),
    {
        match text {
            HandshakeText::Malformed => HandshakeStep::Reject { correlation_id: None },
            HandshakeText::WrongPhase { message_id } => HandshakeStep::Reject {
                correlation_id: Some(message_id),
            },
            HandshakeText::AuthRequest { message_id, speaks_v1 } => if speaks_v1 {
                HandshakeStep::Redeem { message_id }
            } else {
                HandshakeStep::Reject { correlation_id: Some(message_id) }
            },
        }
    }

    /// Decides what follows from a redemption. A failure of the storage is a failure
    /// of the connection, never a refusal. An agent that is let in gets an identity
    /// for its session that is new each time.
    pub fn handle_auth_request<K>(
        &self,
        message_id: ProtocolId,
        redeemed: Result<RedeemResult<K>, ApplicationError>,
    ) -> (r: RedeemedStep<K>)
        ensures
            match redeemed {
                Ok(
                    RedeemResult::Established {
                        endpoint_id,
                        runtime_credential,
                        credential_expires_at,
                    },
                ) => {
                    &&& r matches RedeemedStep::Establish { message, session }
                    &&& ids::is_uuid_v4(session.session_id.0)
                    &&& session.endpoint_id == endpoint_id
                    &&& message == (SessionEstablished {
                        session_id: session.session_id,
                        runtime_credential,
                        credential_expires_at,
                        correlation_id: message_id,
                    })
                },
                Ok(RedeemResult::Rejected) => r == (RedeemedStep::<K>::Reject {
                    correlation_id: Some(message_id),
                }),
                Err(error) => r == RedeemedStep::<K>::Fail(AgentGatewayError::Application(error)),
            },
    {
        match redeemed {
            Ok(
                RedeemResult::Established { endpoint_id, runtime_credential, credential_expires_at },
            ) => {
                let session_id = ProtocolId(fresh_uuid());
                RedeemedStep::Establish {
                    message: SessionEstablished {
                        session_id,
                        runtime_credential,
                        credential_expires_at,
                        correlation_id: message_id,
                    },
                    session: AuthenticatedSession { endpoint_id, session_id },
                }
            },
            Ok(RedeemResult::Rejected) => RedeemedStep::Reject { correlation_id: Some(message_id) },
            Err(error) => RedeemedStep::Fail(AgentGatewayError::Application(error)),
        }
    }

    /// A handshake's outcome once its last message was sent: the session where the
    /// agent was let in, a rejection where it was refused.
    pub fn handshake_sent(
        &self,
        established: Option<AuthenticatedSession>,
        sent: Result<(), IoFault>,
    ) -> (r: Result<HandshakeOutcome, AgentGatewayError>)
        ensures
            match sent {
                Ok(_) => r == Ok::<HandshakeOutcome, AgentGatewayError>(
                    match established {
                        Some(session) => HandshakeOutcome::Established(session),
                        None => HandshakeOutcome::Rejected,
                    },
                ),
                Err(fault) => r == Err::<HandshakeOutcome, AgentGatewayError>(
                    AgentGatewayError::Send(fault),
                ),
            },
    {
        match sent {
            Ok(_) => Ok(
                match established {
                    Some(session) => HandshakeOutcome::Established(session),
                    None => HandshakeOutcome::Rejected,
                },
            ),
            Err(fault) => Err(AgentGatewayError::Send(fault)),
        }
    }

    /// Only what every gateway has; each service is added by a call of its own.
    pub fn new(enrollment: Arc<E>, presence: Arc<P>, outbound_sessions: Arc<O>) -> (r: Self)
        ensures
            r == (AgentControlGateway::<E, B, I, A, T, C, N, F, P, O> {
                enrollment,
                bootstrap_evidence: None,
                inventory: None,
                action_evidence: None,
                transfer_terminal_evidence: None,
                cancellation: None,
                reconciliation: None,
                transfer_authorization: None,
                presence,
                outbound_sessions,
            }),
    {
        AgentControlGateway {
            enrollment,
            bootstrap_evidence: None,
            inventory: None,
            action_evidence: None,
            transfer_terminal_evidence: None,
            cancellation: None,
            reconciliation: None,
            transfer_authorization: None,
            presence,
            outbound_sessions,
        }
    }

    pub fn with_bootstrap_evidence_service(self, service: Arc<B>) -> (r: Self)
        ensures
            r == (AgentControlGateway { bootstrap_evidence: Some(service), ..self }),
    {
        AgentControlGateway { bootstrap_evidence: Some(service), ..self }
    }

    pub fn with_inventory_service(self, service: Arc<I>) -> (r: Self)
        ensures
            r == (AgentControlGateway { inventory: Some(service), ..self }),
    {
        AgentControlGateway { inventory: Some(service), ..self }
    }

    pub fn with_action_evidence_service(self, service: Arc<A>) -> (r: Self)
        ensures
            r == (AgentControlGateway { action_evidence: Some(service), ..self }),
    {
        AgentControlGateway { action_evidence: Some(service), ..self }
    }

    pub fn with_transfer_terminal_evidence_service(self, service: Arc<T>) -> (r: Self)
        ensures
            r == (AgentControlGateway { transfer_terminal_evidence: Some(service), ..self }),
    {
        AgentControlGateway { transfer_terminal_evidence: Some(service), ..self }
    }

    pub fn with_cancellation_service(self, service: Arc<C>) -> (r: Self)
        ensures
            r == (AgentControlGateway { cancellation: Some(service), ..self }),
    {
        AgentControlGateway { cancellation: Some(service), ..self }
    }

    pub fn with_reconciliation_service(self, service: Arc<N>) -> (r: Self)
        ensures
            r == (AgentControlGateway { reconciliation: Some(service), ..self }),
    {
        AgentControlGateway { reconciliation: Some(service), ..self }
    }

    pub fn with_transfer_authorization_service(self, service: Arc<F>) -> (r: Self)
        ensures
            r == (AgentControlGateway { transfer_authorization: Some(service), ..self }),
    {
        AgentControlGateway { transfer_authorization: Some(service), ..self }
    }

    pub fn with_presence_registry(self, presence: Arc<P>) -> (r: Self)
        ensures
            r == (AgentControlGateway { presence, ..self }),
    {
        AgentControlGateway { presence, ..self }
    }

    pub fn with_outbound_session_directory(self, outbound_sessions: Arc<O>) -> (r: Self)
        ensures
            r == (AgentControlGateway { outbound_sessions, ..self }),
    {
        AgentControlGateway { outbound_sessions, ..self }
    }

    /// The registry that the sessions are announced in.
    pub fn presence(&self) -> (r: Arc<P>)
        ensures
            r == self.presence,
    {
        Arc::clone(&self.presence)
    }

    /// The directory that the sessions can be reached through.
    pub fn outbound_sessions(&self) -> (r: Arc<O>)
        ensures
            r == self.outbound_sessions,
    {
        Arc::clone(&self.outbound_sessions)
    }

    /// How a session is opened. Without the service that takes its evidence it
    /// is not opened at all.
    pub fn run_authenticated_session(&self) -> (r: Result<Vec<SessionStep>, AgentGatewayError>)
        ensures
            match r {
                Ok(steps) => self.bootstrap_evidence is Some && steps@ == opening_steps(
                    self.reconciliation is Some,
                ),
                Err(error) => self.bootstrap_evidence is None && error
                    is BootstrapEvidenceServiceNotConfigured,
            },
    {
        if self.bootstrap_evidence.is_none() {
            return Err(AgentGatewayError::BootstrapEvidenceServiceNotConfigured);
        }
        let mut steps: Vec<SessionStep> = Vec::new();
        steps.push(SessionStep::RegisterOutbound);
        steps.push(SessionStep::RegisterPresence);
        if self.reconciliation.is_some() {
            steps.push(SessionStep::SpawnReconciliation);
        }
        assert(steps@ =~= opening_steps(self.reconciliation is Some));
        Ok(steps)
    }

    /// How a session is closed, whatever its loop ended with. `dispatched` is
    /// the action that was sent on it, read before anything is taken back.
    pub fn session_ended(&self, dispatched: Option<ProtocolId>) -> (r: Vec<SessionStep>)
        ensures
            r@ == closing_steps(dispatched, self.reconciliation is Some),
    {
        let mut steps: Vec<SessionStep> = Vec::new();
        steps.push(SessionStep::UnregisterPresence);
        steps.push(SessionStep::UnregisterOutbound);
        if let Some(action_id) = dispatched {
            if self.reconciliation.is_some() {
                steps.push(SessionStep::MarkUncertain { action_id });
                steps.push(SessionStep::Reconcile);
            }
        }
        assert(steps@ =~= closing_steps(dispatched, self.reconciliation is Some));
        steps
    }
}

/// One thing that is done when a session opens or closes.
#[derive(Clone, Copy, Debug, PartialEq, Eq, Structural)]
pub enum SessionStep {
    RegisterOutbound,
    RegisterPresence,
    /// Ask about what an earlier session left uncertain, beside the loop.
    SpawnReconciliation,
    UnregisterPresence,
    UnregisterOutbound,
    /// The action's fate is uncertain, if it is still the one.
    MarkUncertain { action_id: ProtocolId },
    /// Ask about it on another session, if there is one.
    Reconcile,
}

/// The steps that open a session.
pub open spec fn opening_steps(reconciles: bool) -> Seq<SessionStep> {
    if reconciles {
        seq![
            SessionStep::RegisterOutbound,
            SessionStep::RegisterPresence,
            SessionStep::SpawnReconciliation,
        ]
    } else {
        seq![SessionStep::RegisterOutbound, SessionStep::RegisterPresence]
    }
}

/// The steps that close a session. What was sent on it is uncertain from then
/// on; where nothing was sent, nothing is.
pub open spec fn closing_steps(dispatched: Option<ProtocolId>, reconciles: bool) -> Seq<
    SessionStep,
> {
    match dispatched {
        Some(action_id) if reconciles => seq![
            SessionStep::UnregisterPresence,
            SessionStep::UnregisterOutbound,
            SessionStep::MarkUncertain { action_id },
            SessionStep::Reconcile,
        ],
        _ => seq![SessionStep::UnregisterPresence, SessionStep::UnregisterOutbound],
    }
}

/// Where a session is registered.
pub struct Registered {
    pub outbound: bool,
    pub present: bool,
}

/// Where a session is registered after one more step.
pub open spec fn registered_by(before: Registered, step: SessionStep) -> Registered {
    match step {
        SessionStep::RegisterOutbound => Registered { outbound: true, ..before },
        SessionStep::RegisterPresence => Registered { present: true, ..before },
        SessionStep::UnregisterPresence => Registered { present: false, ..before },
        SessionStep::UnregisterOutbound => Registered { outbound: false, ..before },
        _ => before,
    }
}

/// Where a session is registered after steps.
pub open spec fn registered_after(steps: Seq<SessionStep>) -> Registered
    decreases steps.len(),
{
    if steps.len() == 0 {
        Registered { outbound: false, present: false }
    } else {
        registered_by(registered_after(steps.drop_last()), steps.last())
    }
}

/// At every moment of a session, present means reachable; and by the time that
/// anything is asked about what was sent on it, the session is neither.
#[verifier::spinoff_prover]
pub proof fn presence_means_reachable(
    dispatched: Option<ProtocolId>,
    reconciles: bool,
    count: int,
)
    requires
        0 <= count <= (opening_steps(reconciles) + closing_steps(dispatched, reconciles)).len(),
    ensures
        ({
            let steps = opening_steps(reconciles) + closing_steps(dispatched, reconciles);
            let now = registered_after(steps.take(count));
            &&& now.present ==> now.outbound
            &&& count < steps.len() && (steps[count] is MarkUncertain || steps[count] is Reconcile)
                ==> !now.present && !now.outbound
            &&& count == steps.len() ==> !now.present && !now.outbound
        }),
{
    let steps = opening_steps(reconciles) + closing_steps(dispatched, reconciles);
    assert forall|k: int| 0 < k <= steps.len() implies registered_after(#[trigger] steps.take(k))
        == registered_by(registered_after(steps.take(k - 1)), steps[k - 1]) by {
        assert(steps.take(k).drop_last() =~= steps.take(k - 1));
    }
    assert(steps.take(0) =~= Seq::empty());
    assert(registered_after(steps.take(1)).outbound);
    assert(registered_after(steps.take(2)).present);
    if reconciles {
        assert(registered_after(steps.take(3)).present);
        assert(!registered_after(steps.take(4)).present);
        assert(!registered_after(steps.take(5)).outbound);
        if dispatched is Some {
            assert(!registered_after(steps.take(6)).outbound);
            assert(!registered_after(steps.take(7)).outbound);
        }
    } else {
        assert(!registered_after(steps.take(3)).present);
        assert(!registered_after(steps.take(4)).outbound);
    }
}

/// A handshake goes by what came: only a request in the version that is spoken here is
/// redeemed, under its own identity; anything else that can be read is refused, under
/// its identity where it has one; a connection that ends or fails, fails.
pub proof fn handshake_goes_by_what_came<E, B, I, A, T, C, N, F, P, O>(
    gateway: AgentControlGateway<E, B, I, A, T, C, N, F, P, O>,
    frame: HandshakeFrame,
    r: HandshakeStep,
)
    requires
        call_ensures(AgentControlGateway::<E, B, I, A, T, C, N, F, P, O>::handshake, (&gateway, frame), r),
    ensures
        r is Redeem <==> (frame matches HandshakeFrame::Text(
            HandshakeText::AuthRequest { message_id, speaks_v1 },
        ) && speaks_v1),
        frame matches HandshakeFrame::Text(HandshakeText::AuthRequest { message_id, speaks_v1 })
            ==> (speaks_v1 ==> r == (HandshakeStep::Redeem { message_id })) && (!speaks_v1 ==> r
            == (HandshakeStep::Reject { correlation_id: Some(message_id) })),
        frame matches HandshakeFrame::Text(HandshakeText::WrongPhase { message_id }) ==> r
            == (HandshakeStep::Reject { correlation_id: Some(message_id) }),
        frame matches HandshakeFrame::Text(HandshakeText::Malformed) ==> r
            == (HandshakeStep::Reject { correlation_id: None }),
        frame is Binary ==> r == (HandshakeStep::Reject { correlation_id: None }),
        frame is Control <==> r is Continue,
        frame is Close || frame is Ended ==> r == HandshakeStep::Fail(
            AgentGatewayError::ConnectionClosed,
        ),
        frame matches HandshakeFrame::Failed(fault) ==> r == HandshakeStep::Fail(
            AgentGatewayError::Receive(fault),
        ),
{
}

/// An agent is let in exactly where its credential was redeemed: as that endpoint, with
/// the credential that was issued, under one session identity. A refusal says nothing
/// but what it answers, and a failure is never a refusal.
pub proof fn agent_is_let_in_with_its_own_credential<E, B, I, A, T, C, N, F, P, O, K>(
    gateway: AgentControlGateway<E, B, I, A, T, C, N, F, P, O>,
    message_id: ProtocolId,
    redeemed: Result<RedeemResult<K>, ApplicationError>,
    r: RedeemedStep<K>,
)
    requires
        call_ensures(
            AgentControlGateway::<E, B, I, A, T, C, N, F, P, O>::handle_auth_request::<K>,
            (&gateway, message_id, redeemed),
            r,
        ),
    ensures
        r is Establish <==> (redeemed matches Ok(result) && result is Established),
        r is Reject <==> (redeemed matches Ok(result) && result is Rejected),
        r is Fail <==> redeemed is Err,
        r matches RedeemedStep::Establish { message, session } ==> (redeemed matches Ok(
            RedeemResult::Established { endpoint_id, runtime_credential, credential_expires_at },
        ) && ids::is_uuid_v4(session.session_id.0) && session.endpoint_id == endpoint_id
            && message.runtime_credential == runtime_credential
            && message.credential_expires_at == credential_expires_at && message.session_id
            == session.session_id && message.correlation_id == message_id),
        r matches RedeemedStep::Reject { correlation_id } ==> correlation_id == Some(message_id),
        r matches RedeemedStep::Fail(error) ==> (redeemed matches Err(fault) && error
            == AgentGatewayError::Application(fault)),
{
}

/// A handshake ends with the session that was established, or with a rejection where
/// none was, once its last message was sent; one that could not be sent fails.
pub proof fn handshake_ends_once_it_was_answered<E, B, I, A, T, C, N, F, P, O>(
    gateway: AgentControlGateway<E, B, I, A, T, C, N, F, P, O>,
    established: Option<AuthenticatedSession>,
    sent: Result<(), IoFault>,
    r: Result<HandshakeOutcome, AgentGatewayError>,
)
    requires
        call_ensures(AgentControlGateway::<E, B, I, A, T, C, N, F, P, O>::handshake_sent, (&gateway, established, sent), r),
    ensures
        r is Ok <==> sent is Ok,
        r matches Ok(outcome) ==> (outcome is Established <==> established is Some),
        r matches Ok(HandshakeOutcome::Established(session)) ==> established == Some(session),
        sent matches Err(fault) ==> r->Err_0 == AgentGatewayError::Send(fault),
{
}

/// A session is opened exactly where its evidence can be taken: it is reachable first,
/// present second, and asks about what was left uncertain last, where that can be.
pub proof fn session_opens_in_order<E, B, I, A, T, C, N, F, P, O>(
    gateway: AgentControlGateway<E, B, I, A, T, C, N, F, P, O>,
    r: Result<Vec<SessionStep>, AgentGatewayError>,
)
    requires
        call_ensures(AgentControlGateway::<E, B, I, A, T, C, N, F, P, O>::run_authenticated_session, (&gateway,), r),
    ensures
        r is Ok <==> gateway.bootstrap_evidence is Some,
        r matches Err(error) ==> error is BootstrapEvidenceServiceNotConfigured,
        r matches Ok(steps) ==> {
            &&& steps@.len() >= 2
            &&& steps@[0] is RegisterOutbound
            &&& steps@[1] is RegisterPresence
            &&& gateway.reconciliation is Some ==> steps@.len() == 3 && steps@[2]
                is SpawnReconciliation
            &&& gateway.reconciliation is None ==> steps@.len() == 2
        },
{
}

/// A session is closed in the other order: absent first, out of reach second. What was
/// sent on it is then uncertain and asked about, where that can be; where nothing was
/// sent, nothing is.
pub proof fn session_closes_in_order<E, B, I, A, T, C, N, F, P, O>(
    gateway: AgentControlGateway<E, B, I, A, T, C, N, F, P, O>,
    dispatched: Option<ProtocolId>,
    r: Vec<SessionStep>,
)
    requires
        call_ensures(AgentControlGateway::<E, B, I, A, T, C, N, F, P, O>::session_ended, (&gateway, dispatched), r),
    ensures
        r@.len() >= 2,
        r@[0] is UnregisterPresence,
        r@[1] is UnregisterOutbound,
        dispatched is None || gateway.reconciliation is None ==> r@.len() == 2,
        dispatched is Some && gateway.reconciliation is Some ==> r@.len() == 4 && r@[2]
            == (SessionStep::MarkUncertain { action_id: dispatched->Some_0 }) && r@[3]
            is Reconcile,
{
}

/// What goes wrong with a connection is worded by what it is.
pub proof fn connection_errors_are_worded_by_what_they_are(error: AgentGatewayError, r: String)
    requires
        call_ensures(AgentGatewayError::message, (&error,), r),
    ensures
        error is Receive ==> r@ == "failed to receive a WebSocket frame during the handshake"@,
        error is Send ==> r@ == "failed to send a WebSocket frame during the handshake"@,
        error is ConnectionClosed ==> r@ == "the connection closed before the handshake completed"@,
        error is BootstrapEvidenceServiceNotConfigured ==> r@
            == "authenticated session requires a configured BootstrapEvidenceService"@,
        error is InventoryServiceNotConfigured ==> r@
            == "authenticated session received InventoryReport without a configured InventoryService"@,
        error is ActionEvidenceServiceNotConfigured ==> r@
            == "authenticated session received ActionAck/ActionResult without a configured ActionEvidenceService"@,
        error is CancellationServiceNotConfigured ==> r@
            == "authenticated session received CancelAck without a configured CancellationService"@,
        error is ReconciliationServiceNotConfigured ==> r@
            == "authenticated session received StatusReport without a configured ReconciliationService"@,
        error is TransferAuthorizationServiceNotConfigured ==> r@
            == "authenticated session received TransferAuthorizationRequest without a configured TransferAuthorizationService"@,
        error matches AgentGatewayError::Application(inner) ==> r@ == inner.text(),
{
}

} // verus!
