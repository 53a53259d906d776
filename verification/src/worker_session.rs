//! One worker's connection: the handshake, the authority that comes with it, and
//! what each message of the worker is answered.

use vstd::prelude::*;
use crate::artifact_verification::{ArtifactVerificationCommit, ArtifactVerificationInput};
use crate::authorization::{
    AuthorizationOperation, WorkerAuthorizationOutcome, WorkerAuthorizationQueryInput,
};
use crate::chunk_acceptance::ChunkAcceptanceCommit;
use crate::errors::ApplicationError;
use crate::ids::{self, uuid_is_v4, ArtifactId, TransferId};
use crate::manifest_seal::{ManifestSealCommit, ManifestSealInput, SealedFacts};
use crate::model::DigestAlgorithm;
use crate::resume_discovery::ResumeDiscoveryQuery;
use crate::text::same_text;

verus! {

/// What `{:?}` makes of a string.
pub uninterp spec fn debug_text_of(value: Seq<char>) -> Seq<char>;

/// Writes a string as `std`'s `Debug` does, through `format!("{:?}", ..)`: in
/// double quotes, with escapes where `Debug` puts them. The result is named; it
/// depends on the string alone.
#[verifier::external_body]
fn debug_text(value: &str) -> (r: String)
    ensures
        r@ == debug_text_of(value@),
{
    format!("{:?}", value)
}

/// An answer that reports a breach of the protocol.
#[derive(Debug)]
pub struct ProtocolErrorMessage {
    pub code: String,
    pub message: Option<String>,
    pub in_reply_to: Option<u128>,
}

impl ProtocolErrorMessage {
    /// Only a code, and nothing it replies to.
    pub open spec fn is_bare(&self, code: Seq<char>) -> bool {
        self.code@ == code && self.message is None && self.in_reply_to is None
    }

    /// The answer to a message of a type that is not known.
    pub open spec fn is_unknown_type(&self, kind: Seq<char>) -> bool {
        &&& self.code@ == "unknown_message_type"@
        &&& self.message matches Some(message)
        &&& message@ == "unrecognized type "@ + debug_text_of(kind)
        &&& self.in_reply_to is None
    }

    fn bare(code: &str) -> (r: ProtocolErrorMessage)
        ensures
            r.is_bare(code@),
    {
        ProtocolErrorMessage { code: code.to_owned(), message: None, in_reply_to: None }
    }

    fn unknown_type(kind: &str) -> (r: ProtocolErrorMessage)
        ensures
            r.is_unknown_type(kind@),
    {
        let mut message = String::new();
        message.append("unrecognized type ");
        message.append(debug_text(kind).as_str());
        assert(message@ =~= "unrecognized type "@ + debug_text_of(kind@));
        ProtocolErrorMessage {
            code: "unknown_message_type".to_owned(),
            message: Some(message),
            in_reply_to: None,
        }
    }
}

/// A worker's first message, as far as the handshake reads it.
#[derive(Debug)]
pub struct WorkerHello {
    pub message_id: u128,
    /// The envelope's version, as it was written.
    pub protocol_version: String,
    pub worker_instance_id: u128,
    /// Whether the worker speaks version one of the worker protocol.
    pub speaks_v1: bool,
}

impl WorkerHello {
    /// The identities have the required shape.
    pub open spec fn identity_valid(&self) -> bool {
        &&& ids::is_uuid_v4(self.message_id)
        &&& self.protocol_version@ == "1"@
        &&& ids::is_uuid_v4(self.worker_instance_id)
    }
}

/// What came first on a connection.
#[derive(Debug)]
pub enum FirstReceived {
    Hello(WorkerHello),
    /// Any other message.
    Other,
    /// A message of a type that is not known.
    UnknownType(String),
    /// Nothing that could be read.
    Failed,
}

/// Why a handshake failed.
#[derive(Clone, Copy, Debug, PartialEq, Eq, Structural)]
pub enum HandshakeError {
    Receive,
    Send,
    PreHandshakeViolation,
    IncompatibleVersion,
    MalformedIdentity,
    UnknownMessageType,
}

/// What the handshake does next.
#[derive(Debug)]
pub enum HandshakeStep {
    /// Send the greeting; the worker is in once that was sent.
    Welcome { in_reply_to: u128, worker_instance_id: u128 },
    /// Say that the version does not fit, and end.
    Reject { in_reply_to: u128 },
    /// Report the breach, and end.
    Refuse(ProtocolErrorMessage, HandshakeError),
    /// End without a word.
    Fail(HandshakeError),
}

/// Decides about a connection's first message. Identities of a wrong shape are a
/// breach of the protocol; only a sound worker of another version is told that
/// its version does not fit.
pub fn handshake_as_server(first: FirstReceived) -> (r: HandshakeStep)
    ensures
        match first {
            FirstReceived::Failed => r == HandshakeStep::Fail(HandshakeError::Receive),
            FirstReceived::UnknownType(kind) => {
                &&& r matches HandshakeStep::Refuse(message, error)
                &&& message.is_unknown_type(kind@)
                &&& error is UnknownMessageType
            },
            FirstReceived::Other => {
                &&& r matches HandshakeStep::Refuse(message, error)
                &&& message.is_bare("pre_handshake_violation"@)
                &&& error is PreHandshakeViolation
            },
            FirstReceived::Hello(hello) => if !hello.identity_valid() {
                &&& r matches HandshakeStep::Refuse(message, error)
                &&& message.code@ == "malformed_handshake_identity"@
                &&& message.message is None
                &&& message.in_reply_to == Some(hello.message_id)
                &&& error is MalformedIdentity
            } else if !hello.speaks_v1 {
                r == (HandshakeStep::Reject { in_reply_to: hello.message_id })
            } else {
                r == (HandshakeStep::Welcome {
                    in_reply_to: hello.message_id,
                    worker_instance_id: hello.worker_instance_id,
                })
            },
        },
{
    let hello = match first {
        FirstReceived::Hello(hello) => hello,
        FirstReceived::Other => {
            return HandshakeStep::Refuse(
                ProtocolErrorMessage::bare("pre_handshake_violation"),
                HandshakeError::PreHandshakeViolation,
            );
        },
        FirstReceived::UnknownType(kind) => {
            return HandshakeStep::Refuse(
                ProtocolErrorMessage::unknown_type(kind.as_str()),
                HandshakeError::UnknownMessageType,
            );
        },
        FirstReceived::Failed => {
            return HandshakeStep::Fail(HandshakeError::Receive);
        },
    };
    let envelope_valid = uuid_is_v4(hello.message_id) && same_text(
        hello.protocol_version.as_str(),
        "1",
    );
    if !envelope_valid || !uuid_is_v4(hello.worker_instance_id) {
        return HandshakeStep::Refuse(
            ProtocolErrorMessage {
                code: "malformed_handshake_identity".to_owned(),
                message: None,
                in_reply_to: Some(hello.message_id),
            },
            HandshakeError::MalformedIdentity,
        );
    }
    if !hello.speaks_v1 {
        return HandshakeStep::Reject { in_reply_to: hello.message_id };
    }
    HandshakeStep::Welcome {
        in_reply_to: hello.message_id,
        worker_instance_id: hello.worker_instance_id,
    }
}

/// The handshake's outcome once its answer was sent, or could not be. Whether a
/// refusal could be sent makes no difference.
pub fn handshake_sent(step: &HandshakeStep, sent: bool) -> (r: Result<u128, HandshakeError>)
    ensures
        match step {
            HandshakeStep::Welcome { worker_instance_id, .. } => r == (if sent {
                Ok::<u128, HandshakeError>(*worker_instance_id)
            } else {
                Err::<u128, HandshakeError>(HandshakeError::Send)
            }),
            HandshakeStep::Reject { .. } => r == Err::<u128, HandshakeError>(
                HandshakeError::IncompatibleVersion,
            ),
            HandshakeStep::Refuse(_, error) => r == Err::<u128, HandshakeError>(*error),
            HandshakeStep::Fail(error) => r == Err::<u128, HandshakeError>(*error),
        },
{
    match step {
        HandshakeStep::Welcome { worker_instance_id, .. } => if sent {
            Ok(*worker_instance_id)
        } else {
            Err(HandshakeError::Send)
        },
        HandshakeStep::Reject { .. } => Err(HandshakeError::IncompatibleVersion),
        HandshakeStep::Refuse(_, error) => Err(*error),
        HandshakeStep::Fail(error) => Err(*error),
    }
}

/// No message but a sound worker's greeting lets a connection in, and no
/// connection is in before the greeting was answered.
pub proof fn only_a_sound_greeting_lets_in(
    first: FirstReceived,
    step: HandshakeStep,
    sent: bool,
    outcome: Result<u128, HandshakeError>,
)
    requires
        call_ensures(handshake_as_server, (first,), step),
        call_ensures(handshake_sent, (&step, sent), outcome),
        outcome is Ok,
    ensures
        sent,
        first matches FirstReceived::Hello(hello) && hello.identity_valid() && hello.speaks_v1
            && outcome == Ok::<u128, HandshakeError>(hello.worker_instance_id),
{
}

/// One connection's turn as the authority.
#[derive(Clone, Copy, Debug, PartialEq, Eq, Structural)]
pub struct ConnectionGeneration(pub u64);

/// Which connection is the authority now. A new connection supersedes the one
/// before it.
#[derive(Debug)]
pub struct WorkerAuthorityRegistry {
    begun: u64,
    current: Option<u64>,
}

/// What is left of the current generation when `ended` ends: one that was
/// superseded takes nothing with it.
pub open spec fn current_after_end(
    current: Option<ConnectionGeneration>,
    ended: ConnectionGeneration,
) -> Option<ConnectionGeneration> {
    if current == Some(ended) {
        None
    } else {
        current
    }
}

impl WorkerAuthorityRegistry {
    /// How many generations have begun.
    pub closed spec fn begun(&self) -> int {
        self.begun as int
    }

    /// The generation that is the authority.
    pub closed spec fn current(&self) -> Option<ConnectionGeneration> {
        match self.current {
            Some(number) => Some(ConnectionGeneration(number)),
            None => None,
        }
    }

    /// The authority is one of the generations that have begun.
    pub closed spec fn well_formed(&self) -> bool {
        self.current matches Some(number) ==> number < self.begun
    }

    pub fn new() -> (r: WorkerAuthorityRegistry)
        ensures
            r.begun() == 0,
            r.current() is None,
            r.well_formed(),
    {
        WorkerAuthorityRegistry { begun: 0, current: None }
    }

    /// Whether another generation can be numbered.
    pub fn has_next_generation(&self) -> (r: bool)
        ensures
            r == (self.begun() < u64::MAX),
    {
        self.begun < u64::MAX
    }

    /// Begins a generation, which is the authority from now on, and differs from
    /// all before it.
    pub fn begin_generation(&mut self) -> (r: ConnectionGeneration)
        requires
            old(self).well_formed(),
            old(self).begun() < u64::MAX,
        ensures
            r.0 == old(self).begun(),
            final(self).begun() == old(self).begun() + 1,
            final(self).current() == Some(r),
            old(self).current() != Some(r),
            final(self).well_formed(),
    {
        let number: u64 = self.begun;
        self.begun = number + 1;
        self.current = Some(number);
        ConnectionGeneration(number)
    }

    /// Whether a generation is the authority.
    pub fn is_current(&self, generation: ConnectionGeneration) -> (r: bool)
        ensures
            r == (self.current() == Some(generation)),
    {
        match self.current {
            Some(number) => number == generation.0,
            None => false,
        }
    }

    /// Ends a generation.
    pub fn end_generation(&mut self, generation: ConnectionGeneration)
        requires
            old(self).well_formed(),
        ensures
            final(self).current() == current_after_end(old(self).current(), generation),
            final(self).begun() == old(self).begun(),
            final(self).well_formed(),
    {
        if self.is_current(generation) {
            self.current = None;
        }
    }
}

/// A superseded generation that ends leaves its successor alone, and a
/// generation that ended is not the authority any more, however often it ends.
pub proof fn ending_is_safe_for_a_successor(
    current: Option<ConnectionGeneration>,
    ended: ConnectionGeneration,
)
    ensures
        current != Some(ended) ==> current_after_end(current, ended) == current,
        current_after_end(current, ended) != Some(ended),
        current_after_end(current_after_end(current, ended), ended) == current_after_end(
            current,
            ended,
        ),
{
}

/// A worker's question whether a chunk may be uploaded.
#[derive(Debug)]
pub struct AuthorizationQuery {
    pub message_id: u128,
    pub token: String,
    pub transfer_id: u128,
    pub chunk_index: u64,
    pub proof_id: String,
    pub issued_at: u64,
    pub signature: String,
}

/// A worker's report of a chunk that it verified.
#[derive(Debug)]
pub struct ChunkAcceptanceRequest {
    pub message_id: u128,
    pub acceptance_handle: String,
    pub transfer_id: u128,
    pub chunk_index: u64,
    pub digest: String,
    pub size: u32,
}

/// A worker's request for the page that a cursor leads to.
#[derive(Debug)]
pub struct ResumeDiscoveryContinue {
    pub message_id: u128,
    pub resume_cursor: String,
}

/// A worker's request to seal a manifest.
#[derive(Debug)]
pub struct ManifestSealRequest {
    pub message_id: u128,
    pub token: String,
    pub transfer_id: u128,
    pub proof_id: String,
    pub issued_at: u64,
    pub signature: String,
    pub chunk_count: u64,
    pub artifact_digest: String,
}

/// A worker's report of the digest that it computed of a whole artifact.
#[derive(Debug)]
pub struct ArtifactVerificationReport {
    pub message_id: u128,
    pub verification_handle: String,
    pub computed_artifact_digest: String,
}

/// A request that a worker may make once it is in.
#[derive(Debug)]
pub enum WorkerRequest {
    Authorization(AuthorizationQuery),
    ChunkAcceptance(ChunkAcceptanceRequest),
    ResumeDiscovery(ResumeDiscoveryQuery),
    ResumeContinue(ResumeDiscoveryContinue),
    ManifestSeal(ManifestSealRequest),
    ArtifactVerification(ArtifactVerificationReport),
}

/// What a connection can meet with after the handshake.
#[derive(Debug)]
pub enum ConnectionEvent {
    Request(WorkerRequest),
    /// A message that a worker has no business to send now.
    Unexpected,
    /// A message of a type that is not known.
    UnknownType(String),
    /// The connection failed, ended, or brought what could not be read.
    ReceiveFailed,
    /// The request to stop changed to this.
    ShutdownChanged(bool),
}

/// What the connection does about it.
#[derive(Debug)]
pub enum ConnectionAction {
    /// Serve the request, and answer it if there is an answer.
    Serve(WorkerRequest),
    /// Report the breach, and end.
    Refuse(ProtocolErrorMessage),
    Continue,
    End,
}

/// Decides about one event of a connection. A breach of the protocol is reported
/// and ends the connection; so does, without a word, a failure to receive.
pub fn handle_connection(event: ConnectionEvent) -> (r: ConnectionAction)
    ensures
        match event {
            ConnectionEvent::Request(request) => r == ConnectionAction::Serve(request),
            ConnectionEvent::Unexpected => r matches ConnectionAction::Refuse(message)
                && message.is_bare("unexpected_message"@),
            ConnectionEvent::UnknownType(kind) => r matches ConnectionAction::Refuse(message)
                && message.is_unknown_type(kind@),
            ConnectionEvent::ReceiveFailed => r is End,
            ConnectionEvent::ShutdownChanged(stop) => if stop {
                r is End
            } else {
                r is Continue
            },
        },
{
    match event {
        ConnectionEvent::Request(request) => ConnectionAction::Serve(request),
        ConnectionEvent::Unexpected => ConnectionAction::Refuse(
            ProtocolErrorMessage::bare("unexpected_message"),
        ),
        ConnectionEvent::UnknownType(kind) => ConnectionAction::Refuse(
            ProtocolErrorMessage::unknown_type(kind.as_str()),
        ),
        ConnectionEvent::ReceiveFailed => ConnectionAction::End,
        ConnectionEvent::ShutdownChanged(stop) => if stop {
            ConnectionAction::End
        } else {
            ConnectionAction::Continue
        },
    }
}

/// Whether the connection goes on after a request was served. `sent` is whether
/// the answer could be sent, where there was one; a request that is not answered
/// does not end the connection.
pub fn goes_on_after(sent: Option<bool>) -> (r: bool)
    ensures
        r == (sent != Some(false)),
{
    match sent {
        Some(sent) => sent,
        None => true,
    }
}

/// What an upload is authorized against: always an upload, always of one chunk.
pub fn authorization_query_input(query: &AuthorizationQuery) -> (r: WorkerAuthorizationQueryInput)
    ensures
        r.token@ == query.token@,
        r.operation is ChunkUpload,
        r.transfer_id == query.transfer_id,
        r.chunk_index == Some(query.chunk_index),
        r.proof_id@ == query.proof_id@,
        r.issued_at_millis == query.issued_at,
        r.signature@ == query.signature@,
{
    WorkerAuthorizationQueryInput {
        token: query.token.clone(),
        operation: AuthorizationOperation::ChunkUpload,
        transfer_id: query.transfer_id,
        chunk_index: Some(query.chunk_index),
        proof_id: query.proof_id.clone(),
        issued_at_millis: query.issued_at,
        signature: query.signature.clone(),
    }
}

/// What an acceptance handle is good for.
#[derive(Debug)]
pub struct AcceptanceBinding {
    pub transfer_id: TransferId,
    pub chunk_index: u64,
    pub proof_id: String,
}

/// The answer to [`AuthorizationQuery`].
#[derive(Debug)]
pub enum AuthorizationDecision {
    Approved {
        in_reply_to: u128,
        digest_algorithm: DigestAlgorithm,
        chunk_size: u32,
        acceptance_handle: String,
        expected_chunk_digest: Option<String>,
    },
    Denied { in_reply_to: u128 },
}

/// An approval that still wants its handle.
#[derive(Debug)]
pub struct PendingApproval {
    pub in_reply_to: u128,
    pub digest_algorithm: DigestAlgorithm,
    pub chunk_size: u32,
    pub expected_chunk_digest: Option<String>,
}

/// What follows from the decision on an upload.
#[derive(Debug)]
pub enum AuthorizationStep {
    /// A handle with this binding is to be made.
    Mint { binding: AcceptanceBinding, pending: PendingApproval },
    Reply(AuthorizationDecision),
}

/// Decides what becomes of a decision on an upload. A denial and a failure of
/// the storage are answered alike.
pub fn decide_authorization_query(
    query: &AuthorizationQuery,
    decided: Result<WorkerAuthorizationOutcome, ApplicationError>,
) -> (r: AuthorizationStep)
    ensures
        match decided {
            Ok(
                WorkerAuthorizationOutcome::Approved {
                    digest_algorithm,
                    chunk_size,
                    expected_chunk_digest,
                },
            ) => {
                &&& r matches AuthorizationStep::Mint { binding, pending }
                &&& binding.transfer_id.0 == query.transfer_id
                &&& binding.chunk_index == query.chunk_index
                &&& binding.proof_id@ == query.proof_id@
                &&& pending == (PendingApproval {
                    in_reply_to: query.message_id,
                    digest_algorithm,
                    chunk_size,
                    expected_chunk_digest,
                })
            },
            _ => r == AuthorizationStep::Reply(
                AuthorizationDecision::Denied { in_reply_to: query.message_id },
            ),
        },
{
    match decided {
        Ok(
            WorkerAuthorizationOutcome::Approved {
                digest_algorithm,
                chunk_size,
                expected_chunk_digest,
            },
        ) => AuthorizationStep::Mint {
            binding: AcceptanceBinding {
                transfer_id: TransferId(query.transfer_id),
                chunk_index: query.chunk_index,
                proof_id: query.proof_id.clone(),
            },
            pending: PendingApproval {
                in_reply_to: query.message_id,
                digest_algorithm,
                chunk_size,
                expected_chunk_digest,
            },
        },
        Ok(WorkerAuthorizationOutcome::Denied) | Err(_) => AuthorizationStep::Reply(
            AuthorizationDecision::Denied { in_reply_to: query.message_id },
        ),
    }
}

impl PendingApproval {
    /// Answers with the handle. Without one the answer is a denial, although the
    /// proof was used up.
    pub fn handle_minted(self, minted: Option<String>) -> (r: AuthorizationDecision)
        ensures
            match minted {
                Some(acceptance_handle) => r == (AuthorizationDecision::Approved {
                    in_reply_to: self.in_reply_to,
                    digest_algorithm: self.digest_algorithm,
                    chunk_size: self.chunk_size,
                    acceptance_handle,
                    expected_chunk_digest: self.expected_chunk_digest,
                }),
                None => r == (AuthorizationDecision::Denied { in_reply_to: self.in_reply_to }),
            },
    {
        match minted {
            Some(acceptance_handle) => AuthorizationDecision::Approved {
                in_reply_to: self.in_reply_to,
                digest_algorithm: self.digest_algorithm,
                chunk_size: self.chunk_size,
                acceptance_handle,
                expected_chunk_digest: self.expected_chunk_digest,
            },
            None => AuthorizationDecision::Denied { in_reply_to: self.in_reply_to },
        }
    }
}

/// What a verified chunk came to.
#[derive(Clone, Copy, Debug, PartialEq, Eq, Structural)]
pub enum ChunkAcceptanceReply {
    Committed,
    AlreadyCommitted,
    ChunkIdentityConflict,
    TransferNotContinuable,
}

/// The answer to [`ChunkAcceptanceRequest`].
#[derive(Clone, Copy, Debug, PartialEq, Eq, Structural)]
pub struct ChunkAcceptanceDecision {
    pub in_reply_to: u128,
    pub reply: ChunkAcceptanceReply,
}

/// What is committed of a verified chunk.
#[derive(Debug)]
pub struct ChunkAcceptanceInput {
    pub transfer_id: TransferId,
    pub chunk_index: u64,
    pub digest: String,
    pub size: u32,
}

/// What is to be committed, once the handle was used up: nothing where the
/// handle was not good for this chunk. The chunk is then not answered at all.
pub fn chunk_acceptance_input(
    request: &ChunkAcceptanceRequest,
    consumed: Option<AcceptanceBinding>,
) -> (r: Option<ChunkAcceptanceInput>)
    ensures
        r is Some == consumed is Some,
        r matches Some(input) ==> {
            &&& input.transfer_id.0 == request.transfer_id
            &&& input.chunk_index == request.chunk_index
            &&& input.digest@ == request.digest@
            &&& input.size == request.size
        },
{
    match consumed {
        None => None,
        Some(_) => Some(
            ChunkAcceptanceInput {
                transfer_id: TransferId(request.transfer_id),
                chunk_index: request.chunk_index,
                digest: request.digest.clone(),
                size: request.size,
            },
        ),
    }
}

/// Answers a verified chunk; only a durable outcome is answered.
pub fn handle_chunk_acceptance(
    in_reply_to: u128,
    committed: Result<ChunkAcceptanceCommit, ApplicationError>,
) -> (r: Option<ChunkAcceptanceDecision>)
    ensures
        match committed {
            Ok(ChunkAcceptanceCommit::Committed) => r == Some(
                ChunkAcceptanceDecision { in_reply_to, reply: ChunkAcceptanceReply::Committed },
            ),
            Ok(ChunkAcceptanceCommit::AlreadyCommitted) => r == Some(
                ChunkAcceptanceDecision {
                    in_reply_to,
                    reply: ChunkAcceptanceReply::AlreadyCommitted,
                },
            ),
            Ok(ChunkAcceptanceCommit::RejectedConflict) => r == Some(
                ChunkAcceptanceDecision {
                    in_reply_to,
                    reply: ChunkAcceptanceReply::ChunkIdentityConflict,
                },
            ),
            Ok(ChunkAcceptanceCommit::RejectedNotContinuable) => r == Some(
                ChunkAcceptanceDecision {
                    in_reply_to,
                    reply: ChunkAcceptanceReply::TransferNotContinuable,
                },
            ),
            Ok(ChunkAcceptanceCommit::FailClosed) | Err(_) => r is None,
        },
{
    let reply = match committed {
        Ok(ChunkAcceptanceCommit::Committed) => ChunkAcceptanceReply::Committed,
        Ok(ChunkAcceptanceCommit::AlreadyCommitted) => ChunkAcceptanceReply::AlreadyCommitted,
        Ok(ChunkAcceptanceCommit::RejectedConflict) => ChunkAcceptanceReply::ChunkIdentityConflict,
        Ok(ChunkAcceptanceCommit::RejectedNotContinuable) =>
            ChunkAcceptanceReply::TransferNotContinuable,
        Ok(ChunkAcceptanceCommit::FailClosed) | Err(_) => {
            return None;
        },
    };
    Some(ChunkAcceptanceDecision { in_reply_to, reply })
}

/// What is asked of the seal.
pub fn manifest_seal_input(request: &ManifestSealRequest) -> (r: ManifestSealInput)
    ensures
        r.token@ == request.token@,
        r.transfer_id == request.transfer_id,
        r.proof_id@ == request.proof_id@,
        r.issued_at_millis == request.issued_at,
        r.signature@ == request.signature@,
        r.chunk_count == request.chunk_count,
        r.artifact_digest@ == request.artifact_digest@,
{
    ManifestSealInput {
        token: request.token.clone(),
        transfer_id: request.transfer_id,
        proof_id: request.proof_id.clone(),
        issued_at_millis: request.issued_at,
        signature: request.signature.clone(),
        chunk_count: request.chunk_count,
        artifact_digest: request.artifact_digest.clone(),
    }
}

/// What a verification handle is good for.
#[derive(Debug)]
pub struct VerificationBinding {
    pub transfer_id: TransferId,
    pub artifact_id: ArtifactId,
    pub chunk_count: u64,
    pub expected_artifact_digest: String,
    pub proof_id: String,
}

/// The sealed identity as it is answered, with the handle for verifying it.
#[derive(Debug)]
pub struct SealedManifestFacts {
    pub verification_handle: String,
    pub artifact_id: u128,
    pub digest_algorithm: DigestAlgorithm,
    pub chunk_size: u32,
    pub chunk_count: u64,
    pub expected_artifact_digest: String,
}

/// The answer to [`ManifestSealRequest`].
#[derive(Debug)]
pub enum ManifestSealDecision {
    Sealed { in_reply_to: u128, facts: SealedManifestFacts },
    AlreadyPendingVerification { in_reply_to: u128, facts: SealedManifestFacts },
    IncompleteManifest { in_reply_to: u128 },
    ManifestAlreadySealed { in_reply_to: u128 },
    Denied { in_reply_to: u128 },
}

/// A durable seal that still wants its handle.
#[derive(Debug)]
pub struct PendingSeal {
    pub in_reply_to: u128,
    /// Whether this very request set the seal.
    pub newly_sealed: bool,
    pub facts: SealedFacts,
}

/// What follows from a seal.
#[derive(Debug)]
pub enum ManifestSealReplyStep {
    /// The seal is durable; a handle with this binding is to be made.
    Mint { binding: VerificationBinding, pending: PendingSeal },
    Reply(ManifestSealDecision),
    /// Not answered.
    Discard,
}

/// The binding that a durable seal gives rise to.
pub open spec fn binds_seal(
    binding: VerificationBinding,
    request: ManifestSealRequest,
    facts: SealedFacts,
) -> bool {
    &&& binding.transfer_id.0 == request.transfer_id
    &&& binding.artifact_id == facts.artifact_id
    &&& binding.chunk_count == facts.chunk_count
    &&& binding.expected_artifact_digest@ == facts.expected_artifact_digest@
    &&& binding.proof_id@ == request.proof_id@
}

/// Decides what becomes of a seal. A handle is made only for a seal that is
/// durable.
pub fn handle_manifest_seal(
    request: &ManifestSealRequest,
    committed: Result<ManifestSealCommit, ApplicationError>,
) -> (r: ManifestSealReplyStep)
    ensures
        match committed {
            Ok(ManifestSealCommit::Sealed(facts)) => {
                &&& r matches ManifestSealReplyStep::Mint { binding, pending }
                &&& binds_seal(binding, *request, facts)
                &&& pending == (PendingSeal {
                    in_reply_to: request.message_id,
                    newly_sealed: true,
                    facts,
                })
            },
            Ok(ManifestSealCommit::AlreadyPending(facts)) => {
                &&& r matches ManifestSealReplyStep::Mint { binding, pending }
                &&& binds_seal(binding, *request, facts)
                &&& pending == (PendingSeal {
                    in_reply_to: request.message_id,
                    newly_sealed: false,
                    facts,
                })
            },
            Ok(ManifestSealCommit::RejectedIncomplete) => r == ManifestSealReplyStep::Reply(
                ManifestSealDecision::IncompleteManifest { in_reply_to: request.message_id },
            ),
            Ok(ManifestSealCommit::RejectedAlreadySealed) => r == ManifestSealReplyStep::Reply(
                ManifestSealDecision::ManifestAlreadySealed { in_reply_to: request.message_id },
            ),
            Ok(ManifestSealCommit::Denied) => r == ManifestSealReplyStep::Reply(
                ManifestSealDecision::Denied { in_reply_to: request.message_id },
            ),
            Ok(ManifestSealCommit::FailClosed) | Err(_) => r is Discard,
        },
{
    let in_reply_to: u128 = request.message_id;
    let (newly_sealed, facts) = match committed {
        Ok(ManifestSealCommit::Sealed(facts)) => (true, facts),
        Ok(ManifestSealCommit::AlreadyPending(facts)) => (false, facts),
        Ok(ManifestSealCommit::RejectedIncomplete) => {
            return ManifestSealReplyStep::Reply(
                ManifestSealDecision::IncompleteManifest { in_reply_to },
            );
        },
        Ok(ManifestSealCommit::RejectedAlreadySealed) => {
            return ManifestSealReplyStep::Reply(
                ManifestSealDecision::ManifestAlreadySealed { in_reply_to },
            );
        },
        Ok(ManifestSealCommit::Denied) => {
            return ManifestSealReplyStep::Reply(ManifestSealDecision::Denied { in_reply_to });
        },
        Ok(ManifestSealCommit::FailClosed) | Err(_) => {
            return ManifestSealReplyStep::Discard;
        },
    };
    let binding = VerificationBinding {
        transfer_id: TransferId(request.transfer_id),
        artifact_id: facts.artifact_id,
        chunk_count: facts.chunk_count,
        expected_artifact_digest: facts.expected_artifact_digest.clone(),
        proof_id: request.proof_id.clone(),
    };
    ManifestSealReplyStep::Mint {
        binding,
        pending: PendingSeal { in_reply_to, newly_sealed, facts },
    }
}

impl PendingSeal {
    /// Answers with the handle. Without one the seal stays, and is not answered.
    pub fn handle_minted(self, minted: Option<String>) -> (r: Option<ManifestSealDecision>)
        ensures
            match minted {
                None => r is None,
                Some(verification_handle) => {
                    let facts = SealedManifestFacts {
                        verification_handle,
                        artifact_id: self.facts.artifact_id.0,
                        digest_algorithm: self.facts.digest_algorithm,
                        chunk_size: self.facts.chunk_size,
                        chunk_count: self.facts.chunk_count,
                        expected_artifact_digest: self.facts.expected_artifact_digest,
                    };
                    r == Some(
                        if self.newly_sealed {
                            ManifestSealDecision::Sealed { in_reply_to: self.in_reply_to, facts }
                        } else {
                            ManifestSealDecision::AlreadyPendingVerification {
                                in_reply_to: self.in_reply_to,
                                facts,
                            }
                        },
                    )
                },
            },
    {
        let verification_handle = match minted {
            Some(handle) => handle,
            None => {
                return None;
            },
        };
        let facts = SealedManifestFacts {
            verification_handle,
            artifact_id: self.facts.artifact_id.0,
            digest_algorithm: self.facts.digest_algorithm,
            chunk_size: self.facts.chunk_size,
            chunk_count: self.facts.chunk_count,
            expected_artifact_digest: self.facts.expected_artifact_digest,
        };
        Some(
            if self.newly_sealed {
                ManifestSealDecision::Sealed { in_reply_to: self.in_reply_to, facts }
            } else {
                ManifestSealDecision::AlreadyPendingVerification {
                    in_reply_to: self.in_reply_to,
                    facts,
                }
            },
        )
    }
}

/// What is to be verified: the identity that the handle was made for, held
/// against the digest that the worker computed. The proof behind the handle is
/// not asked for again. A handle that is not good gives nothing, and is not
/// answered.
pub fn artifact_verification_input(
    report: &ArtifactVerificationReport,
    consumed: Option<VerificationBinding>,
) -> (r: Option<ArtifactVerificationInput>)
    ensures
        match consumed {
            None => r is None,
            Some(binding) => {
                &&& r matches Some(input)
                &&& input.transfer_id == binding.transfer_id.0
                &&& input.artifact_id == binding.artifact_id.0
                &&& input.chunk_count == binding.chunk_count
                &&& input.bound_expected_artifact_digest@ == binding.expected_artifact_digest@
                &&& input.computed_artifact_digest@ == report.computed_artifact_digest@
            },
        },
{
    match consumed {
        None => None,
        Some(binding) => Some(
            ArtifactVerificationInput {
                transfer_id: binding.transfer_id.0,
                artifact_id: binding.artifact_id.0,
                chunk_count: binding.chunk_count,
                bound_expected_artifact_digest: binding.expected_artifact_digest,
                computed_artifact_digest: report.computed_artifact_digest.clone(),
            },
        ),
    }
}

/// The answer to [`ArtifactVerificationReport`]: the verification is durable,
/// and the artifact is verified or has failed.
#[derive(Clone, Copy, Debug, PartialEq, Eq, Structural)]
pub struct ArtifactVerificationAck {
    pub in_reply_to: u128,
    pub verified: bool,
}

/// Answers a verification; only a durable one is answered.
pub fn handle_artifact_verification(
    in_reply_to: u128,
    committed: Result<ArtifactVerificationCommit, ApplicationError>,
) -> (r: Option<ArtifactVerificationAck>)
    ensures
        match committed {
            Ok(ArtifactVerificationCommit::Committed { verified }) => r == Some(
                ArtifactVerificationAck { in_reply_to, verified },
            ),
            Ok(ArtifactVerificationCommit::FailClosed) | Err(_) => r is None,
        },
{
    match committed {
        Ok(ArtifactVerificationCommit::Committed { verified }) => Some(
            ArtifactVerificationAck { in_reply_to, verified },
        ),
        Ok(ArtifactVerificationCommit::FailClosed) | Err(_) => None,
    }
}

/// A connection is greeted exactly where its first message is a greeting in the version
/// that is spoken here, with an envelope and a worker's identity of the right shape;
/// everything else is refused by what is wrong with it.
pub proof fn greeting_is_answered_by_what_it_is(first: FirstReceived, r: HandshakeStep)
    requires
        call_ensures(handshake_as_server, (first,), r),
    ensures
        first is Failed ==> r == HandshakeStep::Fail(HandshakeError::Receive),
        first is Other ==> (r matches HandshakeStep::Refuse(answer, error) && answer.code@
            == "pre_handshake_violation"@ && answer.message is None && answer.in_reply_to is None
            && error is PreHandshakeViolation),
        first matches FirstReceived::UnknownType(kind) ==> (r
            matches HandshakeStep::Refuse(answer, error) && answer.code@ == "unknown_message_type"@
            && (answer.message matches Some(text) && text@ == "unrecognized type "@
            + debug_text_of(kind@)) && answer.in_reply_to is None && error is UnknownMessageType),
        first matches FirstReceived::Hello(hello) ==> {
            let sound = ids::is_uuid_v4(hello.message_id) && ids::is_uuid_v4(
                hello.worker_instance_id,
            ) && hello.protocol_version@ == "1"@;
            &&& r is Welcome <==> sound && hello.speaks_v1
            &&& r is Reject <==> sound && !hello.speaks_v1
            &&& r matches HandshakeStep::Welcome { in_reply_to, worker_instance_id }
                ==> in_reply_to == hello.message_id && worker_instance_id
                == hello.worker_instance_id
            &&& r matches HandshakeStep::Reject { in_reply_to } ==> in_reply_to == hello.message_id
            &&& !sound ==> (r matches HandshakeStep::Refuse(answer, error) && answer.code@
                == "malformed_handshake_identity"@ && answer.message is None && answer.in_reply_to
                == Some(hello.message_id) && error is MalformedIdentity)
        },
{
}

/// A worker is in under its own identity exactly where the greeting was answered with a
/// welcome that was sent; every other outcome is its own error.
pub proof fn worker_is_in_once_welcomed(
    step: HandshakeStep,
    sent: bool,
    r: Result<u128, HandshakeError>,
)
    requires
        call_ensures(handshake_sent, (&step, sent), r),
    ensures
        r is Ok <==> step is Welcome && sent,
        step matches HandshakeStep::Welcome { in_reply_to, worker_instance_id } ==> (sent
            ==> r->Ok_0 == worker_instance_id) && (!sent ==> r->Err_0 is Send),
        step is Reject ==> r->Err_0 is IncompatibleVersion,
        step matches HandshakeStep::Refuse(answer, error) ==> r->Err_0 == error,
        step matches HandshakeStep::Fail(error) ==> r->Err_0 == error,
{
}

/// A generation that begins is the authority, and none before it is.
pub proof fn new_generation_supersedes_the_last(
    registry: &mut WorkerAuthorityRegistry,
    begun: ConnectionGeneration,
    other: ConnectionGeneration,
    begun_is_current: bool,
    other_is_current: bool,
    was_current: bool,
)
    requires
        call_ensures(WorkerAuthorityRegistry::begin_generation, (registry,), begun),
        call_ensures(
            WorkerAuthorityRegistry::is_current,
            (&*final(registry), begun),
            begun_is_current,
        ),
        call_ensures(
            WorkerAuthorityRegistry::is_current,
            (&*final(registry), other),
            other_is_current,
        ),
        call_ensures(
            WorkerAuthorityRegistry::is_current,
            (&*old(registry), begun),
            was_current,
        ),
    ensures
        begun_is_current,
        !was_current,
        other != begun ==> !other_is_current,
{
}

/// A generation that ended is not the authority; any other is exactly where it was.
pub proof fn ended_generation_takes_only_itself(
    registry: &mut WorkerAuthorityRegistry,
    ended: ConnectionGeneration,
    other: ConnectionGeneration,
    ended_is_current: bool,
    other_was_current: bool,
    other_is_current: bool,
)
    requires
        call_ensures(WorkerAuthorityRegistry::end_generation, (registry, ended), ()),
        call_ensures(
            WorkerAuthorityRegistry::is_current,
            (&*final(registry), ended),
            ended_is_current,
        ),
        call_ensures(
            WorkerAuthorityRegistry::is_current,
            (&*old(registry), other),
            other_was_current,
        ),
        call_ensures(
            WorkerAuthorityRegistry::is_current,
            (&*final(registry), other),
            other_is_current,
        ),
    ensures
        !ended_is_current,
        other != ended ==> other_is_current == other_was_current,
{
}

/// A request is served as it came; a breach is refused by what it is; a failure to
/// receive and a request to stop end the connection.
pub proof fn connection_goes_by_what_came(event: ConnectionEvent, r: ConnectionAction)
    requires
        call_ensures(handle_connection, (event,), r),
    ensures
        r is Serve <==> event is Request,
        r matches ConnectionAction::Serve(request) ==> event == ConnectionEvent::Request(request),
        event is Unexpected ==> (r matches ConnectionAction::Refuse(answer) && answer.code@
            == "unexpected_message"@ && answer.message is None && answer.in_reply_to is None),
        event matches ConnectionEvent::UnknownType(kind) ==> (r
            matches ConnectionAction::Refuse(answer) && answer.code@ == "unknown_message_type"@ && (
        answer.message matches Some(text) && text@ == "unrecognized type "@ + debug_text_of(kind@))
            && answer.in_reply_to is None),
        r is End <==> event is ReceiveFailed || event == ConnectionEvent::ShutdownChanged(true),
        r is Continue <==> event == ConnectionEvent::ShutdownChanged(false),
{
}

/// Only an answer that could not be sent ends the connection.
pub proof fn only_an_unsent_answer_ends_the_connection(sent: Option<bool>, r: bool)
    requires
        call_ensures(goes_on_after, (sent,), r),
    ensures
        sent is None ==> r,
        sent matches Some(sent) ==> r == sent,
{
}

/// A question about an upload is asked as sent: an upload, of the very chunk.
pub proof fn upload_is_asked_about_as_sent(
    query: AuthorizationQuery,
    r: WorkerAuthorizationQueryInput,
)
    requires
        call_ensures(authorization_query_input, (&query,), r),
    ensures
        r.operation is ChunkUpload,
        r.token@ == query.token@,
        r.transfer_id == query.transfer_id,
        r.chunk_index == Some(query.chunk_index),
        r.proof_id@ == query.proof_id@,
        r.issued_at_millis == query.issued_at,
        r.signature@ == query.signature@,
{
}

/// An upload that was approved gets a handle for the very transfer, chunk and proof, and
/// an answer with what the manifest holds the chunk to; without a handle, and without an
/// approval, it is denied.
pub proof fn approved_upload_gets_its_own_handle(
    query: AuthorizationQuery,
    decided: Result<WorkerAuthorizationOutcome, ApplicationError>,
    step: AuthorizationStep,
)
    requires
        call_ensures(decide_authorization_query, (&query, decided), step),
    ensures
        step is Mint <==> (decided matches Ok(outcome) && outcome is Approved),
        step matches AuthorizationStep::Mint { binding, pending } ==> (decided matches Ok(
            WorkerAuthorizationOutcome::Approved {
                digest_algorithm,
                chunk_size,
                expected_chunk_digest,
            },
        ) && binding.transfer_id.0 == query.transfer_id && binding.chunk_index == query.chunk_index
            && binding.proof_id@ == query.proof_id@ && pending.in_reply_to == query.message_id
            && pending.digest_algorithm == digest_algorithm && pending.chunk_size == chunk_size
            && pending.expected_chunk_digest == expected_chunk_digest),
        step matches AuthorizationStep::Reply(answer) ==> (answer
            matches AuthorizationDecision::Denied { in_reply_to } && in_reply_to
            == query.message_id),
{
}

/// An approval is answered with its handle, and denied without one.
pub proof fn approval_is_answered_with_its_handle(
    pending: PendingApproval,
    minted: Option<String>,
    r: AuthorizationDecision,
)
    requires
        call_ensures(PendingApproval::handle_minted, (pending, minted), r),
    ensures
        r is Approved <==> minted is Some,
        r matches AuthorizationDecision::Approved {
            in_reply_to,
            digest_algorithm,
            chunk_size,
            acceptance_handle,
            expected_chunk_digest,
        } ==> in_reply_to == pending.in_reply_to && digest_algorithm == pending.digest_algorithm
            && chunk_size == pending.chunk_size && minted == Some(acceptance_handle)
            && expected_chunk_digest == pending.expected_chunk_digest,
        r matches AuthorizationDecision::Denied { in_reply_to } ==> in_reply_to
            == pending.in_reply_to,
{
}

/// A verified chunk is committed as reported, exactly where its handle was good.
pub proof fn verified_chunk_is_committed_as_reported(
    request: ChunkAcceptanceRequest,
    consumed: Option<AcceptanceBinding>,
    r: Option<ChunkAcceptanceInput>,
)
    requires
        call_ensures(chunk_acceptance_input, (&request, consumed), r),
    ensures
        r is Some <==> consumed is Some,
        r matches Some(input) ==> input.transfer_id.0 == request.transfer_id && input.chunk_index
            == request.chunk_index && input.digest@ == request.digest@ && input.size
            == request.size,
{
}

/// A verified chunk is answered by what became of it, each outcome in its own words; one
/// that failed closed is not answered.
pub proof fn verified_chunk_is_answered_by_its_outcome(
    in_reply_to: u128,
    committed: Result<ChunkAcceptanceCommit, ApplicationError>,
    r: Option<ChunkAcceptanceDecision>,
)
    requires
        call_ensures(handle_chunk_acceptance, (in_reply_to, committed), r),
    ensures
        r is None <==> committed is Err || committed->Ok_0 is FailClosed,
        r matches Some(answer) ==> {
            &&& answer.in_reply_to == in_reply_to
            &&& answer.reply is Committed <==> committed->Ok_0 is Committed
            &&& answer.reply is AlreadyCommitted <==> committed->Ok_0 is AlreadyCommitted
            &&& answer.reply is ChunkIdentityConflict <==> committed->Ok_0 is RejectedConflict
            &&& answer.reply is TransferNotContinuable <==> committed->Ok_0
                is RejectedNotContinuable
        },
{
}

/// A seal is asked for as it was sent.
pub proof fn seal_is_asked_for_as_sent(request: ManifestSealRequest, r: ManifestSealInput)
    requires
        call_ensures(manifest_seal_input, (&request,), r),
    ensures
        r.token@ == request.token@,
        r.transfer_id == request.transfer_id,
        r.proof_id@ == request.proof_id@,
        r.issued_at_millis == request.issued_at,
        r.signature@ == request.signature@,
        r.chunk_count == request.chunk_count,
        r.artifact_digest@ == request.artifact_digest@,
{
}

/// A durable seal gets a handle for the very transfer, artifact, count, digest and
/// proof; a rejected one is answered by its reason, and one that failed closed not at
/// all.
pub proof fn durable_seal_gets_its_own_handle(
    request: ManifestSealRequest,
    committed: Result<ManifestSealCommit, ApplicationError>,
    r: ManifestSealReplyStep,
)
    requires
        call_ensures(handle_manifest_seal, (&request, committed), r),
    ensures
        r is Mint <==> (committed matches Ok(commit) && (commit is Sealed || commit
            is AlreadyPending)),
        r matches ManifestSealReplyStep::Mint { binding, pending } ==> {
            let facts = if committed->Ok_0 is Sealed {
                committed->Ok_0->Sealed_0
            } else {
                committed->Ok_0->AlreadyPending_0
            };
            &&& binding.transfer_id.0 == request.transfer_id
            &&& binding.artifact_id == facts.artifact_id
            &&& binding.chunk_count == facts.chunk_count
            &&& binding.expected_artifact_digest@ == facts.expected_artifact_digest@
            &&& binding.proof_id@ == request.proof_id@
            &&& pending.in_reply_to == request.message_id
            &&& pending.newly_sealed <==> committed->Ok_0 is Sealed
            &&& pending.facts == facts
        },
        r is Discard <==> committed is Err || committed->Ok_0 is FailClosed,
        r matches ManifestSealReplyStep::Reply(answer) ==> {
            &&& answer is IncompleteManifest <==> committed->Ok_0 is RejectedIncomplete
            &&& answer is ManifestAlreadySealed <==> committed->Ok_0 is RejectedAlreadySealed
            &&& answer is Denied <==> committed->Ok_0 is Denied
            &&& answer matches ManifestSealDecision::IncompleteManifest { in_reply_to }
                ==> in_reply_to == request.message_id
            &&& answer matches ManifestSealDecision::ManifestAlreadySealed { in_reply_to }
                ==> in_reply_to == request.message_id
            &&& answer matches ManifestSealDecision::Denied { in_reply_to } ==> in_reply_to
                == request.message_id
        },
{
}

/// A durable seal is answered with its handle and its own facts, as new or as set
/// before; without a handle it is not answered.
pub proof fn seal_is_answered_with_its_handle(
    pending: PendingSeal,
    minted: Option<String>,
    r: Option<ManifestSealDecision>,
)
    requires
        call_ensures(PendingSeal::handle_minted, (pending, minted), r),
    ensures
        r is Some <==> minted is Some,
        r matches Some(answer) ==> {
            &&& answer is Sealed <==> pending.newly_sealed
            &&& answer is AlreadyPendingVerification <==> !pending.newly_sealed
            &&& answer matches ManifestSealDecision::Sealed { in_reply_to, facts } ==> in_reply_to
                == pending.in_reply_to && minted == Some(facts.verification_handle)
                && facts.artifact_id == pending.facts.artifact_id.0 && facts.digest_algorithm
                == pending.facts.digest_algorithm && facts.chunk_size == pending.facts.chunk_size
                && facts.chunk_count == pending.facts.chunk_count && facts.expected_artifact_digest
                == pending.facts.expected_artifact_digest
            &&& answer matches ManifestSealDecision::AlreadyPendingVerification {
                in_reply_to,
                facts,
            } ==> in_reply_to == pending.in_reply_to && minted == Some(facts.verification_handle)
                && facts.artifact_id == pending.facts.artifact_id.0 && facts.digest_algorithm
                == pending.facts.digest_algorithm && facts.chunk_size == pending.facts.chunk_size
                && facts.chunk_count == pending.facts.chunk_count && facts.expected_artifact_digest
                == pending.facts.expected_artifact_digest
        },
{
}

/// A verification is of what its handle was made for, against the digest that was
/// computed; and it is answered with whether the artifact was verified, exactly where
/// it is durable.
pub proof fn verification_is_of_what_its_handle_was_made_for(
    report: ArtifactVerificationReport,
    consumed: Option<VerificationBinding>,
    input: Option<ArtifactVerificationInput>,
    committed: Result<ArtifactVerificationCommit, ApplicationError>,
    r: Option<ArtifactVerificationAck>,
)
    requires
        call_ensures(artifact_verification_input, (&report, consumed), input),
        call_ensures(handle_artifact_verification, (report.message_id, committed), r),
    ensures
        input is Some <==> consumed is Some,
        consumed matches Some(binding) ==> input->Some_0.transfer_id == binding.transfer_id.0
            && input->Some_0.artifact_id == binding.artifact_id.0 && input->Some_0.chunk_count
            == binding.chunk_count && input->Some_0.bound_expected_artifact_digest@
            == binding.expected_artifact_digest@ && input->Some_0.computed_artifact_digest@
            == report.computed_artifact_digest@,
        r is Some <==> (committed matches Ok(commit) && commit is Committed),
        r matches Some(answer) ==> answer.in_reply_to == report.message_id && (committed
            matches Ok(ArtifactVerificationCommit::Committed { verified }) && answer.verified
            == verified),
{
}

} // verus!
