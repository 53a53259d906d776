use bamep_server::artifact_verification::ArtifactVerificationCommit;
use bamep_server::authorization::{
    AuthorizationOperation, ResumeAuthorizationOutcome, ResumeHeldChunk, ResumeSnapshotFacts,
    WorkerAuthorizationOutcome,
};
use bamep_server::chunk_acceptance::ChunkAcceptanceCommit;
use bamep_server::errors::{ApplicationError, RepositoryError};
use bamep_server::ids::{ArtifactId, TransferId};
use bamep_server::manifest_seal::{ManifestSealCommit, SealedFacts};
use bamep_server::model::DigestAlgorithm;
use bamep_server::resume_discovery::{
    handle_resume_discovery_continue, handle_resume_discovery_query, partition_point,
    resume_query_input, CursorAdvance, HeldChunkEntry, ResumeContinueStep, ResumeCursorBinding,
    ResumeCursorState, ResumeDiscoveryPage, ResumeDiscoveryQuery, ResumeQueryStep,
    ResumeRegisterStep, ResumeSnapshot, RESUME_PAGE_MAX_HELD_CHUNKS,
};
use bamep_server::worker_session::{
    artifact_verification_input, authorization_query_input, chunk_acceptance_input,
    decide_authorization_query, goes_on_after, handle_artifact_verification,
    handle_chunk_acceptance, handle_connection, handle_manifest_seal, handshake_as_server,
    handshake_sent, manifest_seal_input, AcceptanceBinding, ArtifactVerificationAck,
    ArtifactVerificationReport, AuthorizationDecision, AuthorizationQuery, AuthorizationStep,
    ChunkAcceptanceReply, ChunkAcceptanceRequest, ConnectionAction, ConnectionEvent,
    FirstReceived, HandshakeError, HandshakeStep, ManifestSealDecision, ManifestSealReplyStep,
    ManifestSealRequest, VerificationBinding, WorkerAuthorityRegistry, WorkerHello, WorkerRequest,
};

const MESSAGE: u128 = 0x6f9619ff_8b86_4d01_b42d_00cf4fc964ff;
const WORKER: u128 = 0x0b0b0b0b_0b0b_4b0b_8b0b_0b0b0b0b0b0b;
const TRANSFER: u128 = 0x7;

fn fault() -> ApplicationError {
    ApplicationError::Repository(RepositoryError::Backend("down".to_string()))
}

fn hello() -> WorkerHello {
    WorkerHello {
        message_id: MESSAGE,
        protocol_version: "1".to_string(),
        worker_instance_id: WORKER,
        speaks_v1: true,
    }
}

fn greeted(hello: WorkerHello, sent: bool) -> Result<u128, HandshakeError> {
    handshake_sent(&handshake_as_server(FirstReceived::Hello(hello)), sent)
}

#[test]
fn a_sound_worker_is_in_once_it_was_answered() {
    assert!(matches!(
        handshake_as_server(FirstReceived::Hello(hello())),
        HandshakeStep::Welcome { in_reply_to: MESSAGE, worker_instance_id: WORKER }
    ));
    assert_eq!(greeted(hello(), true), Ok(WORKER));
    assert_eq!(greeted(hello(), false), Err(HandshakeError::Send));
}

#[test]
fn malformed_identities_are_no_question_of_version() {
    for bad in [
        WorkerHello { message_id: 5, ..hello() },
        WorkerHello { worker_instance_id: 5, ..hello() },
        WorkerHello { protocol_version: "2".to_string(), ..hello() },
        WorkerHello { worker_instance_id: 5, speaks_v1: false, ..hello() },
    ] {
        let message_id = bad.message_id;
        match handshake_as_server(FirstReceived::Hello(bad)) {
            HandshakeStep::Refuse(message, HandshakeError::MalformedIdentity) => {
                assert_eq!(message.code, "malformed_handshake_identity");
                assert_eq!(message.message, None);
                assert_eq!(message.in_reply_to, Some(message_id));
            }
            other => panic!("expected a refusal, got {:?}", other),
        }
    }
    let other_version = WorkerHello { speaks_v1: false, ..hello() };
    assert_eq!(greeted(other_version, true), Err(HandshakeError::IncompatibleVersion));
}

#[test]
fn anything_but_a_greeting_is_refused_first() {
    match handshake_as_server(FirstReceived::Other) {
        HandshakeStep::Refuse(message, HandshakeError::PreHandshakeViolation) => {
            assert_eq!(message.code, "pre_handshake_violation");
            assert_eq!(message.in_reply_to, None);
        }
        other => panic!("expected a refusal, got {:?}", other),
    }
    match handshake_as_server(FirstReceived::UnknownType("a\"b\n".to_string())) {
        HandshakeStep::Refuse(message, HandshakeError::UnknownMessageType) => {
            assert_eq!(message.code, "unknown_message_type");
            assert_eq!(message.message.as_deref(), Some(r#"unrecognized type "a\"b\n""#));
        }
        other => panic!("expected a refusal, got {:?}", other),
    }
    assert_eq!(
        handshake_sent(&handshake_as_server(FirstReceived::Failed), true),
        Err(HandshakeError::Receive)
    );
}

#[test]
fn a_stale_generation_guards_drop_never_clobbers_a_newer_one() {
    let mut registry = WorkerAuthorityRegistry::new();
    assert!(registry.has_next_generation());
    let first = registry.begin_generation();
    let second = registry.begin_generation();
    registry.end_generation(first);
    assert!(registry.is_current(second));
}

#[test]
fn generation_guard_end_generation_runs_even_when_its_task_is_aborted() {
    let mut registry = WorkerAuthorityRegistry::new();
    let generation = registry.begin_generation();
    assert!(registry.is_current(generation));
    registry.end_generation(generation);
    assert!(!registry.is_current(generation));
    registry.end_generation(generation);
    let next = registry.begin_generation();
    assert_ne!(next, generation);
    assert!(registry.is_current(next));
    assert!(!registry.is_current(generation));
}

#[test]
fn breaches_are_reported_and_end_the_connection() {
    match handle_connection(ConnectionEvent::Unexpected) {
        ConnectionAction::Refuse(message) => assert_eq!(message.code, "unexpected_message"),
        other => panic!("expected a refusal, got {:?}", other),
    }
    match handle_connection(ConnectionEvent::UnknownType("ping".to_string())) {
        ConnectionAction::Refuse(message) => {
            assert_eq!(message.code, "unknown_message_type");
            assert_eq!(message.message.as_deref(), Some("unrecognized type \"ping\""));
        }
        other => panic!("expected a refusal, got {:?}", other),
    }
    assert!(matches!(handle_connection(ConnectionEvent::ReceiveFailed), ConnectionAction::End));
    assert!(matches!(
        handle_connection(ConnectionEvent::ShutdownChanged(true)),
        ConnectionAction::End
    ));
    assert!(matches!(
        handle_connection(ConnectionEvent::ShutdownChanged(false)),
        ConnectionAction::Continue
    ));
    assert!(matches!(
        handle_connection(ConnectionEvent::Request(WorkerRequest::Authorization(query()))),
        ConnectionAction::Serve(WorkerRequest::Authorization(_))
    ));
    assert!(goes_on_after(None));
    assert!(goes_on_after(Some(true)));
    assert!(!goes_on_after(Some(false)));
}

fn query() -> AuthorizationQuery {
    AuthorizationQuery {
        message_id: MESSAGE,
        token: "cap_1".to_string(),
        transfer_id: TRANSFER,
        chunk_index: 3,
        proof_id: "proof".to_string(),
        issued_at: 1_700_000_000_000,
        signature: "sig".to_string(),
    }
}

#[test]
fn an_approval_is_answered_with_its_handle_or_not_at_all() {
    let input = authorization_query_input(&query());
    assert_eq!(input.operation, AuthorizationOperation::ChunkUpload);
    assert_eq!(input.chunk_index, Some(3));
    assert_eq!(input.token, "cap_1");
    assert_eq!(input.issued_at_millis, 1_700_000_000_000);
    let approved = || {
        Ok(WorkerAuthorizationOutcome::Approved {
            digest_algorithm: DigestAlgorithm::Sha256,
            chunk_size: 4096,
            expected_chunk_digest: Some("d".to_string()),
        })
    };
    let pending = |decided| match decide_authorization_query(&query(), decided) {
        AuthorizationStep::Mint { binding, pending } => {
            assert_eq!(binding.transfer_id, TransferId(TRANSFER));
            assert_eq!(binding.chunk_index, 3);
            assert_eq!(binding.proof_id, "proof");
            pending
        }
        other => panic!("expected a handle to be made, got {:?}", other),
    };
    match pending(approved()).handle_minted(Some("acc_1".to_string())) {
        AuthorizationDecision::Approved {
            in_reply_to,
            chunk_size,
            acceptance_handle,
            expected_chunk_digest,
            ..
        } => {
            assert_eq!(in_reply_to, MESSAGE);
            assert_eq!(chunk_size, 4096);
            assert_eq!(acceptance_handle, "acc_1");
            assert_eq!(expected_chunk_digest.as_deref(), Some("d"));
        }
        other => panic!("expected an approval, got {:?}", other),
    }
    assert!(matches!(
        pending(approved()).handle_minted(None),
        AuthorizationDecision::Denied { in_reply_to: MESSAGE }
    ));
    for decided in [Ok(WorkerAuthorizationOutcome::Denied), Err(fault())] {
        assert!(matches!(
            decide_authorization_query(&query(), decided),
            AuthorizationStep::Reply(AuthorizationDecision::Denied { in_reply_to: MESSAGE })
        ));
    }
}

#[test]
fn only_a_durable_chunk_outcome_is_answered() {
    let request = ChunkAcceptanceRequest {
        message_id: MESSAGE,
        acceptance_handle: "acc_1".to_string(),
        transfer_id: TRANSFER,
        chunk_index: 3,
        digest: "d".to_string(),
        size: 10,
    };
    assert!(chunk_acceptance_input(&request, None).is_none());
    let binding = AcceptanceBinding {
        transfer_id: TransferId(TRANSFER),
        chunk_index: 3,
        proof_id: "proof".to_string(),
    };
    let input = chunk_acceptance_input(&request, Some(binding)).unwrap();
    assert_eq!(
        (input.transfer_id, input.chunk_index, input.digest.as_str(), input.size),
        (TransferId(TRANSFER), 3, "d", 10)
    );
    for (commit, reply) in [
        (ChunkAcceptanceCommit::Committed, Some(ChunkAcceptanceReply::Committed)),
        (ChunkAcceptanceCommit::AlreadyCommitted, Some(ChunkAcceptanceReply::AlreadyCommitted)),
        (ChunkAcceptanceCommit::RejectedConflict, Some(ChunkAcceptanceReply::ChunkIdentityConflict)),
        (
            ChunkAcceptanceCommit::RejectedNotContinuable,
            Some(ChunkAcceptanceReply::TransferNotContinuable),
        ),
        (ChunkAcceptanceCommit::FailClosed, None),
    ] {
        let answer = handle_chunk_acceptance(MESSAGE, Ok(commit));
        assert_eq!(answer.map(|decision| decision.reply), reply);
        assert!(answer.map_or(true, |decision| decision.in_reply_to == MESSAGE));
    }
    assert_eq!(handle_chunk_acceptance(MESSAGE, Err(fault())), None);
}

fn seal_request() -> ManifestSealRequest {
    ManifestSealRequest {
        message_id: MESSAGE,
        token: "cap_1".to_string(),
        transfer_id: TRANSFER,
        proof_id: "proof".to_string(),
        issued_at: 9,
        signature: "sig".to_string(),
        chunk_count: 2,
        artifact_digest: "whole".to_string(),
    }
}

fn sealed() -> SealedFacts {
    SealedFacts {
        artifact_id: ArtifactId(0xf),
        digest_algorithm: DigestAlgorithm::Sha256,
        chunk_size: 4096,
        chunk_count: 2,
        expected_artifact_digest: "whole".to_string(),
    }
}

#[test]
fn a_durable_seal_is_answered_with_its_handle() {
    let input = manifest_seal_input(&seal_request());
    assert_eq!(input.chunk_count, 2);
    assert_eq!(input.artifact_digest, "whole");
    for newly in [true, false] {
        let commit = if newly {
            ManifestSealCommit::Sealed(sealed())
        } else {
            ManifestSealCommit::AlreadyPending(sealed())
        };
        match handle_manifest_seal(&seal_request(), Ok(commit)) {
            ManifestSealReplyStep::Mint { binding, pending } => {
                assert_eq!(binding.transfer_id, TransferId(TRANSFER));
                assert_eq!(binding.artifact_id, ArtifactId(0xf));
                assert_eq!(binding.expected_artifact_digest, "whole");
                assert_eq!(binding.proof_id, "proof");
                match pending.handle_minted(Some("ver_1".to_string())) {
                    Some(ManifestSealDecision::Sealed { in_reply_to, facts }) => {
                        assert!(newly);
                        assert_eq!(in_reply_to, MESSAGE);
                        assert_eq!(facts.verification_handle, "ver_1");
                        assert_eq!(facts.chunk_count, 2);
                    }
                    Some(ManifestSealDecision::AlreadyPendingVerification { facts, .. }) => {
                        assert!(!newly);
                        assert_eq!(facts.artifact_id, 0xf);
                    }
                    other => panic!("expected a seal, got {:?}", other),
                }
            }
            other => panic!("expected a handle to be made, got {:?}", other),
        }
    }
    match handle_manifest_seal(&seal_request(), Ok(ManifestSealCommit::Sealed(sealed()))) {
        ManifestSealReplyStep::Mint { pending, .. } => {
            assert!(pending.handle_minted(None).is_none());
        }
        other => panic!("expected a handle to be made, got {:?}", other),
    }
}

#[test]
fn a_refused_seal_is_answered_by_its_reason() {
    let reply = |commit| handle_manifest_seal(&seal_request(), Ok(commit));
    assert!(matches!(
        reply(ManifestSealCommit::RejectedIncomplete),
        ManifestSealReplyStep::Reply(ManifestSealDecision::IncompleteManifest {
            in_reply_to: MESSAGE
        })
    ));
    assert!(matches!(
        reply(ManifestSealCommit::RejectedAlreadySealed),
        ManifestSealReplyStep::Reply(ManifestSealDecision::ManifestAlreadySealed { .. })
    ));
    assert!(matches!(
        reply(ManifestSealCommit::Denied),
        ManifestSealReplyStep::Reply(ManifestSealDecision::Denied { .. })
    ));
    assert!(matches!(reply(ManifestSealCommit::FailClosed), ManifestSealReplyStep::Discard));
    assert!(matches!(
        handle_manifest_seal(&seal_request(), Err(fault())),
        ManifestSealReplyStep::Discard
    ));
}

#[test]
fn only_a_durable_verification_is_answered() {
    let report = ArtifactVerificationReport {
        message_id: MESSAGE,
        verification_handle: "ver_1".to_string(),
        computed_artifact_digest: "computed".to_string(),
    };
    assert!(artifact_verification_input(&report, None).is_none());
    let binding = VerificationBinding {
        transfer_id: TransferId(TRANSFER),
        artifact_id: ArtifactId(0xf),
        chunk_count: 2,
        expected_artifact_digest: "whole".to_string(),
        proof_id: "proof".to_string(),
    };
    let input = artifact_verification_input(&report, Some(binding)).unwrap();
    assert_eq!(input.bound_expected_artifact_digest, "whole");
    assert_eq!(input.computed_artifact_digest, "computed");
    assert_eq!((input.transfer_id, input.artifact_id, input.chunk_count), (TRANSFER, 0xf, 2));
    for verified in [true, false] {
        assert_eq!(
            handle_artifact_verification(
                MESSAGE,
                Ok(ArtifactVerificationCommit::Committed { verified })
            ),
            Some(ArtifactVerificationAck { in_reply_to: MESSAGE, verified })
        );
    }
    assert_eq!(
        handle_artifact_verification(MESSAGE, Ok(ArtifactVerificationCommit::FailClosed)),
        None
    );
    assert_eq!(handle_artifact_verification(MESSAGE, Err(fault())), None);
}

fn resume_query() -> ResumeDiscoveryQuery {
    ResumeDiscoveryQuery {
        message_id: MESSAGE,
        token: "cap_1".to_string(),
        transfer_id: TRANSFER,
        proof_id: "proof".to_string(),
        issued_at: 9,
        signature: "sig".to_string(),
    }
}

fn snapshot_facts(indices: &[u64]) -> Result<ResumeAuthorizationOutcome, ApplicationError> {
    Ok(ResumeAuthorizationOutcome::Approved(ResumeSnapshotFacts {
        transfer_id: TransferId(TRANSFER),
        sealed: true,
        digest_algorithm: DigestAlgorithm::Sha256,
        chunk_size: 4096,
        expected_chunk_count: Some(9),
        held: indices
            .iter()
            .map(|index| ResumeHeldChunk {
                chunk_index: *index,
                digest_wire: format!("d{}", index),
            })
            .collect(),
    }))
}

fn indices(entries: &[HeldChunkEntry]) -> Vec<u64> {
    entries
        .iter()
        .map(|entry| {
            assert_eq!(entry.digest, format!("d{}", entry.chunk_index));
            entry.chunk_index
        })
        .collect()
}

fn cursor(snapshot_id: u64, next_chunk_index: u64) -> ResumeCursorBinding {
    ResumeCursorBinding {
        transfer_id: TransferId(TRANSFER),
        proof_id: "proof".to_string(),
        state: ResumeCursorState { snapshot_id, next_chunk_index },
    }
}

#[test]
fn what_fits_one_page_is_answered_at_once() {
    let input = resume_query_input(&resume_query());
    assert_eq!(input.operation, AuthorizationOperation::ResumeDiscovery);
    assert_eq!(input.chunk_index, None);
    for held in [vec![], vec![0, 5], vec![0, 5, 7]] {
        match handle_resume_discovery_query(&resume_query(), snapshot_facts(&held), 3) {
            ResumeQueryStep::Reply(ResumeDiscoveryPage::First {
                in_reply_to,
                transfer_id,
                sealed,
                expected_chunk_count,
                held_chunks,
                resume_cursor,
                ..
            }) => {
                assert_eq!((in_reply_to, transfer_id), (MESSAGE, TRANSFER));
                assert!(sealed);
                assert_eq!(expected_chunk_count, Some(9));
                assert_eq!(indices(&held_chunks), held);
                assert_eq!(resume_cursor, None);
            }
            other => panic!("expected a page, got {:?}", other),
        }
    }
    for refused in [Ok(ResumeAuthorizationOutcome::Denied), Err(fault())] {
        assert!(matches!(
            handle_resume_discovery_query(&resume_query(), refused, 3),
            ResumeQueryStep::Reply(ResumeDiscoveryPage::Denied { in_reply_to: MESSAGE })
        ));
    }
}

#[test]
fn the_pages_put_together_are_the_snapshot() {
    let held: Vec<u64> = vec![0, 1, 4, 5, 9, 20, 21];
    for page_size in [1usize, 2, 3, 6] {
        let (snapshot, pending) =
            match handle_resume_discovery_query(&resume_query(), snapshot_facts(&held), page_size) {
                ResumeQueryStep::Register { snapshot, pending } => (snapshot, pending),
                other => panic!("expected a snapshot to be kept, got {:?}", other),
            };
        let (mut binding, pending) = match pending.snapshot_registered(Some(40)) {
            ResumeRegisterStep::Mint { binding, pending } => (binding, pending),
            other => panic!("expected a cursor to be made, got {:?}", other),
        };
        let reply = pending.cursor_minted(40, Some("res_0".to_string()));
        assert_eq!(reply.drop_snapshot, None);
        let mut seen = match reply.page {
            ResumeDiscoveryPage::First { held_chunks, resume_cursor, .. } => {
                assert_eq!(resume_cursor.as_deref(), Some("res_0"));
                indices(&held_chunks)
            }
            other => panic!("expected a first page, got {:?}", other),
        };
        loop {
            let step = handle_resume_discovery_continue(
                MESSAGE,
                Some(&binding),
                Some(&snapshot),
                page_size,
            );
            let pending = match step {
                ResumeContinueStep::Advance(pending) => pending,
                other => panic!("expected a page, got {:?}", other),
            };
            let next = pending.successor;
            let advance = match next {
                Some(_) => CursorAdvance::Next("res_1".to_string()),
                None => CursorAdvance::Finished,
            };
            let reply = pending.advanced(advance);
            match reply.page {
                ResumeDiscoveryPage::Continuation { held_chunks, resume_cursor, .. } => {
                    assert_eq!(resume_cursor.is_some(), next.is_some());
                    seen.extend(indices(&held_chunks));
                }
                other => panic!("expected a later page, got {:?}", other),
            }
            match next {
                Some(state) => {
                    assert_eq!(reply.drop_snapshot, None);
                    binding = cursor(state.snapshot_id, state.next_chunk_index);
                }
                None => {
                    assert_eq!(reply.drop_snapshot, Some(40));
                    break;
                }
            }
        }
        assert_eq!(seen, held);
    }
}

#[test]
fn a_cursor_that_leads_nowhere_is_denied() {
    let snapshot = ResumeSnapshot {
        transfer_id: TransferId(TRANSFER),
        sealed: false,
        digest_algorithm: DigestAlgorithm::Sha256,
        chunk_size: 4096,
        expected_chunk_count: None,
        held: vec![
            HeldChunkEntry { chunk_index: 2, digest: "d2".to_string() },
            HeldChunkEntry { chunk_index: 6, digest: "d6".to_string() },
        ],
    };
    assert_eq!(partition_point(&snapshot.held, 0), 0);
    assert_eq!(partition_point(&snapshot.held, 3), 1);
    assert_eq!(partition_point(&snapshot.held, 7), 2);
    let known = cursor(40, 3);
    for step in [
        handle_resume_discovery_continue(MESSAGE, None, Some(&snapshot), 1),
        handle_resume_discovery_continue(MESSAGE, Some(&known), None, 1),
    ] {
        assert!(matches!(
            step,
            ResumeContinueStep::Reply(ResumeDiscoveryPage::Denied { in_reply_to: MESSAGE })
        ));
    }
    for failed in [CursorAdvance::Failed, CursorAdvance::Next("res_9".to_string())] {
        match handle_resume_discovery_continue(MESSAGE, Some(&known), Some(&snapshot), 1) {
            ResumeContinueStep::Advance(pending) => {
                assert_eq!(pending.successor, None);
                let reply = pending.advanced(failed);
                assert!(matches!(reply.page, ResumeDiscoveryPage::Denied { in_reply_to: MESSAGE }));
                assert_eq!(reply.drop_snapshot, Some(40));
            }
            other => panic!("expected a page, got {:?}", other),
        }
    }
}

#[test]
fn a_page_without_a_snapshot_or_a_cursor_is_denied() {
    let pending = || {
        match handle_resume_discovery_query(&resume_query(), snapshot_facts(&[1, 2, 3]), 2) {
            ResumeQueryStep::Register { pending, .. } => {
                assert_eq!(pending.next_chunk_index, 3);
                pending
            }
            other => panic!("expected a snapshot to be kept, got {:?}", other),
        }
    };
    assert!(matches!(
        pending().snapshot_registered(None),
        ResumeRegisterStep::Reply(ResumeDiscoveryPage::Denied { in_reply_to: MESSAGE })
    ));
    let reply = pending().cursor_minted(8, None);
    assert!(matches!(reply.page, ResumeDiscoveryPage::Denied { in_reply_to: MESSAGE }));
    assert_eq!(reply.drop_snapshot, Some(8));
}

/// A page as it stands in its frame.
fn frame(message_id: &str, page: &ResumeDiscoveryPage) -> String {
    let mut fields = serde_json::Map::new();
    fields.insert("protocol_version".to_string(), "1".into());
    fields.insert("message_id".to_string(), message_id.into());
    fields.insert("type".to_string(), "ResumeDiscoveryPage".into());
    match page {
        ResumeDiscoveryPage::First {
            in_reply_to,
            transfer_id,
            sealed,
            digest_algorithm,
            chunk_size,
            expected_chunk_count,
            held_chunks,
            resume_cursor,
        } => {
            assert_eq!(*digest_algorithm, DigestAlgorithm::Sha256);
            let held: Vec<serde_json::Value> = held_chunks
                .iter()
                .map(|chunk| {
                    let mut entry = serde_json::Map::new();
                    entry.insert("chunk_index".to_string(), chunk.chunk_index.into());
                    entry.insert("digest".to_string(), chunk.digest.clone().into());
                    serde_json::Value::Object(entry)
                })
                .collect();
            fields.insert("in_reply_to".to_string(), hyphenated(*in_reply_to).into());
            fields.insert("transfer_id".to_string(), hyphenated(*transfer_id).into());
            fields.insert("sealed".to_string(), (*sealed).into());
            fields.insert("digest_algorithm".to_string(), "sha256".into());
            fields.insert("chunk_size".to_string(), (*chunk_size).into());
            fields.insert("expected_chunk_count".to_string(), (*expected_chunk_count).into());
            fields.insert("held_chunks".to_string(), serde_json::Value::Array(held));
            fields.insert("resume_cursor".to_string(), resume_cursor.clone().into());
        }
        other => panic!("expected a first page, got {:?}", other),
    }
    serde_json::Value::Object(fields).to_string()
}

fn hyphenated(id: u128) -> String {
    uuid::Uuid::from_u128(id).to_string()
}

#[test]
fn resume_page_frame_stays_within_the_1_mib_limit() {
    const MAX_FRAME_PAYLOAD_BYTES: usize = 1024 * 1024;
    let first = u64::from(u32::MAX) - RESUME_PAGE_MAX_HELD_CHUNKS as u64;
    let held: Vec<ResumeHeldChunk> = (first..=u64::from(u32::MAX))
        .map(|chunk_index| ResumeHeldChunk { chunk_index, digest_wire: "A".repeat(43) })
        .collect();
    let facts = ResumeSnapshotFacts {
        transfer_id: TransferId(TRANSFER),
        sealed: true,
        digest_algorithm: DigestAlgorithm::Sha256,
        chunk_size: u32::MAX,
        expected_chunk_count: Some(u64::from(u32::MAX)),
        held,
    };
    let approved = Ok(ResumeAuthorizationOutcome::Approved(facts));
    let step =
        handle_resume_discovery_query(&resume_query(), approved, RESUME_PAGE_MAX_HELD_CHUNKS);
    let reply = match step {
        ResumeQueryStep::Register { pending, .. } => {
            pending.cursor_minted(1, Some(format!("res_{}", "f".repeat(32))))
        }
        other => panic!("expected a snapshot to be kept, got {:?}", other),
    };
    match &reply.page {
        ResumeDiscoveryPage::First { held_chunks, resume_cursor, .. } => {
            assert_eq!(held_chunks.len(), RESUME_PAGE_MAX_HELD_CHUNKS as usize);
            assert!(resume_cursor.is_some());
        }
        other => panic!("expected a first page, got {:?}", other),
    }
    let encoded = frame("6f9619ff-8b86-4d01-b42d-00cf4fc964ff", &reply.page);
    assert!(encoded.len() < MAX_FRAME_PAYLOAD_BYTES);
    assert!(encoded.len() < MAX_FRAME_PAYLOAD_BYTES * 9 / 10);
}
