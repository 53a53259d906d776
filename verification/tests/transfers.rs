use std::sync::Arc;

use bamep_server::artifact_verification::{
    decide_artifact_verification, ArtifactVerificationCommit, ArtifactVerificationDecided,
    ArtifactVerificationInput, ArtifactVerificationService, CommitArtifactVerificationError,
};
use bamep_server::authorization::{
    accept_capability, authorize_request, is_durably_authorized, requested_operation,
    rule_on_credential, rule_on_proof, transcript_fields, AuthorizationDurableState, AuthorizationOperation,
    CapabilityBinding, IssueStep, ProofRulings, ProofTranscriptFields, RequestedOperation,
    ResumeAuthorizationOutcome, RuledProof, TransferAuthorizationOutcome,
    TransferAuthorizationService, WorkerAuthorizationOutcome, WorkerAuthorizationQueryInput,
};
use bamep_server::chunk_acceptance::{
    decide_chunk_acceptance, ChunkAcceptanceCommit, ChunkAcceptanceDecided,
    ChunkAcceptanceService, ChunkAcceptanceStep, ChunkRecordError, ChunkRecordOutcome,
    CommitChunkAcceptanceError,
};
use bamep_server::clock::{SystemClock, TimeSpan, Timestamp};
use bamep_server::errors::{
    AcceptChunkError, ApplicationError, ArtifactTransitionRepoError, BindAttemptError,
    CreateTransferError, DomainFault, RecordChunkError, RepositoryError, SealManifestError,
};
use bamep_server::ids::{
    ActionId, ArtifactId, AttemptId, EndpointId, JobId, JobStepId, ProtocolId, TransferId,
};
use bamep_server::manifest_seal::{
    check_manifest_seal, conclude_manifest_seal, decide_manifest_seal, seal_query_input,
    ArtifactTransitionError, CommitManifestSealError, ManifestSealCommit, ManifestSealDecided,
    ManifestSealInput, ManifestSealService, ManifestSealStep, SealCheck, SealError, SealOutcome,
    SealRequest,
};
use bamep_server::model::{
    Artifact, ArtifactState, Attempt, AttemptState, CaptureConsistency, ChunkManifest,
    CredentialChain, CredentialDimension, CredentialSlot, Digest, DigestAlgorithm,
    EndpointAggregate, ExpectedChunk, HardwareConfidence, IdentityState, Transfer,
    TransferDirection, TransferLockedFacts,
};
use bamep_server::transfer_service::{NewTransfer, TransferService};
use bamep_server::transfer_store::{
    accept_verified_chunk, bind_attempt, commit_artifact_transition, create_transfer_context,
    insert_index, is_held, load_authorization_state, load_locked_facts, record_expected_chunk,
    require_transfer, seal_manifest, AcceptChunkOutcome, ArtifactRow, ChunkRow, ManifestRow,
    TransferRow, TransferRows,
};

type Authorizations = TransferAuthorizationService<(), (), (), SystemClock>;
type Chunks = ChunkAcceptanceService<()>;
type Seals = ManifestSealService<(), (), (), SystemClock>;
type Verifications = ArtifactVerificationService<()>;
type Transfers = TransferService<()>;

const NOW: Timestamp = Timestamp { seconds: 1_700_000_000, nanos: 0 };
const ACTION: u128 = 0x6f9619ff_8b86_4d01_b42d_00cf4fc964ff;
const ENDPOINT: EndpointId = EndpointId(0xe);

fn digest(seed: u8) -> Digest {
    Digest { bytes: vec![seed; 32], wire: format!("wire-{}", seed) }
}

fn chunk(index: u32, size: u32, seed: u8) -> ExpectedChunk {
    ExpectedChunk { index, size, digest: digest(seed) }
}

fn manifest(chunks: Vec<ExpectedChunk>) -> ChunkManifest {
    ChunkManifest {
        artifact_id: ArtifactId(0xf),
        digest_algorithm: DigestAlgorithm::Sha256,
        chunk_size: 4096,
        sealed: false,
        chunk_count: None,
        artifact_digest: None,
        chunks,
    }
}

fn sealed_manifest() -> ChunkManifest {
    ChunkManifest {
        sealed: true,
        chunk_count: Some(2),
        artifact_digest: Some(digest(9)),
        ..manifest(vec![chunk(0, 4096, 1), chunk(1, 10, 2)])
    }
}

fn transfer() -> Transfer {
    Transfer {
        id: TransferId(0x7),
        endpoint_id: ENDPOINT,
        job_id: JobId(0x1),
        job_step_id: JobStepId(0x5),
        artifact_id: ArtifactId(0xf),
        direction: TransferDirection::AgentToServer,
        digest_algorithm: DigestAlgorithm::Sha256,
        chunk_size: 4096,
        source_provenance: "disk-0".to_string(),
        attempt_id: Some(AttemptId(0xa)),
    }
}

fn artifact(state: ArtifactState) -> Artifact {
    Artifact { id: ArtifactId(0xf), state, capture_consistency: CaptureConsistency::NotEstablished }
}

fn attempt(state: AttemptState) -> Attempt {
    Attempt {
        id: AttemptId(0xa),
        job_step_id: JobStepId(0x5),
        action_id: ActionId(ACTION),
        state,
    }
}

fn endpoint() -> EndpointAggregate {
    EndpointAggregate {
        id: ENDPOINT,
        inventory_signal: "sim".to_string(),
        identity: IdentityState::Enrolled,
        credential: CredentialChain {
            predecessor: CredentialSlot {
                lookup_id: vec![1; 16],
                hash: vec![2; 48],
                issued_at: NOW,
                expires_at: NOW,
            },
            successor: None,
            revoked: false,
        },
        hardware_confidence: HardwareConfidence::Consistent,
        current_boot: None,
        created_at: NOW,
        updated_at: NOW,
    }
}

fn locked(state: ArtifactState, manifest: ChunkManifest, held: Vec<u32>) -> TransferLockedFacts {
    TransferLockedFacts {
        transfer: transfer(),
        artifact: artifact(state),
        manifest,
        held_chunk_indices: held,
    }
}

fn durable(state: ArtifactState, manifest: ChunkManifest) -> AuthorizationDurableState {
    load_authorization_state(
        locked(state, manifest, vec![0, 1]),
        Some(attempt(AttemptState::InProgress)),
        Some(endpoint()),
    )
    .unwrap()
}

fn binding() -> CapabilityBinding {
    CapabilityBinding {
        endpoint_id: ENDPOINT,
        transfer_id: TransferId(0x7),
        artifact_id: ArtifactId(0xf),
        direction: TransferDirection::AgentToServer,
        attempt_id: AttemptId(0xa),
        proof_public_key: vec![3; 32],
        expires_at: NOW,
        epoch: 1,
    }
}

fn fault() -> RepositoryError {
    RepositoryError::Backend("down".to_string())
}

fn service() -> Authorizations {
    TransferAuthorizationService::new(
        Arc::new(()),
        Arc::new(()),
        Arc::new(()),
        TimeSpan { seconds: 600, nanos: 0 },
        "https://worker".to_string(),
    )
}

fn issue(
    endpoint_id: EndpointId,
    action_id: u128,
    key: Option<Vec<u8>>,
    state: Option<AuthorizationDurableState>,
    credential: CredentialDimension,
) -> IssueStep {
    service().issue(
        endpoint_id,
        ProtocolId(action_id),
        TransferId(0x7),
        key,
        state,
        credential,
        5,
        NOW,
    )
}

fn open_state() -> Option<AuthorizationDurableState> {
    Some(durable(ArtifactState::Incomplete, manifest(vec![chunk(0, 4096, 1)])))
}

const ACTIVE: CredentialDimension = CredentialDimension::CredentialActive;
const INACTIVE: CredentialDimension = CredentialDimension::CredentialInactive;

#[test]
fn a_capability_is_bound_to_the_durable_transfer() {
    match issue(ENDPOINT, ACTION, Some(vec![3; 32]), open_state(), ACTIVE) {
        IssueStep::Store(binding) => {
            assert_eq!(binding.endpoint_id, ENDPOINT);
            assert_eq!(binding.transfer_id, TransferId(0x7));
            assert_eq!(binding.artifact_id, ArtifactId(0xf));
            assert_eq!(binding.attempt_id, AttemptId(0xa));
            assert_eq!(binding.proof_public_key, vec![3; 32]);
            assert_eq!(binding.expires_at, Timestamp { seconds: 1_700_000_600, nanos: 0 });
            assert_eq!(binding.epoch, 5);
        }
        other => panic!("expected a capability, got {:?}", other),
    }
    match service().issued("cap_1".to_string(), NOW, true) {
        TransferAuthorizationOutcome::Granted { token, expires_at, data_plane_base_url } => {
            assert_eq!((token.as_str(), expires_at), ("cap_1", NOW));
            assert_eq!(data_plane_base_url, "https://worker");
        }
        other => panic!("expected a grant, got {:?}", other),
    }
    assert!(matches!(
        service().issued("cap_1".to_string(), NOW, false),
        TransferAuthorizationOutcome::Denied
    ));
}

#[test]
fn a_capability_lasts_as_long_as_the_service_says() {
    let service = service().with_capability_ttl(TimeSpan { seconds: 30, nanos: 500_000_000 });
    let step = service.issue(
        ENDPOINT,
        ProtocolId(ACTION),
        TransferId(0x7),
        Some(vec![3; 32]),
        open_state(),
        ACTIVE,
        5,
        NOW,
    );
    match step {
        IssueStep::Store(binding) => assert_eq!(
            binding.expires_at,
            Timestamp { seconds: 1_700_000_030, nanos: 500_000_000 }
        ),
        other => panic!("expected a capability, got {:?}", other),
    }
}

#[test]
fn a_request_out_of_context_is_denied_whatever_it_speaks_of() {
    let denied = |step| {
        matches!(step, IssueStep::Done(TransferAuthorizationOutcome::Denied))
    };
    let key = || Some(vec![3; 32]);
    assert!(denied(issue(ENDPOINT, ACTION, None, open_state(), ACTIVE)));
    assert!(denied(issue(ENDPOINT, ACTION, key(), None, ACTIVE)));
    assert!(denied(issue(ENDPOINT, ACTION, key(), open_state(), INACTIVE)));
    for action in [ACTION, 1] {
        assert!(denied(issue(EndpointId(0xbad), action, key(), open_state(), ACTIVE)));
        let mut ended = open_state().unwrap();
        ended.attempt = Some(attempt(AttemptState::Succeeded));
        assert!(denied(issue(ENDPOINT, action, key(), Some(ended), ACTIVE)));
        let mut unbound = open_state().unwrap();
        unbound.attempt = None;
        assert!(denied(issue(ENDPOINT, action, key(), Some(unbound), ACTIVE)));
    }
    for credential in [ACTIVE, INACTIVE] {
        assert!(matches!(
            issue(ENDPOINT, 1, key(), open_state(), credential),
            IssueStep::Done(TransferAuthorizationOutcome::ProtocolViolation)
        ));
    }
}

const HOLDS: ProofRulings = ProofRulings {
    capability_current: true,
    capability_matches: true,
    proof_id_readable: true,
    signature_readable: true,
    proof_fresh: true,
    signature_valid: true,
};

fn ruled(found: Option<CapabilityBinding>, rulings: ProofRulings) -> RuledProof {
    RuledProof { found, rulings, proof_id: Some(vec![4; 16]) }
}

fn seal_input(chunk_count: u64) -> ManifestSealInput {
    ManifestSealInput {
        token: "tok".to_string(),
        transfer_id: 0x7,
        proof_id: "proof".to_string(),
        issued_at_millis: 77,
        signature: "sig".to_string(),
        chunk_count,
        artifact_digest: "wire-9".to_string(),
    }
}

#[test]
fn every_ruling_on_a_proof_is_needed() {
    assert!(accept_capability(Some(binding()), HOLDS).is_some());
    let (accepted, proof_id) = ruled(Some(binding()), HOLDS).accepted().unwrap();
    assert_eq!((accepted.epoch, proof_id), (1, vec![4; 16]));
    assert!(ruled(None, HOLDS).accepted().is_none());
    let unread = RuledProof { found: Some(binding()), rulings: HOLDS, proof_id: None };
    assert!(unread.accepted().is_none());
    assert!(accept_capability(None, HOLDS).is_none());
    for rulings in [
        ProofRulings { capability_current: false, ..HOLDS },
        ProofRulings { capability_matches: false, ..HOLDS },
        ProofRulings { proof_id_readable: false, ..HOLDS },
        ProofRulings { signature_readable: false, ..HOLDS },
        ProofRulings { proof_fresh: false, ..HOLDS },
        ProofRulings { signature_valid: false, ..HOLDS },
    ] {
        assert!(accept_capability(Some(binding()), rulings).is_none());
        assert!(ruled(Some(binding()), rulings).accepted().is_none());
        assert!(matches!(
            Seals::begin_manifest_seal(seal_input(2), ruled(Some(binding()), rulings)),
            ManifestSealStep::Done(ManifestSealCommit::Denied)
        ));
    }
    let requested = requested_operation(
        AuthorizationOperation::ChunkUpload,
        TransferId(0x7),
        Some(3),
        &binding(),
    );
    assert_eq!(requested.artifact_id, ArtifactId(0xf));
    let fields = transcript_fields(requested, vec![4; 16], 77);
    assert_eq!(fields.requested, requested);
    assert_eq!((fields.proof_id, fields.issued_at_millis), (vec![4; 16], 77));
}

#[test]
fn a_capability_ends_with_its_attempt_and_its_credential() {
    let state = open_state().unwrap();
    assert!(is_durably_authorized(&binding(), &state, ACTIVE));
    assert!(!is_durably_authorized(&binding(), &state, INACTIVE));
    let other = CapabilityBinding { endpoint_id: EndpointId(1), ..binding() };
    assert!(!is_durably_authorized(&other, &state, ACTIVE));
    let other = CapabilityBinding { artifact_id: ArtifactId(1), ..binding() };
    assert!(!is_durably_authorized(&other, &state, ACTIVE));
    let other = CapabilityBinding { attempt_id: AttemptId(1), ..binding() };
    assert!(!is_durably_authorized(&other, &state, ACTIVE));
    for ended in [AttemptState::Dispatched, AttemptState::AwaitingReconciliation, AttemptState::Failed]
    {
        let mut state = open_state().unwrap();
        state.attempt = Some(attempt(ended));
        assert!(!is_durably_authorized(&binding(), &state, ACTIVE));
    }
}

fn query(chunk_index: Option<u64>) -> WorkerAuthorizationQueryInput {
    WorkerAuthorizationQueryInput {
        token: "tok".to_string(),
        operation: AuthorizationOperation::ChunkUpload,
        transfer_id: 0x7,
        chunk_index,
        proof_id: "proof".to_string(),
        issued_at_millis: 77,
        signature: "sig".to_string(),
    }
}

#[test]
fn every_rule_on_a_proof_is_asked_about_the_request_itself() {
    let rule = |found: Option<CapabilityBinding>, signed: bool| {
        rule_on_proof(
            &query(Some(3)),
            NOW,
            5,
            move |token: &String| {
                assert_eq!(token, "tok");
                found
            },
            |binding: &CapabilityBinding, now, epoch| {
                assert_eq!((binding.epoch, now, epoch), (1, NOW, 5));
                true
            },
            |binding: &CapabilityBinding, requested: &RequestedOperation| {
                assert_eq!(
                    *requested,
                    requested_operation(
                        AuthorizationOperation::ChunkUpload,
                        TransferId(0x7),
                        Some(3),
                        binding,
                    )
                );
                true
            },
            |proof_id: &String| {
                assert_eq!(proof_id, "proof");
                Some(vec![4; 16])
            },
            |signature: &String| {
                assert_eq!(signature, "sig");
                if signed {
                    Some(vec![6; 64])
                } else {
                    None
                }
            },
            |issued_at_millis, now| {
                assert_eq!((issued_at_millis, now), (77, NOW));
                true
            },
            |key: &Vec<u8>, token: &String, fields: &ProofTranscriptFields, signature: &Vec<u8>| {
                assert!(signed);
                assert_eq!((key, token.as_str()), (&vec![3; 32], "tok"));
                assert_eq!(fields.requested.chunk_index, Some(3));
                assert_eq!(fields.requested.transfer_id, TransferId(0x7));
                assert_eq!((&fields.proof_id, fields.issued_at_millis), (&vec![4; 16], 77));
                assert_eq!(signature, &vec![6; 64]);
                true
            },
        )
    };
    let held = rule(Some(binding()), true);
    assert_eq!(held.rulings, HOLDS);
    assert_eq!(held.proof_id, Some(vec![4; 16]));
    assert_eq!(held.found.unwrap().attempt_id, AttemptId(0xa));
    let unsigned = rule(Some(binding()), false);
    assert_eq!(
        unsigned.rulings,
        ProofRulings { signature_readable: false, signature_valid: false, ..HOLDS }
    );
    let unknown = rule(None, true);
    assert!(unknown.found.is_none());
    assert!(unknown.proof_id.is_none());
    assert!(!unknown.rulings.all_hold());
}

#[test]
fn only_an_authorized_request_reaches_the_replay_check() {
    let request = |chunk_index, credential, fits: bool| {
        authorize_request(
            &query(chunk_index),
            &binding(),
            vec![4; 16],
            open_state(),
            NOW,
            |chain: &CredentialChain, now| {
                assert_eq!((chain.predecessor.lookup_id.clone(), now), (vec![1; 16], NOW));
                credential
            },
            |operation, state, sealed, expected| {
                assert_eq!(operation, AuthorizationOperation::ChunkUpload);
                assert_eq!(state, ArtifactState::Incomplete);
                assert!(!sealed);
                assert_eq!(expected, chunk_index == Some(0));
                fits
            },
            |issued_at_millis| {
                assert_eq!(issued_at_millis, 77);
                1_700_000_300_000
            },
        )
    };
    let first_use = |proof_id: &Vec<u8>, now, valid_until| {
        assert_eq!(proof_id, &vec![4; 16]);
        assert_eq!(now, NOW);
        assert_eq!(valid_until, Timestamp { seconds: 1_700_000_300, nanos: 0 });
        true
    };
    let state = request(Some(0), ACTIVE, true).unwrap().check_replay(first_use).unwrap();
    assert_eq!(state.transfer.id, TransferId(0x7));
    let replayed = request(Some(0), ACTIVE, true).unwrap();
    assert!(replayed.check_replay(|_: &Vec<u8>, _, _| false).is_none());
    assert!(request(Some(7), ACTIVE, true).is_some());
    assert!(request(Some(0), ACTIVE, false).is_none());
    assert!(request(Some(0), INACTIVE, true).is_none());
    assert!(request(Some(u64::from(u32::MAX) + 1), ACTIVE, true).is_none());
    assert!(request(None, ACTIVE, true).is_some());
}

#[test]
fn a_chunk_is_held_to_what_the_manifest_expects() {
    match Authorizations::decide(open_state(), Some(0)) {
        WorkerAuthorizationOutcome::Approved { chunk_size, expected_chunk_digest, .. } => {
            assert_eq!(chunk_size, 4096);
            assert_eq!(expected_chunk_digest.as_deref(), Some("wire-1"));
        }
        other => panic!("expected an approval, got {:?}", other),
    }
    match Authorizations::decide(open_state(), Some(1)) {
        WorkerAuthorizationOutcome::Approved { expected_chunk_digest, .. } => {
            assert_eq!(expected_chunk_digest, None);
        }
        other => panic!("expected an approval, got {:?}", other),
    }
    assert!(matches!(Authorizations::decide(None, Some(0)), WorkerAuthorizationOutcome::Denied));
}

#[test]
fn resuming_lists_what_is_held_as_the_manifest_has_it() {
    let state = durable(ArtifactState::PendingVerification, sealed_manifest());
    match Authorizations::authorize_resume_discovery(Some(state)) {
        Ok(ResumeAuthorizationOutcome::Approved(snapshot)) => {
            assert!(snapshot.sealed);
            assert_eq!(snapshot.expected_chunk_count, Some(2));
            let held: Vec<(u64, &str)> = snapshot
                .held
                .iter()
                .map(|chunk| (chunk.chunk_index, chunk.digest_wire.as_str()))
                .collect();
            assert_eq!(held, vec![(0, "wire-1"), (1, "wire-2")]);
        }
        other => panic!("expected a snapshot, got {:?}", other),
    }
    match Authorizations::authorize_resume_discovery(open_state()) {
        Err(error) => assert_eq!(
            error.message(),
            "held chunk ChunkIndex(1) has no durable expected identity in the same snapshot"
        ),
        other => panic!("expected a fault, got {:?}", other),
    }
    assert!(matches!(
        Authorizations::authorize_resume_discovery(None),
        Ok(ResumeAuthorizationOutcome::Denied)
    ));
}

fn accepted(
    facts: &TransferLockedFacts,
    attempt_state: Option<AttemptState>,
    index: u32,
    size: u32,
    seed: u8,
    fits: bool,
) -> ChunkAcceptanceDecided {
    decide_chunk_acceptance(
        facts,
        attempt_state.map(attempt),
        index,
        size,
        "wire",
        |_, _, _, _| fits,
        |_, _: &str| if seed == 0 { None } else { Some(digest(seed)) },
        |known: &ChunkManifest, index, size, recorded: &Digest| {
            if known.sealed {
                return Err(ChunkRecordError::NotContinuable);
            }
            if recorded.bytes.len() != 32 {
                return Err(ChunkRecordError::InvalidDigestLength);
            }
            if known.chunks.iter().any(|chunk| chunk.index == index) {
                return Ok(ChunkRecordOutcome::AlreadyRecorded);
            }
            Ok(ChunkRecordOutcome::Added(manifest(vec![
                chunk(0, 4096, 1),
                ExpectedChunk { index, size, digest: digest(seed) },
            ])))
        },
    )
}

#[test]
fn a_chunk_is_committed_once_and_never_replaced() {
    let facts = locked(ArtifactState::Incomplete, manifest(vec![chunk(0, 4096, 1)]), vec![0]);
    let running = Some(AttemptState::InProgress);
    assert!(matches!(
        accepted(&facts, running, 1, 10, 2, true),
        ChunkAcceptanceDecided::Commit(ChunkRecordOutcome::Added(_))
    ));
    assert!(matches!(
        accepted(&facts, running, 0, 4096, 1, true),
        ChunkAcceptanceDecided::Commit(ChunkRecordOutcome::AlreadyRecorded)
    ));
    assert!(matches!(
        accepted(&facts, running, 0, 4096, 2, true),
        ChunkAcceptanceDecided::RejectConflict
    ));
    assert!(matches!(
        accepted(&facts, running, 0, 10, 1, true),
        ChunkAcceptanceDecided::FailClosed
    ));
    for size in [0, 4097] {
        assert!(matches!(
            accepted(&facts, running, 1, size, 2, true),
            ChunkAcceptanceDecided::FailClosed
        ));
    }
    assert!(matches!(
        accepted(&facts, running, 1, 10, 0, true),
        ChunkAcceptanceDecided::FailClosed
    ));
    for (state, fits) in
        [(running, false), (None, true), (Some(AttemptState::AwaitingReconciliation), true)]
    {
        assert!(matches!(
            accepted(&facts, state, 1, 10, 2, fits),
            ChunkAcceptanceDecided::RejectNotContinuable
        ));
    }
    let sealed = locked(ArtifactState::Incomplete, sealed_manifest(), vec![0]);
    assert!(matches!(
        accepted(&sealed, running, 5, 10, 2, true),
        ChunkAcceptanceDecided::RejectNotContinuable
    ));
}

#[test]
fn an_index_outside_the_manifest_fails_closed() {
    assert_eq!(
        Chunks::begin_chunk_acceptance(u64::from(u32::MAX)),
        ChunkAcceptanceStep::Commit { index: u32::MAX }
    );
    assert_eq!(
        Chunks::begin_chunk_acceptance(u64::from(u32::MAX) + 1),
        ChunkAcceptanceStep::Done(ChunkAcceptanceCommit::FailClosed)
    );
    assert!(matches!(
        Chunks::commit_chunk_acceptance(Err(CommitChunkAcceptanceError::TransferNotFound(
            TransferId(1)
        ))),
        Ok(ChunkAcceptanceCommit::FailClosed)
    ));
    assert!(matches!(
        Chunks::commit_chunk_acceptance(Err(CommitChunkAcceptanceError::Repository(fault()))),
        Err(ApplicationError::Repository(_))
    ));
    assert!(matches!(
        Chunks::commit_chunk_acceptance(Ok(ChunkAcceptanceCommit::Committed)),
        Ok(ChunkAcceptanceCommit::Committed)
    ));
}

fn seal(
    state: AuthorizationDurableState,
    first_use: bool,
    sealed: Result<SealOutcome, SealError>,
    begun: Result<Artifact, ArtifactTransitionError>,
) -> ManifestSealDecided {
    conclude_manifest_seal(
        &state,
        2,
        digest(9),
        first_use,
        move |_: &ChunkManifest, count, declared: &Digest| {
            assert_eq!((count, declared.wire.as_str()), (2, "wire-9"));
            sealed
        },
        move |_: &Artifact, _: &ChunkManifest, held: &Vec<u32>| {
            assert_eq!(held, &vec![0, 1]);
            begun
        },
    )
}

fn incomplete() -> AuthorizationDurableState {
    durable(ArtifactState::Incomplete, manifest(vec![chunk(0, 4096, 1), chunk(1, 10, 2)]))
}

fn pending() -> AuthorizationDurableState {
    durable(ArtifactState::PendingVerification, sealed_manifest())
}

#[test]
fn a_seal_is_set_once() {
    let begun = || Ok(artifact(ArtifactState::PendingVerification));
    let sealed = || Ok(SealOutcome::Sealed(sealed_manifest()));
    match seal(incomplete(), true, sealed(), begun()) {
        ManifestSealDecided::Seal { chunk_count, artifact_digest } => {
            assert_eq!(chunk_count, 2);
            assert_eq!(artifact_digest.wire, "wire-9");
        }
        other => panic!("expected a seal, got {:?}", other),
    }
    assert!(matches!(
        seal(incomplete(), false, sealed(), begun()),
        ManifestSealDecided::Denied
    ));
    for error in [SealError::IncompleteChunkSet, SealError::NonContiguousIndices] {
        assert!(matches!(
            seal(incomplete(), true, Err(error), begun()),
            ManifestSealDecided::RejectIncomplete
        ));
    }
    assert!(matches!(
        seal(incomplete(), true, sealed(), Err(ArtifactTransitionError::IncompleteChunks)),
        ManifestSealDecided::RejectIncomplete
    ));
    assert!(matches!(
        seal(incomplete(), true, sealed(), Err(ArtifactTransitionError::ManifestMismatch)),
        ManifestSealDecided::FailClosed
    ));
    assert!(matches!(
        seal(incomplete(), true, Err(SealError::InvalidDigestLength), begun()),
        ManifestSealDecided::FailClosed
    ));
    assert!(matches!(
        seal(pending(), true, Ok(SealOutcome::AlreadySealed), begun()),
        ManifestSealDecided::AlreadyPending
    ));
    assert!(matches!(
        seal(pending(), true, Err(SealError::ConflictingReseal), begun()),
        ManifestSealDecided::RejectAlreadySealed
    ));
    assert!(matches!(seal(pending(), true, sealed(), begun()), ManifestSealDecided::FailClosed));
    for state in [ArtifactState::Verified, ArtifactState::Failed] {
        assert!(matches!(
            seal(durable(state, sealed_manifest()), true, sealed(), begun()),
            ManifestSealDecided::Denied
        ));
    }
    for contradiction in [
        durable(ArtifactState::Incomplete, sealed_manifest()),
        durable(ArtifactState::PendingVerification, manifest(vec![])),
    ] {
        assert!(matches!(
            seal(contradiction, true, sealed(), begun()),
            ManifestSealDecided::FailClosed
        ));
    }
}

#[test]
fn a_malformed_or_denied_seal_does_not_use_up_its_proof() {
    let check = |credential, fits, declared| {
        check_manifest_seal(&binding(), &incomplete(), credential, fits, declared)
    };
    assert!(matches!(
        check(ACTIVE, true, Some(digest(9))),
        SealCheck::CheckReplay { digest } if digest.wire == "wire-9"
    ));
    assert!(matches!(check(ACTIVE, true, None), SealCheck::FailClosed));
    assert!(matches!(check(INACTIVE, true, None), SealCheck::Denied));
    assert!(matches!(check(ACTIVE, false, None), SealCheck::Denied));
    match Seals::begin_manifest_seal(seal_input(2), ruled(Some(binding()), HOLDS)) {
        ManifestSealStep::Commit(request) => {
            assert_eq!(request.binding.attempt_id, AttemptId(0xa));
            assert_eq!(request.proof_id, vec![4; 16]);
            assert_eq!((request.issued_at_millis, request.chunk_count), (77, 2));
            assert_eq!(request.artifact_digest, "wire-9");
        }
        other => panic!("expected a request, got {:?}", other),
    }
    let too_many = u64::from(u32::MAX) + 1;
    assert!(matches!(
        Seals::begin_manifest_seal(seal_input(too_many), ruled(Some(binding()), HOLDS)),
        ManifestSealStep::Done(ManifestSealCommit::FailClosed)
    ));
    assert!(matches!(
        Seals::begin_manifest_seal(seal_input(too_many), ruled(None, HOLDS)),
        ManifestSealStep::Done(ManifestSealCommit::Denied)
    ));
    let asked = seal_query_input(&seal_input(2));
    assert_eq!(asked.operation, AuthorizationOperation::SealManifest);
    assert_eq!((asked.transfer_id, asked.chunk_index, asked.issued_at_millis), (0x7, None, 77));
    assert_eq!((asked.token, asked.proof_id), ("tok".to_string(), "proof".to_string()));
    assert_eq!(asked.signature, "sig");
    assert!(matches!(
        Seals::commit_manifest_seal(Err(CommitManifestSealError::TransferNotFound(TransferId(1)))),
        Ok(ManifestSealCommit::Denied)
    ));
    assert!(Seals::commit_manifest_seal(Err(CommitManifestSealError::Repository(fault()))).is_err());
}

#[test]
fn only_a_seal_in_order_asks_for_its_proofs_first_use() {
    let request = SealRequest {
        binding: binding(),
        proof_id: vec![4; 16],
        issued_at_millis: 77,
        chunk_count: 2,
        artifact_digest: "wire-9".to_string(),
    };
    let decide = |credential, fits, declared, first_use: &dyn Fn() -> bool| {
        decide_manifest_seal(
            &request,
            &incomplete(),
            NOW,
            |chain: &CredentialChain, now| {
                assert_eq!((chain.predecessor.lookup_id.clone(), now), (vec![1; 16], NOW));
                credential
            },
            |operation, state, sealed, expected| {
                assert_eq!(operation, AuthorizationOperation::SealManifest);
                assert_eq!((state, sealed, expected), (ArtifactState::Incomplete, false, false));
                fits
            },
            |algorithm, wire: &String| {
                assert_eq!((algorithm, wire.as_str()), (DigestAlgorithm::Sha256, "wire-9"));
                declared
            },
            |issued_at_millis| {
                assert_eq!(issued_at_millis, 77);
                1_700_000_300_000
            },
            |proof_id: &Vec<u8>, now, valid_until| {
                assert_eq!(proof_id, &vec![4; 16]);
                assert_eq!(now, NOW);
                assert_eq!(valid_until, Timestamp { seconds: 1_700_000_300, nanos: 0 });
                first_use()
            },
            |_: &ChunkManifest, count, declared: &Digest| {
                assert_eq!((count, declared.wire.as_str()), (2, "wire-9"));
                Ok(SealOutcome::Sealed(sealed_manifest()))
            },
            |_: &Artifact, _: &ChunkManifest, _: &Vec<u32>| {
                Ok(artifact(ArtifactState::PendingVerification))
            },
        )
    };
    let never = || -> bool { panic!("the proof was used up") };
    assert!(matches!(
        decide(INACTIVE, true, Some(digest(9)), &never),
        ManifestSealDecided::Denied
    ));
    assert!(matches!(
        decide(ACTIVE, false, Some(digest(9)), &never),
        ManifestSealDecided::Denied
    ));
    assert!(matches!(decide(ACTIVE, true, None, &never), ManifestSealDecided::FailClosed));
    assert!(matches!(
        decide(ACTIVE, true, Some(digest(9)), &|| false),
        ManifestSealDecided::Denied
    ));
    assert!(matches!(
        decide(ACTIVE, true, Some(digest(9)), &|| true),
        ManifestSealDecided::Seal { chunk_count: 2, .. }
    ));
}

fn verification() -> ArtifactVerificationInput {
    ArtifactVerificationInput {
        transfer_id: 0x7,
        artifact_id: 0xf,
        chunk_count: 2,
        bound_expected_artifact_digest: "wire-9".to_string(),
        computed_artifact_digest: "computed".to_string(),
    }
}

fn verified(
    facts: &TransferLockedFacts,
    input: &ArtifactVerificationInput,
    computed: Option<u8>,
) -> Option<ArtifactState> {
    let decided = decide_artifact_verification(
        facts,
        input,
        |_, _: &String| computed.map(digest),
        |current: &Artifact, matches: bool| {
            Ok(Artifact {
                state: if matches { ArtifactState::Verified } else { ArtifactState::Failed },
                ..*current
            })
        },
    );
    match decided {
        ArtifactVerificationDecided::Commit(artifact) => Some(artifact.state),
        ArtifactVerificationDecided::FailClosed => None,
    }
}

#[test]
fn a_verification_is_held_against_the_sealed_identity() {
    let facts = || locked(ArtifactState::PendingVerification, sealed_manifest(), vec![0, 1]);
    let input = verification;
    assert_eq!(verified(&facts(), &input(), Some(9)), Some(ArtifactState::Verified));
    assert_eq!(verified(&facts(), &input(), Some(8)), Some(ArtifactState::Failed));
    assert_eq!(verified(&facts(), &input(), None), None);
    for other in [
        ArtifactVerificationInput { artifact_id: 1, ..input() },
        ArtifactVerificationInput { chunk_count: 3, ..input() },
        ArtifactVerificationInput {
            bound_expected_artifact_digest: "other".to_string(),
            ..input()
        },
    ] {
        assert_eq!(verified(&facts(), &other, Some(9)), None);
    }
    for state in [ArtifactState::Incomplete, ArtifactState::Verified, ArtifactState::Failed] {
        assert_eq!(
            verified(&locked(state, sealed_manifest(), vec![]), &input(), Some(9)),
            None
        );
    }
    assert!(matches!(
        Verifications::commit_artifact_verification(Err(
            CommitArtifactVerificationError::TransferNotFound(TransferId(1))
        )),
        Ok(ArtifactVerificationCommit::FailClosed)
    ));
    assert!(matches!(
        Verifications::commit_artifact_verification(Ok(ArtifactVerificationCommit::Committed {
            verified: false
        })),
        Ok(ArtifactVerificationCommit::Committed { verified: false })
    ));
}

fn rows(chunks: Vec<ChunkRow>, sealed: bool) -> TransferRows {
    TransferRows {
        transfer: TransferRow {
            endpoint_id: 0xe,
            job_id: 0x1,
            job_step_id: 0x5,
            artifact_id: 0xf,
            direction: TransferDirection::AgentToServer,
            digest_algorithm: DigestAlgorithm::Sha256,
            chunk_size: 4096,
            source_provenance: "disk-0".to_string(),
            attempt_id: None,
        },
        artifact: ArtifactRow {
            state: ArtifactState::Incomplete,
            capture_consistency: CaptureConsistency::NotEstablished,
        },
        manifest: ManifestRow {
            sealed,
            chunk_count: if sealed { Some(2) } else { None },
            artifact_digest: if sealed { Some(vec![9; 32]) } else { None },
        },
        chunks,
    }
}

fn chunk_row(chunk_index: i32, held: bool) -> ChunkRow {
    ChunkRow { chunk_index, size: 10, digest: vec![chunk_index as u8; 32], held }
}

fn find(
    found: Option<TransferRows>,
    size_allowed: bool,
) -> Result<Option<TransferLockedFacts>, RepositoryError> {
    load_locked_facts(
        TransferId(0x7),
        found,
        |chunk_size| size_allowed && chunk_size != 0,
        |known: &ChunkManifest, index: u32, size: u32, bytes: &Vec<u8>| {
            if known.chunks.iter().any(|chunk| chunk.index == index) {
                return Ok(ChunkRecordOutcome::AlreadyRecorded);
            }
            let mut chunks: Vec<ExpectedChunk> = known
                .chunks
                .iter()
                .map(|chunk| ExpectedChunk {
                    index: chunk.index,
                    size: chunk.size,
                    digest: Digest {
                        bytes: chunk.digest.bytes.clone(),
                        wire: chunk.digest.wire.clone(),
                    },
                })
                .collect();
            chunks.push(ExpectedChunk {
                index,
                size,
                digest: Digest { bytes: bytes.clone(), wire: String::new() },
            });
            Ok(ChunkRecordOutcome::Added(manifest(chunks)))
        },
        |open: &ChunkManifest, count: u32, bytes: &Vec<u8>| {
            if open.chunks.len() != count as usize {
                return Err(SealError::IncompleteChunkSet);
            }
            assert_eq!(bytes, &vec![9; 32]);
            Ok(SealOutcome::Sealed(sealed_manifest()))
        },
    )
}

fn load(rows: TransferRows, size_allowed: bool) -> Result<TransferLockedFacts, RepositoryError> {
    find(Some(rows), size_allowed).map(|facts| facts.unwrap())
}

#[test]
fn a_manifest_is_built_again_by_its_own_rules() {
    let facts = load(
        rows(vec![chunk_row(0, true), chunk_row(1, false), chunk_row(2, true)], false),
        true,
    )
    .unwrap();
    assert_eq!(facts.transfer.id, TransferId(0x7));
    assert_eq!(facts.transfer.chunk_size, 4096);
    assert_eq!(facts.artifact.id, ArtifactId(0xf));
    assert_eq!(facts.held_chunk_indices, vec![0, 2]);
    let found: Vec<u32> = facts.manifest.chunks.iter().map(|chunk| chunk.index).collect();
    assert_eq!(found, vec![0, 1, 2]);
    let sealed = load(rows(vec![chunk_row(0, true), chunk_row(1, true)], true), true).unwrap();
    assert!(sealed.manifest.sealed);
    assert!(matches!(find(None, true), Ok(None)));
}

fn load_error(rows: TransferRows, size_allowed: bool) -> String {
    ApplicationError::Repository(load(rows, size_allowed).unwrap_err()).message()
}

#[test]
fn rows_that_contradict_the_rules_are_faults() {
    assert_eq!(
        load_error(rows(vec![], false), false),
        "persisted transfer has a non-positive chunk_size"
    );
    let mut sizeless = rows(vec![], false);
    sizeless.transfer.chunk_size = 0;
    assert_eq!(load_error(sizeless, true), "persisted transfer has a non-positive chunk_size");
    assert_eq!(
        load_error(rows(vec![chunk_row(0, true), chunk_row(0, true)], false), true),
        "persisted chunk identities could not be reconstructed into a manifest"
    );
    assert_eq!(
        load_error(rows(vec![chunk_row(0, true)], true), true),
        "persisted sealed manifest facts could not be reconstructed"
    );
    let mut without_count = rows(vec![], true);
    without_count.manifest.chunk_count = None;
    assert_eq!(
        load_error(without_count, true),
        "sealed manifest is missing its durable chunk_count"
    );
    let mut without_digest = rows(vec![], true);
    without_digest.manifest.artifact_digest = None;
    assert_eq!(
        load_error(without_digest, true),
        "sealed manifest is missing its durable artifact_digest"
    );
}

#[test]
fn held_indices_stay_in_order() {
    let mut indices = Vec::new();
    for index in [5, 1, 5, 9, 0, 1] {
        insert_index(&mut indices, index);
    }
    assert_eq!(indices, vec![0, 1, 5, 9]);
    assert!(is_held(&indices, 5));
    assert!(!is_held(&indices, 6));
}

#[test]
fn a_transfer_is_created_for_a_step_of_the_endpoints_own_job() {
    let begin = |exists| {
        create_transfer_context(transfer(), artifact(ArtifactState::Incomplete), exists)
    };
    assert!(matches!(begin(false), Err(CreateTransferError::EndpointNotFound(ENDPOINT))));
    assert!(matches!(
        begin(true).unwrap().with_job(None),
        Err(CreateTransferError::JobNotFound(JobId(1)))
    ));
    assert!(matches!(
        begin(true).unwrap().with_job(Some(0xbad)),
        Err(CreateTransferError::JobEndpointMismatch(JobId(1), ENDPOINT))
    ));
    assert!(matches!(
        begin(true).unwrap().with_job(Some(0xe)).unwrap().with_step(false),
        Err(CreateTransferError::JobStepNotFound(JobStepId(5), JobId(1)))
    ));
    let rows = begin(true).unwrap().with_job(Some(0xe)).unwrap().with_step(true).unwrap();
    assert_eq!((rows.id, rows.artifact_id), (0x7, 0xf));
    assert_eq!(rows.transfer.chunk_size, 4096);
    assert_eq!(rows.transfer.attempt_id, Some(0xa));
    assert_eq!(rows.artifact.state, ArtifactState::Incomplete);
}

#[test]
fn only_what_a_decision_added_is_written() {
    let facts = locked(ArtifactState::Incomplete, manifest(vec![chunk(0, 4096, 1)]), vec![0]);
    let added = ChunkRecordOutcome::Added(manifest(vec![chunk(0, 4096, 1), chunk(1, 10, 2)]));
    let row = record_expected_chunk(&facts, &added).unwrap().unwrap();
    assert_eq!((row.artifact_id, row.chunk_index, row.size), (0xf, 1, 10));
    assert_eq!(row.digest, vec![2; 32]);
    assert!(record_expected_chunk(&facts, &ChunkRecordOutcome::AlreadyRecorded).unwrap().is_none());
    let unchanged = ChunkRecordOutcome::Added(manifest(vec![chunk(0, 4096, 1)]));
    assert_eq!(
        ApplicationError::Repository(record_expected_chunk(&facts, &unchanged).unwrap_err())
            .message(),
        "decided manifest added no chunk relative to locked facts"
    );
    assert!(matches!(
        accept_verified_chunk(&facts, 0, Ok(())),
        Ok(AcceptChunkOutcome::AlreadyHeld)
    ));
    assert!(matches!(accept_verified_chunk(&facts, 1, Ok(())), Ok(AcceptChunkOutcome::Accepted)));
    let refused = DomainFault { message: "no such chunk".to_string() };
    assert!(matches!(
        accept_verified_chunk(&facts, 0, Err(refused)),
        Err(AcceptChunkError::Domain(_))
    ));
    let columns = seal_manifest(&facts, &SealOutcome::Sealed(sealed_manifest())).unwrap().unwrap();
    assert_eq!((columns.artifact_id, columns.chunk_count), (0xf, 2));
    assert_eq!(columns.artifact_digest, vec![9; 32]);
    assert!(seal_manifest(&facts, &SealOutcome::AlreadySealed).unwrap().is_none());
    let no_count = ChunkManifest { chunk_count: None, ..sealed_manifest() };
    assert_eq!(
        ApplicationError::Repository(
            seal_manifest(&facts, &SealOutcome::Sealed(no_count)).unwrap_err()
        )
        .message(),
        "sealed outcome is missing chunk_count"
    );
    let no_digest = ChunkManifest { artifact_digest: None, ..sealed_manifest() };
    assert_eq!(
        ApplicationError::Repository(
            seal_manifest(&facts, &SealOutcome::Sealed(no_digest)).unwrap_err()
        )
        .message(),
        "sealed outcome is missing artifact_digest"
    );
}

#[test]
fn chunks_and_their_seal_survive_storage() {
    let empty = locked(ArtifactState::Incomplete, manifest(vec![]), vec![]);
    let far = u32::MAX - 1;
    let first = ChunkRecordOutcome::Added(manifest(vec![chunk(0, 4096, 1)]));
    let written = record_expected_chunk(&empty, &first).unwrap().unwrap();
    let last = ChunkRecordOutcome::Added(manifest(vec![chunk(far, 10, 2)]));
    let written_far = record_expected_chunk(&empty, &last).unwrap().unwrap();
    let columns =
        seal_manifest(&empty, &SealOutcome::Sealed(sealed_manifest())).unwrap().unwrap();
    let mut stored = rows(
        vec![
            ChunkRow {
                chunk_index: written.chunk_index,
                size: written.size,
                digest: written.digest,
                held: false,
            },
            ChunkRow {
                chunk_index: written_far.chunk_index,
                size: written_far.size,
                digest: written_far.digest,
                held: true,
            },
        ],
        false,
    );
    let read = load(stored, true).unwrap();
    let found: Vec<(u32, u32, u8)> = read
        .manifest
        .chunks
        .iter()
        .map(|chunk| (chunk.index, chunk.size, chunk.digest.bytes[0]))
        .collect();
    assert_eq!(found, vec![(0, 4096, 1), (far, 10, 2)]);
    assert_eq!(read.held_chunk_indices, vec![far]);
    stored = rows(vec![chunk_row(0, true), chunk_row(1, true)], true);
    stored.manifest.chunk_count = Some(columns.chunk_count);
    stored.manifest.artifact_digest = Some(columns.artifact_digest);
    let read = load(stored, true).unwrap();
    assert_eq!(read.manifest.chunk_count, Some(2));
    assert_eq!(read.manifest.artifact_digest.unwrap().bytes, vec![9; 32]);
}

#[test]
fn a_transfer_survives_storage() {
    for chunk_size in [1, 4096, u32::MAX] {
        let whole = Transfer { chunk_size, ..transfer() };
        let written = create_transfer_context(whole, artifact(ArtifactState::Incomplete), true)
            .unwrap()
            .with_job(Some(0xe))
            .unwrap()
            .with_step(true)
            .unwrap();
        let mut stored = rows(vec![], false);
        stored.transfer = written.transfer;
        stored.artifact = written.artifact;
        let read = load(stored, true).unwrap();
        assert_eq!(
            format!("{:?}", read.transfer),
            format!("{:?}", Transfer { chunk_size, ..transfer() })
        );
        assert_eq!(read.artifact, artifact(ArtifactState::Incomplete));
    }
}

#[test]
fn an_operation_needs_its_transfer() {
    let missing = || Ok(None);
    assert!(matches!(
        require_transfer::<RecordChunkError>(TransferId(1), missing()),
        Err(RecordChunkError::TransferNotFound(TransferId(1)))
    ));
    assert!(matches!(
        require_transfer::<AcceptChunkError>(TransferId(1), missing()),
        Err(AcceptChunkError::TransferNotFound(TransferId(1)))
    ));
    assert!(matches!(
        require_transfer::<SealManifestError>(TransferId(1), missing()),
        Err(SealManifestError::TransferNotFound(TransferId(1)))
    ));
    assert!(matches!(
        require_transfer::<ArtifactTransitionRepoError>(TransferId(1), Err(fault())),
        Err(ArtifactTransitionRepoError::Repository(_))
    ));
    assert!(matches!(
        require_transfer::<BindAttemptError>(TransferId(1), Err(fault())),
        Err(BindAttemptError::Repository(_))
    ));
    let failed = artifact(ArtifactState::Failed);
    assert!(matches!(
        commit_artifact_transition(Ok(failed)),
        Ok(found) if found == failed
    ));
    let (bound, _) = bind_attempt(Ok(transfer())).unwrap();
    assert_eq!(bound, Some(AttemptId(0xa)));
    let refused = DomainFault { message: "already bound".to_string() };
    assert!(matches!(bind_attempt(Err(refused)), Err(BindAttemptError::Domain(_))));
}

#[test]
fn what_a_transfer_refers_to_has_to_be_there() {
    let facts = || locked(ArtifactState::Incomplete, manifest(vec![]), vec![]);
    let message = |fault| ApplicationError::Repository(fault).message();
    assert_eq!(
        message(load_authorization_state(facts(), None, Some(endpoint())).unwrap_err()),
        "transfer TransferId(00000000-0000-0000-0000-000000000007) durably references missing \
         attempt AttemptId(00000000-0000-0000-0000-00000000000a)"
    );
    assert_eq!(
        message(
            load_authorization_state(facts(), Some(attempt(AttemptState::InProgress)), None)
                .unwrap_err()
        ),
        "transfer TransferId(00000000-0000-0000-0000-000000000007) durably references missing \
         endpoint EndpointId(00000000-0000-0000-0000-00000000000e)"
    );
    let mut unbound = facts();
    unbound.transfer.attempt_id = None;
    let state = load_authorization_state(
        unbound,
        Some(attempt(AttemptState::InProgress)),
        Some(endpoint()),
    )
    .unwrap();
    assert!(state.attempt.is_none());
}

#[test]
fn changes_of_a_transfer_are_told_by_what_refused_them() {
    let refused = || DomainFault { message: "refused".to_string() };
    assert!(matches!(Transfers::create_transfer_context(1u8, Ok(())), Ok(1)));
    assert_eq!(
        Transfers::create_transfer_context(
            1u8,
            Err(CreateTransferError::JobEndpointMismatch(JobId(1), ENDPOINT))
        )
        .unwrap_err()
        .message(),
        "job JobId(00000000-0000-0000-0000-000000000001) does not target endpoint \
         EndpointId(00000000-0000-0000-0000-00000000000e)"
    );
    assert!(matches!(Transfers::find_transfer_context::<u8>(Ok(None)), Ok(None)));
    assert!(Transfers::find_transfer_context::<u8>(Err(fault())).is_err());
    assert!(matches!(
        Transfers::record_expected_chunk::<u8>(Err(RecordChunkError::Domain(refused()))),
        Err(ApplicationError::ChunkRecord(_))
    ));
    assert!(matches!(
        Transfers::accept_verified_chunk::<u8>(Err(AcceptChunkError::Domain(refused()))),
        Err(ApplicationError::ChunkAccept(_))
    ));
    assert!(matches!(
        Transfers::seal_manifest::<u8>(Err(SealManifestError::Domain(refused()))),
        Err(ApplicationError::Seal(_))
    ));
    for told in [
        Transfers::begin_artifact_verification::<u8>(Err(ArtifactTransitionRepoError::Domain(
            refused(),
        ))),
        Transfers::complete_artifact_verification(Err(ArtifactTransitionRepoError::Domain(
            refused(),
        ))),
        Transfers::fail_incomplete_artifact(Err(ArtifactTransitionRepoError::Domain(refused()))),
    ] {
        assert!(matches!(told, Err(ApplicationError::ArtifactTransition(_))));
    }
    assert!(matches!(
        Transfers::bind_attempt::<u8>(Err(BindAttemptError::Domain(refused()))),
        Err(ApplicationError::TransferBinding(_))
    ));
    assert_eq!(
        Transfers::bind_attempt::<u8>(Err(BindAttemptError::TransferNotFound(TransferId(3))))
            .unwrap_err()
            .message(),
        "transfer TransferId(00000000-0000-0000-0000-000000000003) not found"
    );
}

#[test]
fn each_change_of_a_transfer_is_ruled_on_by_what_is_locked() {
    let facts = locked(ArtifactState::Incomplete, sealed_manifest(), vec![0, 1]);
    let request = NewTransfer {
        endpoint_id: ENDPOINT,
        job_id: JobId(0x1),
        job_step_id: JobStepId(0x5),
        direction: TransferDirection::AgentToServer,
        digest_algorithm: DigestAlgorithm::Sha256,
        chunk_size: 4096,
        source_provenance: "disk-0".to_string(),
    };
    let made = Transfers::construct_transfer_context(
        request,
        |endpoint_id, job_id, job_step_id, direction, algorithm, chunk_size, provenance: String| {
            (endpoint_id, job_id, job_step_id, direction, algorithm, chunk_size, provenance)
        },
    );
    assert_eq!(
        made,
        (
            ENDPOINT,
            JobId(0x1),
            JobStepId(0x5),
            TransferDirection::AgentToServer,
            DigestAlgorithm::Sha256,
            4096,
            "disk-0".to_string(),
        )
    );
    let recorded = Transfers::decide_expected_chunk(
        &facts,
        2,
        10,
        vec![7; 32],
        |manifest: &ChunkManifest, index, size, bytes: Vec<u8>| {
            assert_eq!((manifest.chunks.len(), index, size, bytes), (2, 2, 10, vec![7; 32]));
            Err(ChunkRecordError::NotContinuable)
        },
    );
    assert!(matches!(recorded, Err(ChunkRecordError::NotContinuable)));
    let accepted: Result<(), ()> = Transfers::decide_verified_chunk(
        &facts,
        1,
        &vec![2; 32],
        |manifest: &ChunkManifest, index, bytes: &Vec<u8>| {
            assert_eq!((manifest.chunks.len(), index, bytes), (2, 1, &vec![2; 32]));
            Ok(())
        },
    );
    assert_eq!(accepted, Ok(()));
    let sealed = Transfers::decide_seal(
        &facts,
        3,
        vec![9; 32],
        |manifest: &ChunkManifest, count, bytes: Vec<u8>| {
            assert_eq!((manifest.sealed, count, bytes), (true, 3, vec![9; 32]));
            Err(SealError::ConflictingReseal)
        },
    );
    assert!(matches!(sealed, Err(SealError::ConflictingReseal)));
    let begun: Result<Artifact, ()> = Transfers::decide_verification_start(
        &facts,
        |found: &Artifact, manifest: &ChunkManifest, held: &Vec<u32>| {
            assert_eq!((found.id, manifest.chunk_count), (ArtifactId(0xf), Some(2)));
            assert_eq!(held, &vec![0, 1]);
            Ok(artifact(ArtifactState::PendingVerification))
        },
    );
    assert_eq!(begun.unwrap().state, ArtifactState::PendingVerification);
    for digest_matches in [true, false] {
        let ended: Result<Artifact, bool> = Transfers::decide_verification_end(
            &facts,
            digest_matches,
            |found: &Artifact, told| {
                assert_eq!(found.state, ArtifactState::Incomplete);
                Err(told)
            },
        );
        assert_eq!(ended.unwrap_err(), digest_matches);
    }
    let failed: Result<Artifact, ()> = Transfers::decide_failure(&facts, |found: &Artifact| {
        assert_eq!(found.id, ArtifactId(0xf));
        Ok(artifact(ArtifactState::Failed))
    });
    assert_eq!(failed.unwrap().state, ArtifactState::Failed);
    let bound: Result<Transfer, ()> = Transfers::decide_binding(
        &facts,
        &attempt(AttemptState::InProgress),
        |found: &Transfer, attempt: &Attempt| {
            assert_eq!((found.id, attempt.id), (TransferId(0x7), AttemptId(0xa)));
            Ok(transfer())
        },
    );
    assert_eq!(bound.unwrap().attempt_id, Some(AttemptId(0xa)));
}

#[test]
fn a_capability_is_granted_only_once_it_is_stored() {
    let store = |stored: bool| {
        service().store_capability(
            "cap_1".to_string(),
            binding(),
            |token: &String, binding: CapabilityBinding| {
                assert_eq!((token.as_str(), binding.attempt_id), ("cap_1", AttemptId(0xa)));
                stored
            },
        )
    };
    match store(true) {
        TransferAuthorizationOutcome::Granted { token, expires_at, data_plane_base_url } => {
            assert_eq!((token.as_str(), expires_at), ("cap_1", NOW));
            assert_eq!(data_plane_base_url, "https://worker");
        }
        other => panic!("expected a grant, got {:?}", other),
    }
    assert!(matches!(store(false), TransferAuthorizationOutcome::Denied));
    let ruled = rule_on_credential(&open_state(), NOW, |chain: &CredentialChain, now| {
        assert_eq!((chain.revoked, now), (false, NOW));
        ACTIVE
    });
    assert!(matches!(ruled, CredentialDimension::CredentialActive));
    let none = rule_on_credential(&None, NOW, |_: &CredentialChain, _| ACTIVE);
    assert!(matches!(none, CredentialDimension::CredentialInactive));
}

#[test]
fn chunks_read_out_of_order_are_listed_in_order() {
    let facts = load(
        rows(vec![chunk_row(2, true), chunk_row(0, true), chunk_row(1, false)], false),
        true,
    )
    .unwrap();
    let state = load_authorization_state(facts, None, Some(endpoint())).unwrap();
    match Authorizations::authorize_resume_discovery(Some(state)) {
        Ok(ResumeAuthorizationOutcome::Approved(snapshot)) => {
            let held: Vec<u64> = snapshot.held.iter().map(|chunk| chunk.chunk_index).collect();
            assert_eq!(held, vec![0, 2]);
        }
        other => panic!("expected a snapshot, got {:?}", other),
    }
}
