use std::sync::Arc;

use bamep_server::clock::{
    deadline_from_millis, expiry, has_expiry, Clock, SystemClock, TimeSpan, Timestamp,
};
use bamep_server::endpoint_rows::TransitionOutcome;
use bamep_server::enrollment::{
    BootContext, BootOrchestrationService, BootstrapEvidenceResult, BootstrapEvidenceService,
    BootstrapStep, EnrollmentService, RedeemOutcome, RedeemResult, RedeemStep,
    RedemptionTarget, TrustedBootstrapOutcome, VerifiedAssertion,
};
use bamep_server::errors::{ApplicationError, DomainFault, EndpointUpdateError, RepositoryError};
use bamep_server::ids::{parse_canonical_uuid, uuid_is_v4, EndpointId};
use bamep_server::model::{
    Actor, CredentialChain, CredentialSlot, EndpointAggregate, HardwareConfidence, IdentityState,
};

type Enrollment = EnrollmentService<(), (), ()>;
type Bootstrap = BootstrapEvidenceService<(), ()>;

const NOW: Timestamp = Timestamp { seconds: 1_700_000_000, nanos: 250 };
const FIVE_MINUTES: TimeSpan = TimeSpan { seconds: 300, nanos: 0 };

#[derive(Debug, PartialEq)]
struct Credential {
    lookup_id: Vec<u8>,
    secret: Vec<u8>,
}

fn credential(seed: u8) -> Credential {
    Credential { lookup_id: vec![seed; 16], secret: vec![seed; 32] }
}

fn boot_nonce() -> Vec<u8> {
    vec![0x5A; 32]
}

fn service() -> BootOrchestrationService<()> {
    BootOrchestrationService::new(Arc::new(()), FIVE_MINUTES)
}

fn context(credential: &Credential, signal: &str, nonce: Vec<u8>) -> BootContext {
    service().issue_enrollment_credential(
        credential.lookup_id.clone(),
        credential.secret.clone(),
        signal,
        nonce,
        NOW,
    )
}

fn issued(
    credential: Credential,
    persisted: Result<(), RepositoryError>,
) -> Result<Credential, ApplicationError> {
    BootOrchestrationService::<()>::enrollment_credential_issued(credential, persisted)
}

#[test]
fn issuance_returns_a_valid_self_locating_enrollment_credential() {
    let presented = credential(1);
    let record = context(&presented, "sim-boot-orch-01", boot_nonce());
    let handed_out = issued(presented, Ok(())).expect("issuance must succeed");
    assert_eq!(handed_out.lookup_id, record.boot_context_id);
    match Enrollment::redeem(Some(handed_out)) {
        RedeemStep::LookUp(found) => assert_eq!(found.lookup_id, record.boot_context_id),
        RedeemStep::Rejected => panic!("a readable credential must be looked up"),
    }
}

#[test]
fn boot_context_is_durably_persisted_before_the_credential_is_returned() {
    let presented = credential(2);
    let mut persisted: Vec<BootContext> = Vec::new();
    persisted.push(context(&presented, "sim-boot-orch-02", boot_nonce()));
    let handed_out = issued(presented, Ok(())).expect("issuance must succeed");
    assert_eq!(persisted.len(), 1);
    assert_eq!(persisted[0].boot_context_id, handed_out.lookup_id);
}

#[test]
fn persisted_boot_context_matches_the_returned_credential() {
    let presented = credential(3);
    let record = context(&presented, "sim-boot-orch-03", boot_nonce());
    assert_eq!(record.boot_context_id, presented.lookup_id);
    assert_eq!(record.verifier, presented.secret);
    assert_eq!(record.issued_at, NOW);
    assert_eq!(record.expires_at, Timestamp { seconds: 1_700_000_300, nanos: 250 });
    assert_eq!(record.inventory_signal, "sim-boot-orch-03");
    assert_eq!(record.resolved_endpoint_id, None);
    assert_eq!(record.boot_nonce, boot_nonce());
}

#[test]
fn caller_supplied_boot_nonce_is_persisted_exactly_and_never_substituted() {
    let record = context(&credential(4), "sim-boot-orch-nonce-01", vec![0x77; 32]);
    assert_eq!(record.boot_nonce, vec![0x77; 32]);
}

#[test]
fn persistence_failure_yields_an_application_error_and_no_credential() {
    let fault = RepositoryError::Backend("simulated persistence failure".to_string());
    let err = issued(credential(5), Err(fault)).unwrap_err();
    assert!(matches!(err, ApplicationError::Repository(_)));
    assert_eq!(err.message(), "simulated persistence failure");
}

#[test]
fn a_span_carries_nanoseconds_over() {
    let start = Timestamp { seconds: -1, nanos: 600_000_000 };
    let span = TimeSpan { seconds: 0, nanos: 500_000_000 };
    assert_eq!(expiry(start, span), Timestamp { seconds: 0, nanos: 100_000_000 });
    let back = TimeSpan { seconds: -2, nanos: 0 };
    assert_eq!(expiry(start, back), Timestamp { seconds: -3, nanos: 600_000_000 });
}

#[test]
fn a_span_past_the_calendar_has_no_expiry() {
    let last = Timestamp { seconds: 8_210_266_876_799, nanos: 999_999_999 };
    assert!(has_expiry(NOW, FIVE_MINUTES));
    assert!(has_expiry(last, TimeSpan { seconds: 0, nanos: 0 }));
    assert!(!has_expiry(last, TimeSpan { seconds: 0, nanos: 1 }));
    assert!(has_expiry(last, TimeSpan { seconds: -1, nanos: 0 }));
    let first = Timestamp { seconds: -8_334_601_228_800, nanos: 0 };
    assert!(has_expiry(first, TimeSpan { seconds: 1, nanos: 0 }));
    assert!(!has_expiry(first, TimeSpan { seconds: -1, nanos: 999_999_999 }));
    assert!(!has_expiry(Timestamp { seconds: 0, nanos: 2_000_000_000 }, FIVE_MINUTES));
}

#[test]
fn deadlines_past_the_calendar_are_the_last_date() {
    assert_eq!(
        deadline_from_millis(1_700_000_000_123),
        Timestamp { seconds: 1_700_000_000, nanos: 123_000_000 }
    );
    assert_eq!(deadline_from_millis(-1), Timestamp { seconds: -1, nanos: 999_000_000 });
    let last = Timestamp { seconds: 8_210_266_876_799, nanos: 999_999_999 };
    assert_eq!(deadline_from_millis(i128::MAX), last);
    assert_eq!(deadline_from_millis(i128::MIN), last);
    assert_eq!(
        deadline_from_millis(8_210_266_876_799_999),
        Timestamp { seconds: 8_210_266_876_799, nanos: 999_000_000 }
    );
    assert_eq!(deadline_from_millis(8_210_266_876_800_000), last);
    assert_eq!(
        deadline_from_millis(-8_334_601_228_800_000),
        Timestamp { seconds: -8_334_601_228_800, nanos: 0 }
    );
    assert_eq!(deadline_from_millis(-8_334_601_228_800_001), last);
}

#[test]
fn the_system_clock_reads_a_date_after_it_was_written() {
    let now = SystemClock.now();
    assert!(now.seconds > 1_600_000_000);
    assert!(now.nanos < 1_000_000_000);
}

#[test]
fn only_the_canonical_spelling_is_read() {
    let value: u128 = 0x6f9619ff_8b86_4d01_b42d_00cf4fc964ff;
    assert_eq!(parse_canonical_uuid("6f9619ff-8b86-4d01-b42d-00cf4fc964ff"), Some(value));
    assert_eq!(parse_canonical_uuid("6F9619FF-8B86-4D01-B42D-00CF4FC964FF"), None);
    assert_eq!(parse_canonical_uuid("6f9619ff8b864d01b42d00cf4fc964ff"), None);
    assert_eq!(parse_canonical_uuid("{6f9619ff-8b86-4d01-b42d-00cf4fc964ff}"), None);
    assert_eq!(parse_canonical_uuid("urn:uuid:6f9619ff-8b86-4d01-b42d-00cf4fc964ff"), None);
    assert_eq!(parse_canonical_uuid(""), None);
    assert!(uuid_is_v4(value));
    assert!(!uuid_is_v4(0x6f9619ff_8b86_1d01_b42d_00cf4fc964ff));
    assert!(!uuid_is_v4(0x6f9619ff_8b86_4d01_742d_00cf4fc964ff));
}

fn verify(
    nonce: Option<Vec<u8>>,
    assertion: Option<VerifiedAssertion>,
    fingerprint: u8,
) -> Option<Vec<u8>> {
    match Bootstrap::verify_and_establish(nonce, assertion, &vec![fingerprint; 32]) {
        BootstrapStep::Establish { declared_nonce } => Some(declared_nonce),
        BootstrapStep::Done(result) => {
            assert_eq!(result, BootstrapEvidenceResult::Rejected);
            None
        }
    }
}

fn assertion(nonce: u8, fingerprint: u8) -> Option<VerifiedAssertion> {
    Some(VerifiedAssertion {
        boot_nonce: vec![nonce; 32],
        server_fingerprint: vec![fingerprint; 32],
    })
}

#[test]
fn bootstrap_evidence_has_to_agree_in_every_part() {
    assert_eq!(verify(Some(vec![1; 32]), assertion(1, 2), 2), Some(vec![1; 32]));
    assert_eq!(verify(None, assertion(1, 2), 2), None);
    assert_eq!(verify(Some(vec![1; 32]), None, 2), None);
    assert_eq!(verify(Some(vec![1; 32]), assertion(9, 2), 2), None);
    assert_eq!(verify(Some(vec![1; 32]), assertion(1, 9), 2), None);
    assert_eq!(verify(Some(vec![1; 31]), assertion(1, 2), 2), None);
}

#[test]
fn an_established_boot_is_what_the_record_says() {
    assert!(matches!(
        Bootstrap::established(Ok(TrustedBootstrapOutcome::Established)),
        Ok(BootstrapEvidenceResult::Established)
    ));
    assert!(matches!(
        Bootstrap::established(Ok(TrustedBootstrapOutcome::Rejected)),
        Ok(BootstrapEvidenceResult::Rejected)
    ));
    assert!(matches!(
        Bootstrap::established(Err(EndpointUpdateError::NotFound(EndpointId(3)))),
        Err(ApplicationError::EndpointNotFound(EndpointId(3)))
    ));
}

fn redeemed(target: RedemptionTarget<u8, u8>, generates: bool) -> String {
    let service = EnrollmentService::new(Arc::new(()), Arc::new(()), FIVE_MINUTES);
    let issued = |path: &str, presented: &String, fresh: &String, now, ttl| {
        assert_eq!((now, ttl), (NOW, FIVE_MINUTES));
        RedeemOutcome::Established {
            endpoint_id: EndpointId(7),
            issued: format!("{} {} {}", path, presented, fresh),
            issued_expires_at: NOW,
        }
    };
    let outcome = service.redemption("shown".to_string()).decide(
        target,
        NOW,
        || {
            assert!(generates);
            "fresh".to_string()
        },
        |endpoint: &u8, presented: &String, fresh: &String, now, ttl| {
            issued(&format!("known {}", endpoint), presented, fresh, now, ttl)
        },
        |context: &u8, presented: &String, fresh: &String, now, ttl| {
            Ok(issued(&format!("first {}", context), presented, fresh, now, ttl))
        },
        |context: &u8, endpoint: &u8, presented: &String, fresh: &String, now, ttl| {
            Ok(issued(&format!("reboot {} {}", context, endpoint), presented, fresh, now, ttl))
        },
    );
    match outcome {
        Ok(RedeemOutcome::Established { issued, .. }) => issued,
        Ok(RedeemOutcome::Rejected) => "rejected".to_string(),
        Err(_) => "failed".to_string(),
    }
}

#[test]
fn redemptions_are_routed_by_what_they_lead_to() {
    assert_eq!(redeemed(RedemptionTarget::Endpoint(1), true), "known 1 shown fresh");
    let context = |candidate_endpoint| RedemptionTarget::UnresolvedBootContext {
        context: 2,
        candidate_endpoint,
    };
    assert_eq!(redeemed(context(None), true), "first 2 shown fresh");
    assert_eq!(redeemed(context(Some(1)), true), "reboot 2 1 shown fresh");
    assert_eq!(redeemed(RedemptionTarget::UnknownBootContext, false), "rejected");
    assert_eq!(redeemed(RedemptionTarget::UnknownCredential, false), "rejected");
    assert!(matches!(Enrollment::redeem::<u8>(None), RedeemStep::Rejected));
}

#[test]
fn a_storage_fault_is_never_a_rejected_credential() {
    let fault = RepositoryError::Backend("down".to_string());
    assert!(matches!(
        Enrollment::redeemed::<u8>(Err(fault)),
        Err(ApplicationError::Repository(_))
    ));
    assert!(matches!(
        Enrollment::redeemed::<u8>(Ok(RedeemOutcome::Rejected)),
        Ok(RedeemResult::Rejected)
    ));
    match Enrollment::redeemed(Ok(RedeemOutcome::Established {
        endpoint_id: EndpointId(7),
        issued: 9u8,
        issued_expires_at: NOW,
    })) {
        Ok(RedeemResult::Established { endpoint_id, runtime_credential, credential_expires_at }) => {
            assert_eq!(endpoint_id, EndpointId(7));
            assert_eq!(runtime_credential, 9);
            assert_eq!(credential_expires_at, NOW);
        }
        other => panic!("expected an established endpoint, got {:?}", other),
    }
}

#[test]
fn operators_are_told_why_an_endpoint_was_not_updated() {
    let fault = || DomainFault { message: "endpoint is already enrolled".to_string() };
    assert!(Enrollment::approve_enrollment(Ok(())).is_ok());
    assert!(Enrollment::revoke_credential(Ok(())).is_ok());
    let err = Enrollment::approve_enrollment(Err(EndpointUpdateError::InvalidTransition(fault())))
        .unwrap_err();
    assert_eq!(err.message(), "endpoint is already enrolled");
    assert!(matches!(
        Enrollment::revoke_credential(Err(EndpointUpdateError::InvalidTransition(fault()))),
        Err(ApplicationError::InvalidTransition(_))
    ));
}

fn endpoint(revoked: bool) -> EndpointAggregate {
    EndpointAggregate {
        id: EndpointId(7),
        inventory_signal: "sim".to_string(),
        identity: IdentityState::Enrolled,
        credential: CredentialChain {
            predecessor: CredentialSlot {
                lookup_id: vec![1; 16],
                hash: vec![2; 48],
                issued_at: NOW,
                expires_at: NOW,
            },
            successor: None,
            revoked,
        },
        hardware_confidence: HardwareConfidence::Consistent,
        current_boot: None,
        created_at: NOW,
        updated_at: NOW,
    }
}

#[test]
fn an_operators_change_is_ruled_on_by_the_locked_endpoint() {
    let approved: Result<TransitionOutcome, &str> = Enrollment::decide_approval(
        &endpoint(false),
        Actor::Operator { label: "op-1".to_string() },
        NOW,
        |found: &EndpointAggregate, operator, now| {
            assert_eq!((found.id, now), (EndpointId(7), NOW));
            assert!(matches!(operator, Actor::Operator { label } if label == "op-1"));
            Err("already enrolled")
        },
    );
    assert_eq!(approved.unwrap_err(), "already enrolled");
    let revoked: Result<TransitionOutcome, ()> =
        Enrollment::decide_revocation(&endpoint(false), NOW, |found: &EndpointAggregate, now| {
            assert_eq!((found.id, found.credential.revoked, now), (EndpointId(7), false, NOW));
            TransitionOutcome { endpoint: endpoint(true), events: Vec::new(), audit: None }
        });
    assert!(revoked.unwrap().endpoint.credential.revoked);
}

#[test]
fn a_service_keeps_what_it_was_made_with() {
    let made = EnrollmentService::new(Arc::new(1u8), Arc::new(2u8), FIVE_MINUTES);
    assert_eq!(*made.endpoint_repo, 1);
    assert_eq!(*made.redemption_repo, 2);
    let longer = TimeSpan { seconds: 600, nanos: 0 };
    let made = made.with_credential_ttl(longer);
    assert_eq!(made.credential_ttl, longer);
    assert_eq!(*made.endpoint_repo, 1);
    let with_clock =
        EnrollmentService::with_clock(Arc::new(1u8), Arc::new(2u8), FIVE_MINUTES, Arc::new(3u8));
    assert_eq!(*with_clock.clock, 3);
}
