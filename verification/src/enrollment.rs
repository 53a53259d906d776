//! How an endpoint comes to be known and trusted: the credential it boots with,
//! its redemption, and the evidence of a trusted boot.

use vstd::prelude::*;
use std::sync::Arc;
use crate::bytes::same_bytes;
use crate::clock::{self, expiry, SystemClock, TimeSpan, Timestamp};
use crate::endpoint_rows::TransitionOutcome;
use crate::errors::{ApplicationError, EndpointUpdateError, RepositoryError};
use crate::ids::EndpointId;
use crate::model::{Actor, EndpointAggregate};

verus! {

/// What an endpoint's claim of a trusted boot came to.
#[derive(Clone, Copy, Debug, PartialEq, Eq, Structural)]
pub enum BootstrapEvidenceResult {
    Established,
    Rejected,
}

/// What a signed bootstrap assertion vouches for, once its signature holds.
#[derive(Debug)]
pub struct VerifiedAssertion {
    pub boot_nonce: Vec<u8>,
    pub server_fingerprint: Vec<u8>,
}

/// The evidence bears the claim out: the declared nonce could be read, the
/// assertion was verified, and the two of them and the connection agree.
pub open spec fn evidence_agrees(
    declared_nonce: Option<Vec<u8>>,
    assertion: Option<VerifiedAssertion>,
    connection_fingerprint: Seq<u8>,
) -> bool {
    &&& declared_nonce matches Some(nonce)
    &&& assertion matches Some(verified)
    &&& verified.boot_nonce@ == nonce@
    &&& verified.server_fingerprint@ == connection_fingerprint
}

/// How the endpoint's record took an established boot.
#[derive(Clone, Copy, Debug, PartialEq, Eq, Structural)]
pub enum TrustedBootstrapOutcome {
    Established,
    Rejected,
}

/// The next step for a claim of a trusted boot.
#[derive(Debug)]
pub enum BootstrapStep {
    /// The endpoint's current boot is to be compared with this nonce, under the
    /// endpoint's lock.
    Establish { declared_nonce: Vec<u8> },
    Done(BootstrapEvidenceResult),
}

/// Checks claims of a trusted boot.
pub struct BootstrapEvidenceService<R, K> {
    pub repo: Arc<R>,
    pub accepted_site_keys: K,
}

impl<R, K> BootstrapEvidenceService<R, K> {
    pub fn new(repo: Arc<R>, accepted_site_keys: K) -> (r: Self)
        ensures
            r.repo == repo,
            r.accepted_site_keys == accepted_site_keys,
    {
        BootstrapEvidenceService { repo, accepted_site_keys }
    }

    /// Starts the check of a claim. Whatever is wrong with it, the answer is the
    /// same, and the endpoint's record is not touched.
    pub fn verify_and_establish(
        declared_nonce: Option<Vec<u8>>,
        assertion: Option<VerifiedAssertion>,
        connection_fingerprint: &Vec<u8>,
    ) -> (r: BootstrapStep)
        ensures
            if evidence_agrees(declared_nonce, assertion, connection_fingerprint@) {
                r == (BootstrapStep::Establish { declared_nonce: declared_nonce->Some_0 })
            } else {
                r == BootstrapStep::Done(BootstrapEvidenceResult::Rejected)
            },
    {
        let nonce = match declared_nonce {
            Some(nonce) => nonce,
            None => {
                return BootstrapStep::Done(BootstrapEvidenceResult::Rejected);
            },
        };
        let verified = match assertion {
            Some(verified) => verified,
            None => {
                return BootstrapStep::Done(BootstrapEvidenceResult::Rejected);
            },
        };
        if !same_bytes(&verified.boot_nonce, &nonce) || !same_bytes(
            &verified.server_fingerprint,
            connection_fingerprint,
        ) {
            return BootstrapStep::Done(BootstrapEvidenceResult::Rejected);
        }
        BootstrapStep::Establish { declared_nonce: nonce }
    }

    /// What the claim came to once the endpoint's record was asked.
    pub fn established(outcome: Result<TrustedBootstrapOutcome, EndpointUpdateError>) -> (r: Result<
        BootstrapEvidenceResult,
        ApplicationError,
    >)
        ensures
            match outcome {
                Ok(TrustedBootstrapOutcome::Established) => r == Ok::<
                    BootstrapEvidenceResult,
                    ApplicationError,
                >(BootstrapEvidenceResult::Established),
                Ok(TrustedBootstrapOutcome::Rejected) => r == Ok::<
                    BootstrapEvidenceResult,
                    ApplicationError,
                >(BootstrapEvidenceResult::Rejected),
                Err(error) => r == Err::<BootstrapEvidenceResult, ApplicationError>(
                    update_refusal(error),
                ),
            },
    {
        match outcome {
            Ok(TrustedBootstrapOutcome::Established) => Ok(BootstrapEvidenceResult::Established),
            Ok(TrustedBootstrapOutcome::Rejected) => Ok(BootstrapEvidenceResult::Rejected),
            Err(error) => Err(ApplicationError::from(error)),
        }
    }
}

/// The error for an endpoint that could not be updated.
pub open spec fn update_refusal(error: EndpointUpdateError) -> ApplicationError {
    match error {
        EndpointUpdateError::NotFound(id) => ApplicationError::EndpointNotFound(id),
        EndpointUpdateError::InvalidTransition(fault) => ApplicationError::InvalidTransition(fault),
        EndpointUpdateError::Repository(fault) => ApplicationError::Repository(fault),
    }
}

/// What is kept about a credential that an endpoint boots with: the verifier,
/// never the secret.
#[derive(Debug)]
pub struct BootContext {
    pub boot_context_id: Vec<u8>,
    pub verifier: Vec<u8>,
    pub issued_at: Timestamp,
    pub expires_at: Timestamp,
    pub inventory_signal: String,
    pub resolved_endpoint_id: Option<EndpointId>,
    pub boot_nonce: Vec<u8>,
}

/// Issues the credentials that endpoints boot with.
pub struct BootOrchestrationService<R> {
    pub repo: Arc<R>,
    pub enrollment_ttl: TimeSpan,
}

impl<R> BootOrchestrationService<R> {
    pub fn new(repo: Arc<R>, enrollment_ttl: TimeSpan) -> (r: Self)
        ensures
            r.repo == repo,
            r.enrollment_ttl == enrollment_ttl,
    {
        BootOrchestrationService { repo, enrollment_ttl }
    }

    /// The record of a fresh credential, to be persisted before the credential
    /// is handed to anyone. The nonce is the caller's, unchanged.
    pub fn issue_enrollment_credential(
        &self,
        lookup_id: Vec<u8>,
        verifier: Vec<u8>,
        inventory_signal: &str,
        boot_nonce: Vec<u8>,
        now: Timestamp,
    ) -> (r: BootContext)
        requires
            now.valid(),
            self.enrollment_ttl.valid(),
            clock::has_date(now.total() + self.enrollment_ttl.total()),
        ensures
            r.boot_context_id == lookup_id,
            r.verifier == verifier,
            r.issued_at == now,
            r.expires_at.valid(),
            r.expires_at.total() == now.total() + self.enrollment_ttl.total(),
            r.inventory_signal@ == inventory_signal@,
            r.resolved_endpoint_id is None,
            r.boot_nonce == boot_nonce,
    {
        BootContext {
            boot_context_id: lookup_id,
            verifier,
            issued_at: now,
            expires_at: expiry(now, self.enrollment_ttl),
            inventory_signal: inventory_signal.to_owned(),
            resolved_endpoint_id: None,
            boot_nonce,
        }
    }

    /// Hands the credential out, if and only if its record was persisted.
    pub fn enrollment_credential_issued<P>(
        credential: P,
        persisted: Result<(), RepositoryError>,
    ) -> (r: Result<P, ApplicationError>)
        ensures
            match persisted {
                Ok(()) => r == Ok::<P, ApplicationError>(credential),
                Err(fault) => r == Err::<P, ApplicationError>(ApplicationError::Repository(fault)),
            },
    {
        match persisted {
            Ok(()) => Ok(credential),
            Err(fault) => Err(ApplicationError::Repository(fault)),
        }
    }
}

/// What a presented credential leads to, read under the lock of whatever it
/// leads to.
#[derive(Debug)]
pub enum RedemptionTarget<A, B> {
    Endpoint(A),
    UnresolvedBootContext { context: B, candidate_endpoint: Option<A> },
    UnknownBootContext,
    UnknownCredential,
}

/// What a redemption came to.
#[derive(Debug)]
pub enum RedeemOutcome<P> {
    Established { endpoint_id: EndpointId, issued: P, issued_expires_at: Timestamp },
    Rejected,
}

/// What whoever presented a credential is told.
#[derive(Debug)]
pub enum RedeemResult<P> {
    Established {
        endpoint_id: EndpointId,
        runtime_credential: P,
        credential_expires_at: Timestamp,
    },
    Rejected,
}

/// The first step of a redemption.
#[derive(Debug)]
pub enum RedeemStep<P> {
    /// The credential could be read; what it leads to is to be looked up.
    LookUp(P),
    Rejected,
}

/// Enrolls endpoints.
pub struct EnrollmentService<R, C, K> {
    pub endpoint_repo: Arc<R>,
    pub redemption_repo: Arc<C>,
    pub credential_ttl: TimeSpan,
    pub clock: Arc<K>,
}

impl<R, C> EnrollmentService<R, C, SystemClock> {
    /// With the real clock.
    pub fn new(
        endpoint_repo: Arc<R>,
        redemption_repo: Arc<C>,
        credential_ttl: TimeSpan,
    ) -> (r: Self)
        ensures
            r.endpoint_repo == endpoint_repo,
            r.redemption_repo == redemption_repo,
            r.credential_ttl == credential_ttl,
    {
        EnrollmentService { endpoint_repo, redemption_repo, credential_ttl, clock: Arc::new(SystemClock) }
    }
}

impl<R, C, K> EnrollmentService<R, C, K> {
    pub fn with_clock(
        endpoint_repo: Arc<R>,
        redemption_repo: Arc<C>,
        credential_ttl: TimeSpan,
        clock: Arc<K>,
    ) -> (r: Self)
        ensures
            r.endpoint_repo == endpoint_repo,
            r.redemption_repo == redemption_repo,
            r.credential_ttl == credential_ttl,
            r.clock == clock,
    {
        EnrollmentService { endpoint_repo, redemption_repo, credential_ttl, clock }
    }

    pub fn with_credential_ttl(self, ttl: TimeSpan) -> (r: Self)
        ensures
            r.credential_ttl == ttl,
            r.endpoint_repo == self.endpoint_repo,
            r.redemption_repo == self.redemption_repo,
            r.clock == self.clock,
    {
        EnrollmentService {
            endpoint_repo: self.endpoint_repo,
            redemption_repo: self.redemption_repo,
            credential_ttl: ttl,
            clock: self.clock,
        }
    }

    /// Starts a redemption. What cannot be read as a credential is rejected like
    /// any other.
    pub fn redeem<P>(presented: Option<P>) -> (r: RedeemStep<P>)
        ensures
            match presented {
                Some(credential) => r == RedeemStep::LookUp(credential),
                None => r is Rejected,
            },
    {
        match presented {
            Some(credential) => RedeemStep::LookUp(credential),
            None => RedeemStep::Rejected,
        }
    }

    /// A redemption of a credential that could be read, with the lifetime that this
    /// service gives to what it issues.
    pub fn redemption<P>(&self, presented: P) -> (r: Redemption<P>)
        ensures
            r.presented == presented,
            r.ttl == self.credential_ttl,
    {
        Redemption { presented, ttl: self.credential_ttl }
    }

    /// What is told once a redemption was committed or refused. A failure of the
    /// storage is never passed off as a rejected credential.
    pub fn redeemed<P>(outcome: Result<RedeemOutcome<P>, RepositoryError>) -> (r: Result<
        RedeemResult<P>,
        ApplicationError,
    >)
        ensures
            match outcome {
                Ok(RedeemOutcome::Established { endpoint_id, issued, issued_expires_at }) => r
                    == Ok::<RedeemResult<P>, ApplicationError>(
                    RedeemResult::Established {
                        endpoint_id,
                        runtime_credential: issued,
                        credential_expires_at: issued_expires_at,
                    },
                ),
                Ok(RedeemOutcome::Rejected) => r == Ok::<RedeemResult<P>, ApplicationError>(
                    RedeemResult::Rejected,
                ),
                Err(fault) => r == Err::<RedeemResult<P>, ApplicationError>(
                    ApplicationError::Repository(fault),
                ),
            },
    {
        match outcome {
            Ok(RedeemOutcome::Established { endpoint_id, issued, issued_expires_at }) => Ok(
                RedeemResult::Established {
                    endpoint_id,
                    runtime_credential: issued,
                    credential_expires_at: issued_expires_at,
                },
            ),
            Ok(RedeemOutcome::Rejected) => Ok(RedeemResult::Rejected),
            Err(fault) => Err(ApplicationError::Repository(fault)),
        }
    }

    /// Decides, under the endpoint's lock, about an approval: the rule is asked about
    /// the locked endpoint, the operator and this moment.
    pub fn decide_approval<
        E,
        F: FnOnce(&EndpointAggregate, Actor, Timestamp) -> Result<TransitionOutcome, E>,
    >(endpoint: &EndpointAggregate, operator: Actor, now: Timestamp, rule: F) -> (r: Result<
        TransitionOutcome,
        E,
    >)
        requires
            call_requires(rule, (endpoint, operator, now)),
        ensures
            call_ensures(rule, (endpoint, operator, now), r),
    {
        rule(endpoint, operator, now)
    }

    /// What an operator is told about an approval.
    pub fn approve_enrollment(updated: Result<(), EndpointUpdateError>) -> (r: Result<
        (),
        ApplicationError,
    >)
        ensures
            match updated {
                Ok(()) => r == Ok::<(), ApplicationError>(()),
                Err(error) => r == Err::<(), ApplicationError>(update_refusal(error)),
            },
    {
        match updated {
            Ok(()) => Ok(()),
            Err(error) => Err(ApplicationError::from(error)),
        }
    }

    /// Decides, under the endpoint's lock, about a revocation, which is never
    /// refused: the rule is asked about the locked endpoint and this moment.
    pub fn decide_revocation<E, F: FnOnce(&EndpointAggregate, Timestamp) -> TransitionOutcome>(
        endpoint: &EndpointAggregate,
        now: Timestamp,
        rule: F,
    ) -> (r: Result<TransitionOutcome, E>)
        requires
            call_requires(rule, (endpoint, now)),
        ensures
            r matches Ok(outcome) && call_ensures(rule, (endpoint, now), outcome),
    {
        Ok(rule(endpoint, now))
    }

    /// What an operator is told about a revocation.
    pub fn revoke_credential(updated: Result<(), EndpointUpdateError>) -> (r: Result<
        (),
        ApplicationError,
    >)
        ensures
            match updated {
                Ok(()) => r == Ok::<(), ApplicationError>(()),
                Err(error) => r == Err::<(), ApplicationError>(update_refusal(error)),
            },
    {
        match updated {
            Ok(()) => Ok(()),
            Err(error) => Err(ApplicationError::from(error)),
        }
    }
}

/// A redemption under way: what it leads to is still to be locked.
#[derive(Debug)]
pub struct Redemption<P> {
    pub presented: P,
    /// How long a credential that it issues is good for.
    pub ttl: TimeSpan,
}

impl<P> Redemption<P> {
    /// Decides, under the lock of whatever the credential leads to. A fresh
    /// credential is generated for every path that may issue one; the rule of that
    /// path is asked about what is locked, what was presented, the fresh
    /// credential, this moment and the lifetime. A credential that leads nowhere
    /// is rejected, and nothing is generated for it.
    pub fn decide<
        A,
        B,
        G: FnOnce() -> P,
        K: FnOnce(&A, &P, &P, Timestamp, TimeSpan) -> RedeemOutcome<P>,
        F: FnOnce(&B, &P, &P, Timestamp, TimeSpan) -> Result<RedeemOutcome<P>, RepositoryError>,
        R: FnOnce(&B, &A, &P, &P, Timestamp, TimeSpan) -> Result<
            RedeemOutcome<P>,
            RepositoryError,
        >,
    >(
        &self,
        target: RedemptionTarget<A, B>,
        now: Timestamp,
        generate: G,
        redeem_known: K,
        first_contact: F,
        genuine_reboot: R,
    ) -> (r: Result<RedeemOutcome<P>, RepositoryError>)
        requires
            match target {
                RedemptionTarget::Endpoint(endpoint) => {
                    &&& call_requires(generate, ())
                    &&& forall|fresh: P| #[trigger]
                        call_requires(
                            redeem_known,
                            (&endpoint, &self.presented, &fresh, now, self.ttl),
                        )
                },
                RedemptionTarget::UnresolvedBootContext { context, candidate_endpoint: None } => {
                    &&& call_requires(generate, ())
                    &&& forall|fresh: P| #[trigger]
                        call_requires(
                            first_contact,
                            (&context, &self.presented, &fresh, now, self.ttl),
                        )
                },
                RedemptionTarget::UnresolvedBootContext {
                    context,
                    candidate_endpoint: Some(endpoint),
                } => {
                    &&& call_requires(generate, ())
                    &&& forall|fresh: P| #[trigger]
                        call_requires(
                            genuine_reboot,
                            (&context, &endpoint, &self.presented, &fresh, now, self.ttl),
                        )
                },
                RedemptionTarget::UnknownBootContext | RedemptionTarget::UnknownCredential => true,
            },
        ensures
            match target {
                RedemptionTarget::Endpoint(endpoint) => exists|fresh: P| #[trigger]
                    call_ensures(generate, (), fresh) && (r matches Ok(outcome) && call_ensures(
                        redeem_known,
                        (&endpoint, &self.presented, &fresh, now, self.ttl),
                        outcome,
                    )),
                RedemptionTarget::UnresolvedBootContext { context, candidate_endpoint: None } =>
                    exists|fresh: P| #[trigger]
                    call_ensures(generate, (), fresh) && call_ensures(
                        first_contact,
                        (&context, &self.presented, &fresh, now, self.ttl),
                        r,
                    ),
                RedemptionTarget::UnresolvedBootContext {
                    context,
                    candidate_endpoint: Some(endpoint),
                } => exists|fresh: P| #[trigger]
                    call_ensures(generate, (), fresh) && call_ensures(
                        genuine_reboot,
                        (&context, &endpoint, &self.presented, &fresh, now, self.ttl),
                        r,
                    ),
                RedemptionTarget::UnknownBootContext | RedemptionTarget::UnknownCredential => r
                    == Ok::<RedeemOutcome<P>, RepositoryError>(RedeemOutcome::Rejected),
            },
    {
        match target {
            RedemptionTarget::Endpoint(endpoint) => {
                let fresh = generate();
                Ok(redeem_known(&endpoint, &self.presented, &fresh, now, self.ttl))
            },
            RedemptionTarget::UnresolvedBootContext { context, candidate_endpoint: None } => {
                let fresh = generate();
                first_contact(&context, &self.presented, &fresh, now, self.ttl)
            },
            RedemptionTarget::UnresolvedBootContext {
                context,
                candidate_endpoint: Some(endpoint),
            } => {
                let fresh = generate();
                genuine_reboot(&context, &endpoint, &self.presented, &fresh, now, self.ttl)
            },
            RedemptionTarget::UnknownBootContext | RedemptionTarget::UnknownCredential => Ok(
                RedeemOutcome::Rejected,
            ),
        }
    }
}

/// A claim of a trusted boot goes on exactly where a nonce was declared and a verified
/// assertion vouches for that nonce and for this connection; it goes on with the
/// nonce that was declared. Any other is rejected.
pub proof fn claim_needs_a_fitting_assertion<R, K>(
    declared_nonce: Option<Vec<u8>>,
    assertion: Option<VerifiedAssertion>,
    connection_fingerprint: Vec<u8>,
    step: BootstrapStep,
)
    requires
        call_ensures(
            BootstrapEvidenceService::<R, K>::verify_and_establish,
            (declared_nonce, assertion, &connection_fingerprint),
            step,
        ),
    ensures
        step is Establish <==> (declared_nonce matches Some(nonce) && (assertion
            matches Some(verified) && verified.boot_nonce@ == nonce@
            && verified.server_fingerprint@ == connection_fingerprint@)),
        step matches BootstrapStep::Establish { declared_nonce: nonce } ==> declared_nonce == Some(
            nonce,
        ),
        step matches BootstrapStep::Done(result) ==> result == BootstrapEvidenceResult::Rejected,
{
}

/// What the endpoint's record says of a claim is what the claim comes to; a failure is
/// never a rejection.
pub proof fn claim_comes_to_what_the_record_says<R, K>(
    outcome: Result<TrustedBootstrapOutcome, EndpointUpdateError>,
    r: Result<BootstrapEvidenceResult, ApplicationError>,
)
    requires
        call_ensures(BootstrapEvidenceService::<R, K>::established, (outcome,), r),
    ensures
        outcome is Ok <==> r is Ok,
        outcome matches Ok(TrustedBootstrapOutcome::Established) <==> r matches Ok(
            BootstrapEvidenceResult::Established,
        ),
        outcome matches Ok(TrustedBootstrapOutcome::Rejected) <==> r matches Ok(
            BootstrapEvidenceResult::Rejected,
        ),
        outcome matches Err(EndpointUpdateError::NotFound(id)) ==> (r matches Err(
            ApplicationError::EndpointNotFound(same),
        ) && same == id),
        outcome matches Err(EndpointUpdateError::InvalidTransition(fault)) ==> (r matches Err(
            ApplicationError::InvalidTransition(same),
        ) && same == fault),
        outcome matches Err(EndpointUpdateError::Repository(fault)) ==> (r matches Err(
            ApplicationError::Repository(same),
        ) && same == fault),
{
}

/// A fresh credential's record holds what identifies it, the caller's signal and
/// nonce, and a lifetime of the service's length from now; it is no endpoint's yet.
pub proof fn fresh_credential_is_recorded_as_issued<R>(
    service: BootOrchestrationService<R>,
    lookup_id: Vec<u8>,
    verifier: Vec<u8>,
    inventory_signal: &str,
    boot_nonce: Vec<u8>,
    now: Timestamp,
    r: BootContext,
)
    requires
        call_ensures(
            BootOrchestrationService::<R>::issue_enrollment_credential,
            (&service, lookup_id, verifier, inventory_signal, boot_nonce, now),
            r,
        ),
    ensures
        r.boot_context_id == lookup_id,
        r.verifier == verifier,
        r.issued_at == now,
        r.expires_at.total() - r.issued_at.total() == service.enrollment_ttl.total(),
        r.inventory_signal@ == inventory_signal@,
        r.resolved_endpoint_id is None,
        r.boot_nonce == boot_nonce,
{
}

/// A credential is handed out exactly where its record was persisted.
pub proof fn credential_is_handed_out_once_recorded<R, P>(
    credential: P,
    persisted: Result<(), RepositoryError>,
    r: Result<P, ApplicationError>,
)
    requires
        call_ensures(
            BootOrchestrationService::<R>::enrollment_credential_issued::<P>,
            (credential, persisted),
            r,
        ),
    ensures
        persisted is Ok <==> r is Ok,
        r matches Ok(handed) ==> handed == credential,
        persisted matches Err(fault) ==> (r matches Err(ApplicationError::Repository(same)) && same
            == fault),
{
}

/// What cannot be read as a credential is rejected; anything else is looked up as it
/// was presented.
pub proof fn only_a_readable_credential_is_looked_up<R, C, K, P>(
    presented: Option<P>,
    step: RedeemStep<P>,
)
    requires
        call_ensures(EnrollmentService::<R, C, K>::redeem::<P>, (presented,), step),
    ensures
        step is Rejected <==> presented is None,
        step matches RedeemStep::LookUp(credential) ==> presented == Some(credential),
{
}

/// A redemption carries what was presented and the service's own lifetime.
pub proof fn redemption_carries_the_services_lifetime<R, C, K, P>(
    service: EnrollmentService<R, C, K>,
    presented: P,
    r: Redemption<P>,
)
    requires
        call_ensures(EnrollmentService::<R, C, K>::redemption::<P>, (&service, presented), r),
    ensures
        r.presented == presented,
        r.ttl == service.credential_ttl,
{
}

/// A redemption is told as it came out: to an endpoint with the credential that was
/// issued and its expiry, or as rejected; a failure of the storage is neither.
pub proof fn redemption_is_told_as_it_came_out<R, C, K, P>(
    outcome: Result<RedeemOutcome<P>, RepositoryError>,
    r: Result<RedeemResult<P>, ApplicationError>,
)
    requires
        call_ensures(EnrollmentService::<R, C, K>::redeemed::<P>, (outcome,), r),
    ensures
        outcome is Err <==> r is Err,
        outcome matches Ok(RedeemOutcome::Rejected) <==> r matches Ok(RedeemResult::Rejected),
        outcome matches Ok(
            RedeemOutcome::Established { endpoint_id, issued, issued_expires_at },
        ) ==> (r matches Ok(
            RedeemResult::Established {
                endpoint_id: endpoint,
                runtime_credential,
                credential_expires_at,
            },
        ) && endpoint == endpoint_id && runtime_credential == issued && credential_expires_at
            == issued_expires_at),
        outcome matches Err(fault) ==> (r matches Err(ApplicationError::Repository(same)) && same
            == fault),
{
}

/// What a credential leads to decides which rule is asked. A known endpoint's rule
/// never redeems a boot context, and the other way round; a context with a candidate
/// is a reboot, one without a first contact; what leads nowhere is rejected.
pub proof fn redemption_asks_the_rule_of_what_it_leads_to<
    P,
    A,
    B,
    G: FnOnce() -> P,
    K: FnOnce(&A, &P, &P, Timestamp, TimeSpan) -> RedeemOutcome<P>,
    F: FnOnce(&B, &P, &P, Timestamp, TimeSpan) -> Result<RedeemOutcome<P>, RepositoryError>,
    R: FnOnce(&B, &A, &P, &P, Timestamp, TimeSpan) -> Result<RedeemOutcome<P>, RepositoryError>,
>(
    redemption: Redemption<P>,
    target: RedemptionTarget<A, B>,
    now: Timestamp,
    generate: G,
    redeem_known: K,
    first_contact: F,
    genuine_reboot: R,
    r: Result<RedeemOutcome<P>, RepositoryError>,
)
    requires
        call_ensures(
            Redemption::<P>::decide::<A, B, G, K, F, R>,
            (&redemption, target, now, generate, redeem_known, first_contact, genuine_reboot),
            r,
        ),
    ensures
        target is UnknownCredential || target is UnknownBootContext ==> (r matches Ok(outcome)
            && outcome is Rejected),
        target matches RedemptionTarget::Endpoint(endpoint) ==> exists|fresh: P| #[trigger]
            call_ensures(generate, (), fresh) && (r matches Ok(outcome) && call_ensures(
                redeem_known,
                (&endpoint, &redemption.presented, &fresh, now, redemption.ttl),
                outcome,
            )),
        target matches RedemptionTarget::UnresolvedBootContext {
            context,
            candidate_endpoint: None,
        } ==> exists|fresh: P| #[trigger]
            call_ensures(generate, (), fresh) && call_ensures(
                first_contact,
                (&context, &redemption.presented, &fresh, now, redemption.ttl),
                r,
            ),
        target matches RedemptionTarget::UnresolvedBootContext {
            context,
            candidate_endpoint: Some(candidate),
        } ==> exists|fresh: P| #[trigger]
            call_ensures(generate, (), fresh) && call_ensures(
                genuine_reboot,
                (&context, &candidate, &redemption.presented, &fresh, now, redemption.ttl),
                r,
            ),
{
}

/// An approval and a revocation are ruled on for the locked endpoint, at this moment,
/// and an approval for the operator who asks; a revocation is never refused.
pub proof fn operators_changes_are_ruled_on_for_the_locked_endpoint<
    S,
    C,
    K,
    E,
    F: FnOnce(&EndpointAggregate, Actor, Timestamp) -> Result<TransitionOutcome, E>,
    G: FnOnce(&EndpointAggregate, Timestamp) -> TransitionOutcome,
>(
    endpoint: EndpointAggregate,
    operator: Actor,
    now: Timestamp,
    approve: F,
    revoke: G,
    approved: Result<TransitionOutcome, E>,
    revoked: Result<TransitionOutcome, E>,
)
    requires
        call_ensures(
            EnrollmentService::<S, C, K>::decide_approval::<E, F>,
            (&endpoint, operator, now, approve),
            approved,
        ),
        call_ensures(
            EnrollmentService::<S, C, K>::decide_revocation::<E, G>,
            (&endpoint, now, revoke),
            revoked,
        ),
    ensures
        call_ensures(approve, (&endpoint, operator, now), approved),
        revoked matches Ok(outcome) && call_ensures(revoke, (&endpoint, now), outcome),
{
}

/// An operator is told that a change was made exactly where it was.
pub proof fn operator_is_told_what_became_of_a_change<R, C, K>(
    updated: Result<(), EndpointUpdateError>,
    approved: Result<(), ApplicationError>,
    revoked: Result<(), ApplicationError>,
)
    requires
        call_ensures(EnrollmentService::<R, C, K>::approve_enrollment, (updated,), approved),
        call_ensures(EnrollmentService::<R, C, K>::revoke_credential, (updated,), revoked),
    ensures
        approved == revoked,
        updated is Ok <==> approved is Ok,
        updated matches Err(EndpointUpdateError::NotFound(id)) ==> (approved matches Err(
            ApplicationError::EndpointNotFound(same),
        ) && same == id),
        updated matches Err(EndpointUpdateError::InvalidTransition(fault)) ==> (approved
            matches Err(ApplicationError::InvalidTransition(same)) && same == fault),
        updated matches Err(EndpointUpdateError::Repository(fault)) ==> (approved matches Err(
            ApplicationError::Repository(same),
        ) && same == fault),
{
}

} // verus!
