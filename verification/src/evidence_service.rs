//! The services that evidence goes through: what a caller is told about
//! committed evidence, and whose reservation is given back.

use vstd::prelude::*;
use std::sync::Arc;
use crate::clock::SystemClock;
use crate::errors::{ApplicationError, ApplyActionEvidenceError, RepositoryError};
use crate::evidence::{EvidenceApplied, EvidenceResult};
use crate::ids::{AttemptId, ReservationId};
use crate::reservations::AttemptReservationRegistry;

verus! {

/// What a caller is told, and the reservation that is now to be released.
#[derive(Debug)]
pub struct Settled<T> {
    pub told: T,
    pub release: Option<ReservationId>,
}

/// What is taken out of the registry for `attempt`.
pub open spec fn held_by(registry: Map<u128, ReservationId>, attempt: AttemptId) -> Option<
    ReservationId,
> {
    if registry.dom().contains(attempt.0) {
        Some(registry[attempt.0])
    } else {
        None
    }
}

/// The reservation is taken out of the registry, and is there for the taking
/// only, when the attempt ended.
pub open spec fn settles(
    before: Map<u128, ReservationId>,
    after: Map<u128, ReservationId>,
    ended: Option<AttemptId>,
    release: Option<ReservationId>,
) -> bool {
    match ended {
        Some(attempt) => after == before.remove(attempt.0) && release == held_by(before, attempt),
        None => after == before && release is None,
    }
}

/// The attempt that an applied outcome ended, if it ended one.
pub open spec fn ended_by(applied: EvidenceApplied) -> Option<AttemptId> {
    if applied.terminal {
        Some(applied.attempt.id)
    } else {
        None
    }
}

/// The attempt that a committed result ended, if it ended one.
pub open spec fn ended_by_result(result: EvidenceResult) -> Option<AttemptId> {
    match result {
        EvidenceResult::Applied(applied) => ended_by(applied),
        _ => None,
    }
}

pub(crate) fn settle(registry: &mut AttemptReservationRegistry, applied: &EvidenceApplied) -> (r: Option<
    ReservationId,
>)
    ensures
        settles(old(registry)@, final(registry)@, ended_by(*applied), r),
{
    if applied.terminal {
        registry.take(applied.attempt.id)
    } else {
        None
    }
}

/// However often the end of one attempt is reported, its reservation is handed
/// out for release once: whoever comes after the first finds nothing.
pub proof fn reservation_is_released_once(
    registry: Map<u128, ReservationId>,
    after_first: Map<u128, ReservationId>,
    after_second: Map<u128, ReservationId>,
    attempt: AttemptId,
    first: Option<ReservationId>,
    second: Option<ReservationId>,
)
    requires
        settles(registry, after_first, Some(attempt), first),
        settles(after_first, after_second, Some(attempt), second),
    ensures
        second is None,
        first == held_by(registry, attempt),
        after_second == after_first,
{
    assert(after_second =~= after_first);
}

/// The end of one attempt leaves every other attempt's reservation in place.
pub proof fn other_reservations_stay(
    registry: Map<u128, ReservationId>,
    after: Map<u128, ReservationId>,
    ended: AttemptId,
    other: AttemptId,
    release: Option<ReservationId>,
)
    requires
        settles(registry, after, Some(ended), release),
        other != ended,
    ensures
        held_by(after, other) == held_by(registry, other),
{
}

/// Evidence that leaves the attempt's outcome open releases nothing.
pub proof fn open_outcome_releases_nothing(
    registry: Map<u128, ReservationId>,
    after: Map<u128, ReservationId>,
    applied: EvidenceApplied,
    release: Option<ReservationId>,
)
    requires
        !applied.terminal,
        settles(registry, after, ended_by(applied), release),
    ensures
        release is None,
        after == registry,
{
}

/// Told for committed evidence, or for evidence that was refused.
pub open spec fn told_result(
    committed: Result<EvidenceResult, ApplyActionEvidenceError>,
) -> Result<EvidenceResult, ApplicationError> {
    match committed {
        Ok(result) => Ok(result),
        Err(ApplyActionEvidenceError::UnknownAction) => Err(ApplicationError::UnknownAction),
        Err(ApplyActionEvidenceError::Repository(fault)) => Err(
            ApplicationError::Repository(fault),
        ),
    }
}

/// The attempt that a commit ended, if there was one and it ended one.
pub open spec fn ended_by_commit(
    committed: Result<EvidenceResult, ApplyActionEvidenceError>,
) -> Option<AttemptId> {
    match committed {
        Ok(result) => ended_by_result(result),
        Err(_) => None,
    }
}

pub(crate) fn settle_commit(
    registry: &mut AttemptReservationRegistry,
    committed: Result<EvidenceResult, ApplyActionEvidenceError>,
) -> (r: Settled<Result<EvidenceResult, ApplicationError>>)
    ensures
        r.told == told_result(committed),
        settles(old(registry)@, final(registry)@, ended_by_commit(committed), r.release),
{
    match committed {
        Ok(EvidenceResult::Applied(applied)) => {
            let release = settle(registry, &applied);
            Settled { told: Ok(EvidenceResult::Applied(applied)), release }
        },
        Ok(result) => Settled { told: Ok(result), release: None },
        Err(error) => Settled { told: Err(ApplicationError::from(error)), release: None },
    }
}

/// Applies acknowledgements and results of connected agents.
pub struct ActionEvidenceService<R, G, A, C> {
    pub repo: Arc<R>,
    pub reservations: Arc<G>,
    pub arbiter: Arc<A>,
    pub clock: Arc<C>,
}

impl<R, G, A> ActionEvidenceService<R, G, A, SystemClock> {
    /// With the real clock.
    pub fn new(repo: Arc<R>, reservations: Arc<G>, arbiter: Arc<A>) -> (r: Self)
        ensures
            r.repo == repo,
            r.reservations == reservations,
            r.arbiter == arbiter,
    {
        ActionEvidenceService { repo, reservations, arbiter, clock: Arc::new(SystemClock) }
    }
}

impl<R, G, A, C> ActionEvidenceService<R, G, A, C> {
    pub fn with_clock(
        repo: Arc<R>,
        reservations: Arc<G>,
        arbiter: Arc<A>,
        clock: Arc<C>,
    ) -> (r: Self)
        ensures
            r.repo == repo,
            r.reservations == reservations,
            r.arbiter == arbiter,
            r.clock == clock,
    {
        ActionEvidenceService { repo, reservations, arbiter, clock }
    }

    /// Concludes the application of evidence: an action that is unknown, or
    /// another endpoint's, is one and the same error; an attempt that ended
    /// gives its reservation back.
    pub fn apply(
        registry: &mut AttemptReservationRegistry,
        committed: Result<EvidenceResult, ApplyActionEvidenceError>,
    ) -> (r: Settled<Result<EvidenceResult, ApplicationError>>)
        ensures
            r.told == told_result(committed),
            settles(old(registry)@, final(registry)@, ended_by_commit(committed), r.release),
    {
        settle_commit(registry, committed)
    }

    /// Whether an action belongs to the endpoint; a plain read.
    pub fn action_belongs_to_endpoint(targets: Result<bool, RepositoryError>) -> (r: Result<
        bool,
        ApplicationError,
    >)
        ensures
            r == (match targets {
                Ok(belongs) => Ok::<bool, ApplicationError>(belongs),
                Err(fault) => Err::<bool, ApplicationError>(ApplicationError::Repository(fault)),
            }),
    {
        match targets {
            Ok(belongs) => Ok(belongs),
            Err(fault) => Err(ApplicationError::Repository(fault)),
        }
    }
}

/// What a transfer's evidence was committed as.
#[derive(Debug)]
pub enum TransferEvidenceResult {
    Applied(EvidenceApplied),
    NoOp,
    Conflict,
    FailClosed,
    NotTransferAction,
}

/// How a message about an action is to be routed. It follows from durable
/// facts; the message has no say in it.
#[derive(Clone, Copy, Debug, PartialEq, Eq, Structural)]
pub enum TransferActionClassification {
    /// A transfer is bound to the action's attempt.
    DataPlaneTransfer,
    /// The endpoint's own action, without a transfer.
    SimulatedExecution,
    /// No such action, or another endpoint's.
    Unknown,
}

/// What is told about a transfer's result.
#[derive(Clone, Copy, Debug, PartialEq, Eq, Structural)]
pub enum TransferTerminalOutcome {
    Consumed,
    FailClosed,
}

/// What is told about a cancellation answer that may concern a transfer.
#[derive(Clone, Copy, Debug, PartialEq, Eq, Structural)]
pub enum TransferCancelAckOutcome {
    Consumed,
    NotTransferAction,
}

/// What is told about a report of cancellation that may concern a transfer.
#[derive(Clone, Copy, Debug, PartialEq, Eq, Structural)]
pub enum TransferStatusReportOutcome {
    Consumed,
    NotTransferAction,
}

/// The next step of a classification.
#[derive(Debug)]
pub enum ClassificationStep {
    /// Whether a transfer is bound to the action has to be read.
    AskForBoundTransfer,
    Done(Result<TransferActionClassification, ApplicationError>),
}

/// The attempt that a transfer's evidence ended, if it ended one.
pub open spec fn ended_by_transfer(
    committed: Result<TransferEvidenceResult, ApplyActionEvidenceError>,
) -> Option<AttemptId> {
    match committed {
        Ok(TransferEvidenceResult::Applied(applied)) => ended_by(applied),
        _ => None,
    }
}

/// The error for evidence that was refused.
pub open spec fn refusal(error: ApplyActionEvidenceError) -> ApplicationError {
    match error {
        ApplyActionEvidenceError::UnknownAction => ApplicationError::UnknownAction,
        ApplyActionEvidenceError::Repository(fault) => ApplicationError::Repository(fault),
    }
}

/// A backend fault with exactly this message.
pub open spec fn is_backend_fault(error: ApplicationError, message: Seq<char>) -> bool {
    error matches ApplicationError::Repository(fault) && fault.text() == message
}

/// Consumes evidence about transfers.
pub struct TransferTerminalEvidenceService<R, G, A, C> {
    pub repo: Arc<R>,
    pub reservations: Arc<G>,
    pub arbiter: Arc<A>,
    pub clock: Arc<C>,
}

impl<R, G, A> TransferTerminalEvidenceService<R, G, A, SystemClock> {
    /// With the real clock.
    pub fn new(repo: Arc<R>, reservations: Arc<G>, arbiter: Arc<A>) -> (r: Self)
        ensures
            r.repo == repo,
            r.reservations == reservations,
            r.arbiter == arbiter,
    {
        TransferTerminalEvidenceService { repo, reservations, arbiter, clock: Arc::new(SystemClock) }
    }
}

impl<R, G, A, C> TransferTerminalEvidenceService<R, G, A, C> {
    pub fn with_clock(
        repo: Arc<R>,
        reservations: Arc<G>,
        arbiter: Arc<A>,
        clock: Arc<C>,
    ) -> (r: Self)
        ensures
            r.repo == repo,
            r.reservations == reservations,
            r.arbiter == arbiter,
            r.clock == clock,
    {
        TransferTerminalEvidenceService { repo, reservations, arbiter, clock }
    }

    /// Starts a classification. An action that is not the endpoint's own is
    /// unknown, and nothing more is read about it.
    pub fn classify(targets: Result<bool, RepositoryError>) -> (r: ClassificationStep)
        ensures
            match targets {
                Ok(true) => r is AskForBoundTransfer,
                Ok(false) => r == ClassificationStep::Done(
                    Ok(TransferActionClassification::Unknown),
                ),
                Err(fault) => r == ClassificationStep::Done(
                    Err(ApplicationError::Repository(fault)),
                ),
            },
    {
        match targets {
            Ok(true) => ClassificationStep::AskForBoundTransfer,
            Ok(false) => ClassificationStep::Done(Ok(TransferActionClassification::Unknown)),
            Err(fault) => ClassificationStep::Done(Err(ApplicationError::Repository(fault))),
        }
    }

    /// Finishes the classification of an endpoint's own action.
    pub fn classify_bound(bound: Result<bool, RepositoryError>) -> (r: Result<
        TransferActionClassification,
        ApplicationError,
    >)
        ensures
            match bound {
                Ok(true) => r == Ok::<TransferActionClassification, ApplicationError>(
                    TransferActionClassification::DataPlaneTransfer,
                ),
                Ok(false) => r == Ok::<TransferActionClassification, ApplicationError>(
                    TransferActionClassification::SimulatedExecution,
                ),
                Err(fault) => r == Err::<TransferActionClassification, ApplicationError>(
                    ApplicationError::Repository(fault),
                ),
            },
    {
        match bound {
            Ok(true) => Ok(TransferActionClassification::DataPlaneTransfer),
            Ok(false) => Ok(TransferActionClassification::SimulatedExecution),
            Err(fault) => Err(ApplicationError::Repository(fault)),
        }
    }

    /// Concludes a transfer's result.
    pub fn apply(
        registry: &mut AttemptReservationRegistry,
        committed: Result<TransferEvidenceResult, ApplyActionEvidenceError>,
    ) -> (r: Settled<Result<TransferTerminalOutcome, ApplicationError>>)
        ensures
            settles(old(registry)@, final(registry)@, ended_by_transfer(committed), r.release),
            match committed {
                Ok(TransferEvidenceResult::Applied(_))
                | Ok(TransferEvidenceResult::NoOp)
                | Ok(TransferEvidenceResult::Conflict) => r.told == Ok::<
                    TransferTerminalOutcome,
                    ApplicationError,
                >(TransferTerminalOutcome::Consumed),
                Ok(TransferEvidenceResult::FailClosed)
                | Ok(TransferEvidenceResult::NotTransferAction) => r.told == Ok::<
                    TransferTerminalOutcome,
                    ApplicationError,
                >(TransferTerminalOutcome::FailClosed),
                Err(error) => r.told == Err::<TransferTerminalOutcome, ApplicationError>(
                    refusal(error),
                ),
            },
    {
        match committed {
            Ok(TransferEvidenceResult::Applied(applied)) => {
                let release = settle(registry, &applied);
                Settled { told: Ok(TransferTerminalOutcome::Consumed), release }
            },
            Ok(TransferEvidenceResult::NoOp) | Ok(TransferEvidenceResult::Conflict) => Settled {
                told: Ok(TransferTerminalOutcome::Consumed),
                release: None,
            },
            Ok(TransferEvidenceResult::FailClosed)
            | Ok(TransferEvidenceResult::NotTransferAction) => Settled {
                told: Ok(TransferTerminalOutcome::FailClosed),
                release: None,
            },
            Err(error) => Settled { told: Err(ApplicationError::from(error)), release: None },
        }
    }

    /// Concludes a cancellation answer that may concern a transfer. Such an
    /// answer cannot conflict or fail closed; should it do so all the same, that
    /// is a fault, not something to pass over.
    pub fn apply_cancel_ack(
        registry: &mut AttemptReservationRegistry,
        committed: Result<TransferEvidenceResult, ApplyActionEvidenceError>,
    ) -> (r: Settled<Result<TransferCancelAckOutcome, ApplicationError>>)
        ensures
            settles(old(registry)@, final(registry)@, ended_by_transfer(committed), r.release),
            match committed {
                Ok(TransferEvidenceResult::Applied(_)) | Ok(TransferEvidenceResult::NoOp) => r.told
                    == Ok::<TransferCancelAckOutcome, ApplicationError>(
                    TransferCancelAckOutcome::Consumed,
                ),
                Ok(TransferEvidenceResult::NotTransferAction) => r.told == Ok::<
                    TransferCancelAckOutcome,
                    ApplicationError,
                >(TransferCancelAckOutcome::NotTransferAction),
                Ok(TransferEvidenceResult::Conflict) => r.told matches Err(error)
                    && is_backend_fault(
                    error,
                    "transfer CancelAck evidence produced an unexpected Conflict"@,
                ),
                Ok(TransferEvidenceResult::FailClosed) => r.told matches Err(error)
                    && is_backend_fault(
                    error,
                    "transfer CancelAck evidence produced an unexpected FailClosed"@,
                ),
                Err(error) => r.told == Err::<TransferCancelAckOutcome, ApplicationError>(
                    refusal(error),
                ),
            },
    {
        match committed {
            Ok(TransferEvidenceResult::Applied(applied)) => {
                let release = settle(registry, &applied);
                Settled { told: Ok(TransferCancelAckOutcome::Consumed), release }
            },
            Ok(TransferEvidenceResult::NoOp) => Settled {
                told: Ok(TransferCancelAckOutcome::Consumed),
                release: None,
            },
            Ok(TransferEvidenceResult::NotTransferAction) => Settled {
                told: Ok(TransferCancelAckOutcome::NotTransferAction),
                release: None,
            },
            Ok(TransferEvidenceResult::Conflict) => Settled {
                told: Err(
                    ApplicationError::Repository(
                        RepositoryError::backend(
                            "transfer CancelAck evidence produced an unexpected Conflict",
                        ),
                    ),
                ),
                release: None,
            },
            Ok(TransferEvidenceResult::FailClosed) => Settled {
                told: Err(
                    ApplicationError::Repository(
                        RepositoryError::backend(
                            "transfer CancelAck evidence produced an unexpected FailClosed",
                        ),
                    ),
                ),
                release: None,
            },
            Err(error) => Settled { told: Err(ApplicationError::from(error)), release: None },
        }
    }

    /// Concludes a report of cancellation that may concern a transfer.
    pub fn apply_status_report_cancelled(
        registry: &mut AttemptReservationRegistry,
        committed: Result<TransferEvidenceResult, ApplyActionEvidenceError>,
    ) -> (r: Settled<Result<TransferStatusReportOutcome, ApplicationError>>)
        ensures
            settles(old(registry)@, final(registry)@, ended_by_transfer(committed), r.release),
            match committed {
                Ok(TransferEvidenceResult::Applied(_)) | Ok(TransferEvidenceResult::NoOp) => r.told
                    == Ok::<TransferStatusReportOutcome, ApplicationError>(
                    TransferStatusReportOutcome::Consumed,
                ),
                Ok(TransferEvidenceResult::NotTransferAction) => r.told == Ok::<
                    TransferStatusReportOutcome,
                    ApplicationError,
                >(TransferStatusReportOutcome::NotTransferAction),
                Ok(TransferEvidenceResult::Conflict) => r.told matches Err(error)
                    && is_backend_fault(
                    error,
                    "transfer StatusReport cancellation produced an unexpected Conflict"@,
                ),
                Ok(TransferEvidenceResult::FailClosed) => r.told matches Err(error)
                    && is_backend_fault(
                    error,
                    "transfer StatusReport cancellation produced an unexpected FailClosed"@,
                ),
                Err(error) => r.told == Err::<TransferStatusReportOutcome, ApplicationError>(
                    refusal(error),
                ),
            },
    {
        match committed {
            Ok(TransferEvidenceResult::Applied(applied)) => {
                let release = settle(registry, &applied);
                Settled { told: Ok(TransferStatusReportOutcome::Consumed), release }
            },
            Ok(TransferEvidenceResult::NoOp) => Settled {
                told: Ok(TransferStatusReportOutcome::Consumed),
                release: None,
            },
            Ok(TransferEvidenceResult::NotTransferAction) => Settled {
                told: Ok(TransferStatusReportOutcome::NotTransferAction),
                release: None,
            },
            Ok(TransferEvidenceResult::Conflict) => Settled {
                told: Err(
                    ApplicationError::Repository(
                        RepositoryError::backend(
                            "transfer StatusReport cancellation produced an unexpected Conflict",
                        ),
                    ),
                ),
                release: None,
            },
            Ok(TransferEvidenceResult::FailClosed) => Settled {
                told: Err(
                    ApplicationError::Repository(
                        RepositoryError::backend(
                            "transfer StatusReport cancellation produced an unexpected FailClosed",
                        ),
                    ),
                ),
                release: None,
            },
            Err(error) => Settled { told: Err(ApplicationError::from(error)), release: None },
        }
    }
}

/// Evidence that ended an attempt hands out that attempt's reservation, and any other
/// outcome hands out none; what was committed is what is told.
pub proof fn ended_attempt_gives_its_reservation_back<R, G, A, C>(
    registry: &mut AttemptReservationRegistry,
    committed: Result<EvidenceResult, ApplyActionEvidenceError>,
    r: Settled<Result<EvidenceResult, ApplicationError>>,
)
    requires
        call_ensures(ActionEvidenceService::<R, G, A, C>::apply, (registry, committed), r),
    ensures
        match committed {
            Ok(EvidenceResult::Applied(applied)) if applied.terminal => {
                &&& final(registry)@ == old(registry)@.remove(applied.attempt.id.0)
                &&& r.release is Some <==> old(registry)@.dom().contains(applied.attempt.id.0)
                &&& r.release matches Some(given) ==> given == old(registry)@[applied.attempt.id.0]
            },
            _ => final(registry)@ == old(registry)@ && r.release is None,
        },
        committed matches Ok(result) ==> r.told == Ok::<EvidenceResult, ApplicationError>(result),
        committed is Err <==> r.told is Err,
        committed matches Err(ApplyActionEvidenceError::UnknownAction) ==> r.told matches Err(
            ApplicationError::UnknownAction,
        ),
        committed matches Err(ApplyActionEvidenceError::Repository(fault)) ==> r.told matches Err(
            ApplicationError::Repository(same),
        ) && same == fault,
{
}

/// The same of a transfer's result, which is consumed, or closed to whoever sent it.
pub proof fn ended_transfer_gives_its_reservation_back<R, G, A, C>(
    registry: &mut AttemptReservationRegistry,
    committed: Result<TransferEvidenceResult, ApplyActionEvidenceError>,
    r: Settled<Result<TransferTerminalOutcome, ApplicationError>>,
)
    requires
        call_ensures(TransferTerminalEvidenceService::<R, G, A, C>::apply, (registry, committed), r),
    ensures
        match committed {
            Ok(TransferEvidenceResult::Applied(applied)) if applied.terminal => {
                &&& final(registry)@ == old(registry)@.remove(applied.attempt.id.0)
                &&& r.release is Some <==> old(registry)@.dom().contains(applied.attempt.id.0)
                &&& r.release matches Some(given) ==> given == old(registry)@[applied.attempt.id.0]
            },
            _ => final(registry)@ == old(registry)@ && r.release is None,
        },
        r.told matches Ok(TransferTerminalOutcome::Consumed) <==> (committed matches Ok(result) && (
        result is Applied || result is NoOp || result is Conflict)),
        r.told matches Ok(TransferTerminalOutcome::FailClosed) <==> (committed matches Ok(result)
            && (result is FailClosed || result is NotTransferAction)),
        committed matches Err(ApplyActionEvidenceError::UnknownAction) <==> r.told matches Err(
            ApplicationError::UnknownAction,
        ),
        committed matches Err(ApplyActionEvidenceError::Repository(fault)) ==> r.told matches Err(
            ApplicationError::Repository(same),
        ) && same == fault,
{
}

/// The same of the answer to a cancellation that may concern a transfer: what is no
/// transfer's goes on to the general service, and what cannot be is a fault.
pub proof fn cancelled_transfer_gives_its_reservation_back<R, G, A, C>(
    registry: &mut AttemptReservationRegistry,
    committed: Result<TransferEvidenceResult, ApplyActionEvidenceError>,
    r: Settled<Result<TransferCancelAckOutcome, ApplicationError>>,
)
    requires
        call_ensures(TransferTerminalEvidenceService::<R, G, A, C>::apply_cancel_ack, (registry, committed), r),
    ensures
        match committed {
            Ok(TransferEvidenceResult::Applied(applied)) if applied.terminal => {
                &&& final(registry)@ == old(registry)@.remove(applied.attempt.id.0)
                &&& r.release is Some <==> old(registry)@.dom().contains(applied.attempt.id.0)
                &&& r.release matches Some(given) ==> given == old(registry)@[applied.attempt.id.0]
            },
            _ => final(registry)@ == old(registry)@ && r.release is None,
        },
        r.told matches Ok(TransferCancelAckOutcome::Consumed) <==> (committed matches Ok(result) && (
        result is Applied || result is NoOp)),
        r.told matches Ok(TransferCancelAckOutcome::NotTransferAction) <==> (committed matches Ok(
            result,
        ) && result is NotTransferAction),
        committed matches Ok(result) && result is Conflict ==> (r.told matches Err(
            ApplicationError::Repository(fault),
        ) && fault.text() == "transfer CancelAck evidence produced an unexpected Conflict"@),
        committed matches Ok(result) && result is FailClosed ==> (r.told matches Err(
            ApplicationError::Repository(fault),
        ) && fault.text() == "transfer CancelAck evidence produced an unexpected FailClosed"@),
        committed matches Err(ApplyActionEvidenceError::UnknownAction) <==> r.told matches Err(
            ApplicationError::UnknownAction,
        ),
        committed matches Err(ApplyActionEvidenceError::Repository(fault)) ==> r.told matches Err(
            ApplicationError::Repository(same),
        ) && same == fault,
{
}

/// The same of the report that an action was cancelled.
pub proof fn transfer_reported_cancelled_gives_its_reservation_back<R, G, A, C>(
    registry: &mut AttemptReservationRegistry,
    committed: Result<TransferEvidenceResult, ApplyActionEvidenceError>,
    r: Settled<Result<TransferStatusReportOutcome, ApplicationError>>,
)
    requires
        call_ensures(TransferTerminalEvidenceService::<R, G, A, C>::apply_status_report_cancelled, (registry, committed), r),
    ensures
        match committed {
            Ok(TransferEvidenceResult::Applied(applied)) if applied.terminal => {
                &&& final(registry)@ == old(registry)@.remove(applied.attempt.id.0)
                &&& r.release is Some <==> old(registry)@.dom().contains(applied.attempt.id.0)
                &&& r.release matches Some(given) ==> given == old(registry)@[applied.attempt.id.0]
            },
            _ => final(registry)@ == old(registry)@ && r.release is None,
        },
        r.told matches Ok(TransferStatusReportOutcome::Consumed) <==> (committed matches Ok(result)
            && (result is Applied || result is NoOp)),
        r.told matches Ok(TransferStatusReportOutcome::NotTransferAction) <==> (committed matches Ok(
            result,
        ) && result is NotTransferAction),
        committed matches Ok(result) && result is Conflict ==> (r.told matches Err(
            ApplicationError::Repository(fault),
        ) && fault.text() == "transfer StatusReport cancellation produced an unexpected Conflict"@),
        committed matches Ok(result) && result is FailClosed ==> (r.told matches Err(
            ApplicationError::Repository(fault),
        ) && fault.text() == "transfer StatusReport cancellation produced an unexpected FailClosed"@),
        committed matches Err(ApplyActionEvidenceError::UnknownAction) <==> r.told matches Err(
            ApplicationError::UnknownAction,
        ),
        committed matches Err(ApplyActionEvidenceError::Repository(fault)) ==> r.told matches Err(
            ApplicationError::Repository(same),
        ) && same == fault,
{
}

/// An action is a transfer's exactly where it is the endpoint's own and a transfer is
/// bound to it, a simulated one where it is the endpoint's own and none is, and
/// unknown where it is not the endpoint's own, whatever is bound to it.
pub proof fn classification_follows_from_durable_facts<R, G, A, C>(
    targets: bool,
    bound: bool,
    step: ClassificationStep,
    classified: Result<TransferActionClassification, ApplicationError>,
)
    requires
        call_ensures(
            TransferTerminalEvidenceService::<R, G, A, C>::classify,
            (Ok(targets),),
            step,
        ),
        call_ensures(
            TransferTerminalEvidenceService::<R, G, A, C>::classify_bound,
            (Ok(bound),),
            classified,
        ),
    ensures
        step is AskForBoundTransfer <==> targets,
        !targets ==> (step matches ClassificationStep::Done(Ok(kind)) && kind
            == TransferActionClassification::Unknown),
        classified is Ok,
        classified matches Ok(kind) ==> (kind == TransferActionClassification::DataPlaneTransfer
            <==> bound) && (kind == TransferActionClassification::SimulatedExecution <==> !bound),
{
}

/// A fault of the storage is never a classification, nor an answer about whose action
/// it is.
pub proof fn classification_passes_faults_on<R, G, A, C>(
    fault: RepositoryError,
    step: ClassificationStep,
    classified: Result<TransferActionClassification, ApplicationError>,
    belongs: Result<bool, ApplicationError>,
)
    requires
        call_ensures(
            TransferTerminalEvidenceService::<R, G, A, C>::classify,
            (Err(fault),),
            step,
        ),
        call_ensures(
            TransferTerminalEvidenceService::<R, G, A, C>::classify_bound,
            (Err(fault),),
            classified,
        ),
        call_ensures(
            ActionEvidenceService::<R, G, A, C>::action_belongs_to_endpoint,
            (Err(fault),),
            belongs,
        ),
    ensures
        step matches ClassificationStep::Done(Err(ApplicationError::Repository(same))) && same
            == fault,
        classified matches Err(ApplicationError::Repository(same)) && same == fault,
        belongs matches Err(ApplicationError::Repository(same)) && same == fault,
{
}

/// Whose action it is is told as it was read.
pub proof fn ownership_is_told_as_read<R, G, A, C>(
    targets: bool,
    belongs: Result<bool, ApplicationError>,
)
    requires
        call_ensures(
            ActionEvidenceService::<R, G, A, C>::action_belongs_to_endpoint,
            (Ok(targets),),
            belongs,
        ),
    ensures
        belongs matches Ok(told) && told == targets,
{
}

} // verus!
