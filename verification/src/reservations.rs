//! Which attempt holds which reservation of technical capacity.

use vstd::prelude::*;
use std::collections::HashMap;
use crate::ids::{AttemptId, ReservationId};

verus! {

broadcast use vstd::std_specs::hash::group_hash_axioms;

/// Whether a registration took effect.
#[derive(Clone, Copy, Debug, PartialEq, Eq, Structural)]
pub enum RegistrationOutcome {
    Registered,
    AlreadyRegistered,
}

/// The reservation of each dispatched attempt. An attempt enters once and
/// leaves once; whoever takes its reservation out is the one to release it.
#[derive(Debug)]
pub struct AttemptReservationRegistry {
    entries: HashMap<u128, ReservationId>,
}

impl View for AttemptReservationRegistry {
    type V = Map<u128, ReservationId>;

    /// The reservation by the attempt's identity.
    closed spec fn view(&self) -> Map<u128, ReservationId> {
        self.entries@
    }
}

impl AttemptReservationRegistry {
    pub fn new() -> (r: AttemptReservationRegistry)
        ensures
            r@ == Map::<u128, ReservationId>::empty(),
    {
        AttemptReservationRegistry { entries: HashMap::new() }
    }

    /// Enters `reservation` for `attempt`, unless the attempt has one already.
    pub fn register(&mut self, attempt: AttemptId, reservation: ReservationId) -> (r:
        RegistrationOutcome)
        ensures
            old(self)@.dom().contains(attempt.0) ==> r is AlreadyRegistered && final(self)@
                == old(self)@,
            !old(self)@.dom().contains(attempt.0) ==> r is Registered && final(self)@
                == old(self)@.insert(attempt.0, reservation),
    {
        if self.entries.contains_key(&attempt.0) {
            RegistrationOutcome::AlreadyRegistered
        } else {
            self.entries.insert(attempt.0, reservation);
            RegistrationOutcome::Registered
        }
    }

    /// Takes the reservation of `attempt` out.
    pub fn take(&mut self, attempt: AttemptId) -> (r: Option<ReservationId>)
        ensures
            final(self)@ == old(self)@.remove(attempt.0),
            old(self)@.dom().contains(attempt.0) ==> r == Some(old(self)@[attempt.0]),
            !old(self)@.dom().contains(attempt.0) ==> r is None,
    {
        self.entries.remove(&attempt.0)
    }
}

/// An attempt's reservation is taken out as it was entered, and only once; a second
/// entry changes nothing, and no other attempt's is touched.
pub proof fn reservation_is_entered_once_and_taken_once(
    registry: &mut AttemptReservationRegistry,
    attempt: AttemptId,
    reservation: ReservationId,
    other: AttemptId,
    r: RegistrationOutcome,
)
    requires
        call_ensures(
            AttemptReservationRegistry::register,
            (registry, attempt, reservation),
            r,
        ),
    ensures
        r is Registered <==> !old(registry)@.dom().contains(attempt.0),
        final(registry)@.dom().contains(attempt.0),
        r is Registered ==> final(registry)@[attempt.0] == reservation,
        r is AlreadyRegistered ==> final(registry)@[attempt.0] == old(registry)@[attempt.0],
        other.0 != attempt.0 ==> (final(registry)@.dom().contains(other.0) <==> old(
            registry,
        )@.dom().contains(other.0)) && final(registry)@[other.0] == old(registry)@[other.0],
{
}

/// Taking a reservation out gives what was entered, leaves none behind, and touches no
/// other attempt's.
pub proof fn reservation_taken_is_gone(
    registry: &mut AttemptReservationRegistry,
    attempt: AttemptId,
    other: AttemptId,
    r: Option<ReservationId>,
)
    requires
        call_ensures(AttemptReservationRegistry::take, (registry, attempt), r),
    ensures
        r is Some <==> old(registry)@.dom().contains(attempt.0),
        r matches Some(reservation) ==> reservation == old(registry)@[attempt.0],
        !final(registry)@.dom().contains(attempt.0),
        other.0 != attempt.0 ==> (final(registry)@.dom().contains(other.0) <==> old(
            registry,
        )@.dom().contains(other.0)) && final(registry)@[other.0] == old(registry)@[other.0],
{
}

} // verus!
