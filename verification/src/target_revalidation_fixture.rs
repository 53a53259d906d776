//! A stand-in for probing an endpoint's target disk: it returns whatever target
//! was configured for the endpoint, and knows nothing of inventories.

use vstd::prelude::*;
use std::collections::HashMap;
use crate::ids::EndpointId;
use crate::model::TargetFingerprint;

verus! {

broadcast use vstd::std_specs::hash::group_hash_axioms;

/// The configured target of each endpoint.
#[derive(Debug)]
pub struct FixtureTargetRevalidation {
    current: HashMap<u128, TargetFingerprint>,
}

impl View for FixtureTargetRevalidation {
    type V = Map<u128, Seq<char>>;

    /// The fingerprint by the endpoint's identity.
    closed spec fn view(&self) -> Map<u128, Seq<char>> {
        self.current@.map_values(|target: TargetFingerprint| target.value@)
    }
}

/// The target that is configured for an endpoint.
pub open spec fn configured(targets: Map<u128, Seq<char>>, endpoint_id: EndpointId) -> Option<
    Seq<char>,
> {
    if targets.dom().contains(endpoint_id.0) {
        Some(targets[endpoint_id.0])
    } else {
        None
    }
}

impl FixtureTargetRevalidation {
    pub fn new() -> (r: FixtureTargetRevalidation)
        ensures
            r@ == Map::<u128, Seq<char>>::empty(),
    {
        let fixture = FixtureTargetRevalidation { current: HashMap::new() };
        assert(fixture@ =~= Map::<u128, Seq<char>>::empty());
        fixture
    }

    /// Sets, or replaces, the target of one endpoint.
    pub fn set_current_target(&mut self, endpoint_id: EndpointId, fingerprint: TargetFingerprint)
        ensures
            final(self)@ == old(self)@.insert(endpoint_id.0, fingerprint.value@),
    {
        self.current.insert(endpoint_id.0, fingerprint);
        assert(self@ =~= old(self)@.insert(endpoint_id.0, fingerprint.value@));
    }

    /// Takes the target of one endpoint away.
    pub fn clear_current_target(&mut self, endpoint_id: EndpointId)
        ensures
            final(self)@ == old(self)@.remove(endpoint_id.0),
    {
        self.current.remove(&endpoint_id.0);
        assert(self@ =~= old(self)@.remove(endpoint_id.0));
    }

    /// The target that is configured for an endpoint, if one is.
    pub fn current_target_fingerprint(&self, endpoint_id: EndpointId) -> (r: Option<
        TargetFingerprint,
    >)
        ensures
            (r is Some) == (configured(self@, endpoint_id) is Some),
            r matches Some(target) ==> configured(self@, endpoint_id) == Some(target.value@),
    {
        match self.current.get(&endpoint_id.0) {
            Some(target) => Some(TargetFingerprint::new(target.as_str())),
            None => None,
        }
    }
}

/// A target set is read back until it is set again or cleared, and nothing done
/// to one endpoint shows at another.
pub proof fn targets_are_kept_apart(
    targets: Map<u128, Seq<char>>,
    endpoint_id: EndpointId,
    other: EndpointId,
    fingerprint: Seq<char>,
    replacement: Seq<char>,
)
    requires
        other != endpoint_id,
    ensures
        configured(targets.insert(endpoint_id.0, fingerprint), endpoint_id) == Some(fingerprint),
        configured(
            targets.insert(endpoint_id.0, fingerprint).insert(endpoint_id.0, replacement),
            endpoint_id,
        ) == Some(replacement),
        configured(targets.insert(endpoint_id.0, fingerprint).remove(endpoint_id.0), endpoint_id)
            is None,
        configured(targets.insert(endpoint_id.0, fingerprint), other) == configured(
            targets,
            other,
        ),
        configured(targets.remove(endpoint_id.0), other) == configured(targets, other),
{
}

/// A target that was set is the one that is read, and another endpoint's is as before.
pub proof fn target_set_is_the_one_read(
    fixture: &mut FixtureTargetRevalidation,
    endpoint_id: EndpointId,
    fingerprint: TargetFingerprint,
    other: EndpointId,
    read: Option<TargetFingerprint>,
    other_before: Option<TargetFingerprint>,
    other_after: Option<TargetFingerprint>,
)
    requires
        call_ensures(
            FixtureTargetRevalidation::set_current_target,
            (fixture, endpoint_id, fingerprint),
            (),
        ),
        call_ensures(
            FixtureTargetRevalidation::current_target_fingerprint,
            (&*final(fixture), endpoint_id),
            read,
        ),
        call_ensures(
            FixtureTargetRevalidation::current_target_fingerprint,
            (&*old(fixture), other),
            other_before,
        ),
        call_ensures(
            FixtureTargetRevalidation::current_target_fingerprint,
            (&*final(fixture), other),
            other_after,
        ),
    ensures
        read is Some && read->Some_0.value@ == fingerprint.value@,
        other.0 != endpoint_id.0 ==> (other_after is Some <==> other_before is Some) && (
        other_after is Some ==> other_after->Some_0.value@ == other_before->Some_0.value@),
{
}

/// A target that was cleared is gone, and another endpoint's is as before.
pub proof fn target_cleared_is_gone(
    fixture: &mut FixtureTargetRevalidation,
    endpoint_id: EndpointId,
    other: EndpointId,
    read: Option<TargetFingerprint>,
    other_before: Option<TargetFingerprint>,
    other_after: Option<TargetFingerprint>,
)
    requires
        call_ensures(
            FixtureTargetRevalidation::clear_current_target,
            (fixture, endpoint_id),
            (),
        ),
        call_ensures(
            FixtureTargetRevalidation::current_target_fingerprint,
            (&*final(fixture), endpoint_id),
            read,
        ),
        call_ensures(
            FixtureTargetRevalidation::current_target_fingerprint,
            (&*old(fixture), other),
            other_before,
        ),
        call_ensures(
            FixtureTargetRevalidation::current_target_fingerprint,
            (&*final(fixture), other),
            other_after,
        ),
    ensures
        read is None,
        other.0 != endpoint_id.0 ==> (other_after is Some <==> other_before is Some) && (
        other_after is Some ==> other_after->Some_0.value@ == other_before->Some_0.value@),
{
}

} // verus!
