use bamep_server::ids::EndpointId;
use bamep_server::model::TargetFingerprint;
use bamep_server::target_revalidation_fixture::FixtureTargetRevalidation;

fn shown(fixture: &FixtureTargetRevalidation, endpoint_id: EndpointId) -> Option<String> {
    fixture.current_target_fingerprint(endpoint_id).map(|target| target.value)
}

#[test]
fn unconfigured_endpoint_has_no_current_target() {
    let fixture = FixtureTargetRevalidation::new();
    assert_eq!(shown(&fixture, EndpointId(1)), None);
}

#[test]
fn configured_target_is_returned_deterministically() {
    let mut fixture = FixtureTargetRevalidation::new();
    fixture.set_current_target(EndpointId(1), TargetFingerprint::new("disk-a"));
    assert_eq!(shown(&fixture, EndpointId(1)), Some("disk-a".to_string()));
    assert_eq!(shown(&fixture, EndpointId(1)), Some("disk-a".to_string()));
}

#[test]
fn target_can_change_without_any_inventory_involvement() {
    let mut fixture = FixtureTargetRevalidation::new();
    fixture.set_current_target(EndpointId(1), TargetFingerprint::new("disk-a"));
    fixture.set_current_target(EndpointId(1), TargetFingerprint::new("disk-b"));
    assert_eq!(shown(&fixture, EndpointId(1)), Some("disk-b".to_string()));
}

#[test]
fn different_endpoints_are_isolated() {
    let mut fixture = FixtureTargetRevalidation::new();
    fixture.set_current_target(EndpointId(1), TargetFingerprint::new("disk-a"));
    assert_eq!(shown(&fixture, EndpointId(1)), Some("disk-a".to_string()));
    assert_eq!(shown(&fixture, EndpointId(2)), None);
}

#[test]
fn clearing_a_configured_target_returns_it_to_absent() {
    let mut fixture = FixtureTargetRevalidation::new();
    fixture.set_current_target(EndpointId(1), TargetFingerprint::new("disk-a"));
    fixture.clear_current_target(EndpointId(1));
    assert_eq!(shown(&fixture, EndpointId(1)), None);
}
