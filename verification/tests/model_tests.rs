use address_health::model::{format_addr, AddressHealthModel, CheckOutcome};

#[test]
fn address_is_pure_format_of_host_and_port() {
    assert_eq!(format_addr("localhost", "8080"), "http://localhost:8080");
    assert_eq!(format_addr("example.org", "443"), "http://example.org:443");
    assert_eq!(format_addr("", ""), "http://:");
}

#[test]
fn construction_launches_exactly_one_check() {
    let (model, request) = AddressHealthModel::new("localhost".to_string(), "8080".to_string());
    assert_eq!(model.checks_launched(), 1);
    assert_eq!(model.in_flight_count(), 1);
    assert_eq!(request.id, 0);
    assert_eq!(request.addr, "http://localhost:8080");
    assert_eq!(request.url, "http://localhost:8080/healthz");
    assert!(!model.healthy_value());
}

#[test]
fn derived_address_tracks_current_host_and_port() {
    let (mut model, _request) =
        AddressHealthModel::new("localhost".to_string(), "8080".to_string());
    assert_eq!(model.address_value(), "http://localhost:8080");
    model.set_host("example.org".to_string());
    assert_eq!(model.address_value(), "http://example.org:8080");
    model.set_port("443".to_string());
    assert_eq!(model.address_value(), "http://example.org:443");
}

#[test]
fn status_200_sets_healthy_true() {
    let (mut model, request) = AddressHealthModel::new("localhost".to_string(), "8080".to_string());
    assert!(model.complete_check(request.id, CheckOutcome::Status(200)));
    assert!(model.healthy_value());
    assert_eq!(model.in_flight_count(), 0);
}

#[test]
fn status_404_sets_healthy_false() {
    let (mut model, request) = AddressHealthModel::new("localhost".to_string(), "8080".to_string());
    assert!(model.complete_check(request.id, CheckOutcome::Status(200)));
    let follow_up = model.set_port("8081".to_string()).unwrap();
    assert!(model.complete_check(follow_up.id, CheckOutcome::Status(404)));
    assert!(!model.healthy_value());
}

#[test]
fn status_500_sets_healthy_false() {
    let (mut model, request) = AddressHealthModel::new("localhost".to_string(), "8080".to_string());
    assert!(model.complete_check(request.id, CheckOutcome::Status(200)));
    let follow_up = model.set_port("8081".to_string()).unwrap();
    assert!(model.complete_check(follow_up.id, CheckOutcome::Status(500)));
    assert!(!model.healthy_value());
}

#[test]
fn transport_failure_sets_healthy_false() {
    let (mut model, request) = AddressHealthModel::new("localhost".to_string(), "8080".to_string());
    assert!(model.complete_check(request.id, CheckOutcome::Status(200)));
    let follow_up = model.set_port("8081".to_string()).unwrap();
    assert!(model.complete_check(follow_up.id, CheckOutcome::TransportFailure));
    assert!(!model.healthy_value());
}

#[test]
fn unknown_check_id_changes_nothing() {
    let (mut model, request) = AddressHealthModel::new("localhost".to_string(), "8080".to_string());
    assert!(model.complete_check(request.id, CheckOutcome::Status(200)));
    assert!(model.healthy_value());
    assert!(!model.complete_check(77, CheckOutcome::TransportFailure));
    assert!(model.healthy_value());
    assert_eq!(model.in_flight_count(), 0);
}

#[test]
fn setting_host_to_current_value_does_not_retrigger() {
    let (mut model, _request) =
        AddressHealthModel::new("localhost".to_string(), "8080".to_string());
    assert!(model.set_host("localhost".to_string()).is_none());
    assert_eq!(model.checks_launched(), 1);
    assert_eq!(model.in_flight_count(), 1);
}

#[test]
fn setting_port_to_current_value_does_not_retrigger() {
    let (mut model, _request) =
        AddressHealthModel::new("localhost".to_string(), "8080".to_string());
    assert!(model.set_port("8080".to_string()).is_none());
    assert_eq!(model.checks_launched(), 1);
    assert_eq!(model.in_flight_count(), 1);
}

#[test]
fn setting_host_to_new_value_launches_one_check() {
    let (mut model, _request) =
        AddressHealthModel::new("localhost".to_string(), "8080".to_string());
    let request = model.set_host("example.org".to_string()).unwrap();
    assert_eq!(request.id, 1);
    assert_eq!(request.addr, "http://example.org:8080");
    assert_eq!(request.url, "http://example.org:8080/healthz");
    assert_eq!(model.checks_launched(), 2);
    assert_eq!(model.in_flight_count(), 2);
}

#[test]
fn update_address_with_unchanged_host_and_port_launches_nothing() {
    let (mut model, _request) =
        AddressHealthModel::new("localhost".to_string(), "8080".to_string());
    assert!(model.update_address().is_none());
    assert_eq!(model.checks_launched(), 1);
    assert_eq!(model.in_flight_count(), 1);
}

#[test]
fn scenario_reconfigure_to_refused_port() {
    let (mut model, first) = AddressHealthModel::new("localhost".to_string(), "8080".to_string());
    assert_eq!(model.address_value(), "http://localhost:8080");
    assert!(model.complete_check(first.id, CheckOutcome::Status(200)));
    assert!(model.healthy_value());

    let second = model.set_port("9999".to_string()).unwrap();
    assert!(model.update_address().is_none());
    assert_eq!(model.address_value(), "http://localhost:9999");
    assert_eq!(second.addr, "http://localhost:9999");
    assert!(model.complete_check(second.id, CheckOutcome::TransportFailure));
    assert!(!model.healthy_value());
}

#[test]
fn scenario_stale_slow_check_wins_the_race() {
    // Check A targets the first address and resolves last; check B targets
    // the new address, resolves first with 200, and is then overwritten by
    // A's failure: the accepted, unmitigated completion-order race.
    let (mut model, check_a) = AddressHealthModel::new("localhost".to_string(), "8080".to_string());
    let check_b = model.set_host("example.org".to_string()).unwrap();
    assert_eq!(model.in_flight_count(), 2);

    assert!(model.complete_check(check_b.id, CheckOutcome::Status(200)));
    assert!(model.healthy_value());

    assert!(model.complete_check(check_a.id, CheckOutcome::TransportFailure));
    assert!(!model.healthy_value());
    assert_eq!(model.in_flight_count(), 0);
}
