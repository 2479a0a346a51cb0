use akriveia::address::MacAddress8;
use akriveia::beacon_query;
use akriveia::manager::BMCommand;
use akriveia::model::BeaconRequest;
use akriveia::routes::{
    command_for_request, emergency_command, is_responder, optional_path_id, parse_i32, path_id,
    responder_session, restart_allowed,
};
use akriveia::urls::{
    beacon_command_url, beacon_url, beacons_for_map_url, beacons_status_url, beacons_url, map_url, maps_url,
    network_url, networks_url, session_check_url, session_login_url, session_logout_url, system_diagnostics_url,
    system_emergency_url, user_url, users_status_url, users_url,
};
use akriveia::user_query;

#[test]
fn routes_with_a_key() {
    assert_eq!(beacon_url("5"), "/beacon/5");
    assert_eq!(beacons_for_map_url("12"), "/map/12/beacons");
    assert_eq!(user_url("abc"), "/user/abc");
    assert_eq!(map_url("3"), "/map/3");
    assert_eq!(network_url("-1"), "/network/-1");
}

#[test]
fn fixed_routes() {
    assert_eq!(beacon_command_url(), "/beacons/command");
    assert_eq!(beacons_url(), "/beacons");
    assert_eq!(beacons_status_url(), "/beacons/status");
    assert_eq!(users_url(), "/users");
    assert_eq!(users_status_url(), "/users/status");
    assert_eq!(maps_url(), "/maps");
    assert_eq!(networks_url(), "/networks");
    assert_eq!(system_emergency_url(), "/system/emergency");
    assert_eq!(system_diagnostics_url(), "/system/diagnostics");
    assert_eq!(session_login_url(), "/session/login");
    assert_eq!(session_logout_url(), "/session/logout");
    assert_eq!(session_check_url(), "/session/check");
}

#[test]
fn integers_are_read_as_str_parse_reads_them() {
    for text in [
        "0", "7", "-7", "+7", "007", "-0", "2147483647", "-2147483648", "", "+", "-", "1a", " 1", "2147483648",
        "-2147483649", "99999999999", "99999999999x", "x99999999999", "-99999999999", "12é", "++1", "+-1",
    ] {
        assert_eq!(parse_i32(text).map_err(|e| e.to_string()), text.parse::<i32>().map_err(|e| e.to_string()), "{:?}", text);
    }
}

#[test]
fn path_keys() {
    assert_eq!(path_id(Some("42")), Some(42));
    assert_eq!(path_id(Some("-1")), None);
    assert_eq!(path_id(Some("x")), None);
    assert_eq!(path_id(None), None);
    assert_eq!(optional_path_id(Some("-1")), Some(-1));
    assert_eq!(optional_path_id(Some("q")), None);
    assert_eq!(optional_path_id(None), None);
}

#[test]
fn beacon_requests_become_commands() {
    let mac = MacAddress8::new([1, 2, 3, 4, 5, 6, 7, 8]);
    assert!(matches!(command_for_request(BeaconRequest::StartEmergency(Some(mac))), BMCommand::StartEmergency(Some(m)) if m == mac));
    assert!(matches!(command_for_request(BeaconRequest::EndEmergency(None)), BMCommand::EndEmergency(None)));
    assert!(matches!(command_for_request(BeaconRequest::Ping(None)), BMCommand::Ping(None)));
    assert!(matches!(command_for_request(BeaconRequest::Reboot(Some(mac))), BMCommand::Reboot(Some(_))));
    assert!(matches!(command_for_request(BeaconRequest::default()), BMCommand::Ping(None)));
}

#[test]
fn emergency_requests_address_every_beacon() {
    assert!(matches!(emergency_command(true), BMCommand::StartEmergency(None)));
    assert!(matches!(emergency_command(false), BMCommand::EndEmergency(None)));
}

#[test]
fn sessions() {
    assert!(is_responder("responder"));
    assert!(!is_responder("admin"));
    let info = responder_session("responder");
    assert_eq!(info.name, "responder");
    assert_eq!(info.pw, "responder");
    assert!(restart_allowed(Some("admin")));
    assert!(!restart_allowed(Some("responder")));
    assert!(!restart_allowed(None));
}

#[test]
fn query_defaults() {
    let b = beacon_query::GetParams { prefetch: None };
    assert!(!b.prefetch());
    assert!(beacon_query::GetParams { prefetch: Some(true) }.prefetch());
    let u = user_query::GetParams { prefetch: None, include_contacts: None };
    assert!(!u.prefetch());
    assert!(u.include_contacts());
    let v = user_query::GetParams { prefetch: Some(true), include_contacts: Some(false) };
    assert!(v.prefetch());
    assert!(!v.include_contacts());
}
