use akriveia::address::{MacAddress8, ShortAddress};
use akriveia::manager::{
    BMCommand, BMResponse, BeaconCommand, BeaconManager, ManagerAction, PingRate, ResponseAction, EMERGENCY_PING_INTERVAL_MS,
    PING_INTERVAL_MS, RESPONSE_THRESHOLD_NS,
};
use akriveia::model::{RealtimeBeacon, TagData};
use akriveia::network::IpAddress;
use akriveia::state::BeaconState;

const NOW: i64 = 1_000_000_000_000;
const SECOND: i64 = 1_000_000_000;

fn beacon(last: u8, ip: u32) -> RealtimeBeacon {
    let mut b = RealtimeBeacon::new();
    b.id = last as i32;
    b.mac_address = MacAddress8::new([0, 0, 0, 0, 0, 0, 0, last]);
    b.ip = IpAddress::V4(ip);
    b.state = BeaconState::Idle;
    b
}

fn manager_with(beacons: Vec<RealtimeBeacon>) -> BeaconManager<f64> {
    let mut m: BeaconManager<f64> = BeaconManager::new();
    assert!(matches!(m.load_beacons(beacons), BMCommand::Ping(None)));
    m
}

#[test]
fn new_manager_is_idle_and_empty() {
    let m: BeaconManager<f64> = BeaconManager::new();
    assert_eq!(m.state(), BeaconState::Idle);
    assert!(!m.is_emergency());
    assert!(m.realtime_beacons().is_empty());
    assert!(m.unknown_beacons().is_empty());
}

#[test]
fn starting_an_emergency_speeds_up_the_pinger_and_alerts_every_beacon() {
    let mut m = manager_with(vec![beacon(1, 10), beacon(2, 11)]);
    let (actions, emergency) = m.handle_command(BMCommand::StartEmergency(None), NOW);
    assert!(emergency);
    assert_eq!(
        actions,
        vec![
            ManagerAction::RestartPinger(PingRate::Emergency),
            ManagerAction::MassSend(BeaconCommand::StartEmergency(None)),
            ManagerAction::ScheduleHealthCheck,
        ]
    );
    assert_eq!(m.state(), BeaconState::Active);
    // A second start does not restart the pinger, and no second health check is asked for.
    let (again, _) = m.handle_command(BMCommand::StartEmergency(None), NOW);
    assert_eq!(again, vec![ManagerAction::MassSend(BeaconCommand::StartEmergency(None))]);
    let (end, emergency) = m.handle_command(BMCommand::EndEmergency(None), NOW);
    assert!(!emergency);
    assert_eq!(end[0], ManagerAction::RestartPinger(PingRate::Normal));
    assert_eq!(m.state(), BeaconState::Idle);
}

#[test]
fn a_request_to_one_beacon_goes_to_its_address() {
    let mut m = manager_with(vec![beacon(1, 10), beacon(2, 11)]);
    let target = MacAddress8::new([0, 0, 0, 0, 0, 0, 0, 2]);
    let (actions, _) = m.handle_command(BMCommand::Ping(Some(target)), NOW);
    assert_eq!(
        actions,
        vec![ManagerAction::MassSend(BeaconCommand::Ping(Some(IpAddress::V4(11)))), ManagerAction::ScheduleHealthCheck]
    );
    let unknown = MacAddress8::new([9; 8]);
    let (none, _) = m.handle_command(BMCommand::Reboot(Some(unknown)), NOW);
    assert!(none.is_empty());
}

#[test]
fn other_commands() {
    let mut m = manager_with(vec![beacon(1, 10)]);
    let (scan, _) = m.handle_command(BMCommand::ScanBeacons, NOW);
    assert_eq!(scan, vec![ManagerAction::ScanBeacons, ManagerAction::ScheduleHealthCheck]);
    let (get, emergency) = m.handle_command(BMCommand::GetEmergency, NOW);
    assert!(get.is_empty());
    assert!(!emergency);
    let (set, _) = m.handle_command(BMCommand::SetIp(0x0a000001), NOW);
    assert_eq!(set, vec![ManagerAction::MassSend(BeaconCommand::SetIp(0x0a000001))]);
}

#[test]
fn an_answered_request_is_closed_by_the_health_check() {
    let mut m = manager_with(vec![beacon(1, 10)]);
    m.handle_command(BMCommand::Ping(None), NOW);
    let reply: BMResponse<f64> = BMResponse::Ping(IpAddress::V4(20), MacAddress8::new([0, 0, 0, 0, 0, 0, 0, 1]));
    assert!(matches!(m.handle_response(reply, NOW + 1, true), ResponseAction::Nothing));
    let report = m.check_health();
    assert_eq!(report.commands.len(), 1);
    assert!(report.commands[0].1.is_none());
    assert!(!report.reschedule);
    let beacons = m.realtime_beacons();
    assert_eq!(beacons[0].ip, IpAddress::V4(20));
    assert_eq!(beacons[0].last_active, NOW + 1);
}

#[test]
fn a_silent_beacon_is_pinged_then_rebooted_then_given_up() {
    let mut m = manager_with(vec![beacon(1, 10)]);
    m.handle_command(BMCommand::Ping(None), NOW);
    let mac = MacAddress8::new([0, 0, 0, 0, 0, 0, 0, 1]);
    for _ in 0..4 {
        let r = m.check_health();
        assert!(matches!(r.commands[0].1, Some(BMCommand::Ping(Some(x))) if x == mac));
        assert!(r.reschedule);
    }
    let r = m.check_health();
    assert!(matches!(r.commands[0].1, Some(BMCommand::Reboot(Some(_)))));
    assert_eq!(m.realtime_beacons()[0].state, BeaconState::Rebooting);
    for _ in 0..4 {
        let r = m.check_health();
        assert!(r.commands[0].1.is_none());
    }
    let r = m.check_health();
    assert!(r.commands[0].1.is_none());
    assert!(r.reschedule);
    assert_eq!(m.realtime_beacons()[0].state, BeaconState::Unknown);
    let r = m.check_health();
    assert!(!r.reschedule);
}

#[test]
fn a_beacon_in_the_wrong_state_is_told_to_switch() {
    let mut m = manager_with(vec![beacon(1, 10)]);
    m.handle_command(BMCommand::StartEmergency(None), NOW);
    let mac = MacAddress8::new([0, 0, 0, 0, 0, 0, 0, 1]);
    let reply: BMResponse<f64> = BMResponse::Ping(IpAddress::V4(10), mac);
    m.handle_response(reply, NOW + SECOND, true);
    let r = m.check_health();
    assert!(matches!(r.commands[0].1, Some(BMCommand::StartEmergency(Some(_)))));
    assert!(!r.reschedule);
    let ack: BMResponse<f64> = BMResponse::Start(IpAddress::V4(10), mac);
    m.handle_response(ack, NOW + 2 * SECOND, true);
    assert_eq!(m.realtime_beacons()[0].state, BeaconState::Active);
    let r = m.check_health();
    assert!(r.commands[0].1.is_none());
}

#[test]
fn measurements_are_kept_forwarded_or_dropped() {
    let mut m = manager_with(vec![beacon(1, 10)]);
    let t = TagData { beacon_mac: MacAddress8::new([0, 0, 0, 0, 0, 0, 0, 1]), tag_distance: 2.5, tag_mac: ShortAddress::new([1, 2]), timestamp: NOW };
    assert!(matches!(m.handle_response(BMResponse::TagData(IpAddress::V4(10), t), NOW, true), ResponseAction::ForwardTagData(_)));
    assert!(matches!(m.handle_response(BMResponse::TagData(IpAddress::V4(10), t), NOW, false), ResponseAction::Nothing));
    let kept = m.take_diagnostics();
    assert_eq!(kept.len(), 1);
    assert_eq!(kept[0].tag_distance, 2.5);
    assert!(m.take_diagnostics().is_empty());
    let stranger = TagData { beacon_mac: MacAddress8::new([7; 8]), ..t };
    assert!(matches!(m.handle_response(BMResponse::TagData(IpAddress::V4(10), stranger), NOW, true), ResponseAction::Nothing));
    assert_eq!(m.unknown_beacons(), vec![MacAddress8::new([7; 8]).key()]);
}

#[test]
fn an_unknown_beacon_is_looked_up() {
    let mut m = manager_with(vec![]);
    let mac = MacAddress8::new([0, 0, 0, 0, 0, 0, 0, 5]);
    let reply: BMResponse<f64> = BMResponse::Reboot(IpAddress::V4(3), mac);
    assert!(matches!(m.handle_response(reply, NOW, true), ResponseAction::LookUpBeacon(x) if x == mac));
    assert!(matches!(m.beacon_found(mac, Some(beacon(5, 3))), Some(BMCommand::Ping(Some(_)))));
    assert_eq!(m.realtime_beacons().len(), 1);
    let other = MacAddress8::new([0, 0, 0, 0, 0, 0, 0, 6]);
    assert!(m.beacon_found(other, None).is_none());
    assert_eq!(m.unknown_beacons(), vec![6]);
}

#[test]
fn ping_intervals() {
    assert_eq!(PingRate::Normal.interval_ms(), PING_INTERVAL_MS);
    assert_eq!(PingRate::Emergency.interval_ms(), EMERGENCY_PING_INTERVAL_MS);
    assert_eq!(RESPONSE_THRESHOLD_NS, 2 * SECOND);
}

#[test]
fn a_second_request_keeps_the_open_one() {
    let mut m = manager_with(vec![beacon(1, 10)]);
    m.handle_command(BMCommand::Ping(None), NOW);
    // A second request ten seconds later does not move the deadline of the first.
    m.handle_command(BMCommand::Ping(None), NOW + 10 * SECOND);
    let reply: BMResponse<f64> = BMResponse::Ping(IpAddress::V4(10), MacAddress8::new([0, 0, 0, 0, 0, 0, 0, 1]));
    m.handle_response(reply, NOW + 5 * SECOND, true);
    let r = m.check_health();
    assert!(r.commands[0].1.is_none());
    assert!(!r.reschedule);
}

#[test]
fn health_check_commands_come_in_address_order() {
    let mut m = manager_with(vec![beacon(3, 13), beacon(1, 11), beacon(2, 12)]);
    m.handle_command(BMCommand::Ping(None), NOW);
    let r = m.check_health();
    let keys: Vec<u64> = r.commands.iter().map(|c| c.0).collect();
    assert_eq!(keys, vec![1, 2, 3]);
    let ids: Vec<i32> = m.realtime_beacons().iter().map(|b| b.id).collect();
    assert_eq!(ids, vec![1, 2, 3]);
}
