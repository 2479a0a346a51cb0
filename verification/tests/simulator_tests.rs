use akriveia::address::{MacAddress8, ShortAddress};
use akriveia::manager::{BMResponse, BeaconCommand};
use akriveia::network::IpAddress;
use akriveia::simulator::{SimulatedBeacon, SimulatedBeacons};

fn beacons() -> Vec<SimulatedBeacon> {
    (1..=3u8).map(|i| SimulatedBeacon { ip: IpAddress::V4(i as u32), mac: MacAddress8::new([i; 8]) }).collect()
}

#[test]
fn every_beacon_acknowledges_a_broadcast() {
    let mut s = SimulatedBeacons::new();
    let r: Vec<BMResponse<f64>> = s.on_command(BeaconCommand::Ping(None), &beacons(), false);
    assert_eq!(r.len(), 3);
    assert!(matches!(r[0], BMResponse::Ping(IpAddress::V4(1), _)));
    assert!(matches!(r[2], BMResponse::Ping(IpAddress::V4(3), _)));
}

#[test]
fn a_targeted_command_reaches_one_beacon() {
    let mut s = SimulatedBeacons::new();
    let r: Vec<BMResponse<f64>> = s.on_command(BeaconCommand::Reboot(Some(IpAddress::V4(2))), &beacons(), false);
    assert_eq!(r.len(), 1);
    assert!(matches!(r[0], BMResponse::Reboot(IpAddress::V4(2), _)));
    let none: Vec<BMResponse<f64>> = s.on_command(BeaconCommand::Reboot(Some(IpAddress::V4(9))), &beacons(), false);
    assert!(none.is_empty());
}

#[test]
fn emergencies_start_and_stop_report_timers() {
    let mut s = SimulatedBeacons::new();
    let _: Vec<BMResponse<f64>> = s.on_command(BeaconCommand::StartEmergency(None), &beacons(), false);
    let _: Vec<BMResponse<f64>> = s.on_command(BeaconCommand::StartEmergency(None), &beacons(), false);
    assert_eq!(s.timers, 2);
    let _: Vec<BMResponse<f64>> = s.on_command(BeaconCommand::EndEmergency(None), &beacons(), false);
    assert_eq!(s.timers, 1);
    let _: Vec<BMResponse<f64>> = s.on_command(BeaconCommand::EndEmergency(None), &beacons(), false);
    assert_eq!(s.timers, 1);
}

#[test]
fn a_beacon_that_goes_down_stays_silent_until_woken() {
    let mut s = SimulatedBeacons::new();
    let tag = ShortAddress::new([0, 7]);
    let r = s.report(&beacons(), tag, &vec![1.5, 2.5, 3.5], &vec![false, true, false], 42);
    assert_eq!(r.len(), 2);
    match r[1] {
        BMResponse::TagData(ip, t) => {
            assert_eq!(ip, IpAddress::V4(3));
            assert_eq!(t.tag_distance, 3.5);
            assert_eq!(t.tag_mac, tag);
            assert_eq!(t.timestamp, 42);
        },
        _ => panic!("expected a report"),
    }
    assert_eq!(s.down, Some(IpAddress::V4(2)));
    let again = s.report(&beacons(), tag, &vec![1.0, 1.0, 1.0], &vec![true, true, true], 43);
    assert_eq!(again.len(), 2);
    let acks: Vec<BMResponse<f64>> = s.on_command(BeaconCommand::Ping(None), &beacons(), false);
    assert_eq!(acks.len(), 2);
    let woken: Vec<BMResponse<f64>> = s.on_command(BeaconCommand::Ping(Some(IpAddress::V4(2))), &beacons(), true);
    assert_eq!(woken.len(), 1);
    assert_eq!(s.down, None);
}
