use akriveia::address::{MacAddress8, ShortAddress};
use akriveia::history::{BeaconSite, DataProcessor, Placement, RecordOutcome, LOCATION_HISTORY_SIZE, place_readings};
use akriveia::model::TagData;

fn mac(last: u8) -> MacAddress8 {
    MacAddress8::new([0, 0, 0, 0, 0, 0, 0, last])
}

fn reading(tag: u8, beacon: u8, d: f64, t: i64) -> TagData<f64> {
    TagData { beacon_mac: mac(beacon), tag_distance: d, tag_mac: ShortAddress::new([0, tag]), timestamp: t }
}

#[test]
fn an_untracked_tag_is_looked_up() {
    let mut p: DataProcessor<f64, String> = DataProcessor::new();
    match p.record(reading(1, 1, 1.0, 10)) {
        RecordOutcome::LookUpUser(a) => assert_eq!(a, ShortAddress::new([0, 1])),
        _ => panic!("expected a lookup"),
    }
    assert!(p.users().is_empty());
    p.user_found(reading(1, 1, 1.0, 10), None);
    assert!(p.users().is_empty());
}

#[test]
fn three_beacons_make_a_location_request() {
    let mut p: DataProcessor<f64, String> = DataProcessor::new();
    p.user_found(reading(1, 1, 1.0, 10), Some(("ann".to_string(), 5)));
    assert_eq!(p.users().len(), 1);
    assert_eq!(p.users()[0].2, 5);
    assert_eq!(p.user(&ShortAddress::new([0, 1])), Some(&"ann".to_string()));
    assert!(matches!(p.record(reading(1, 1, 2.0, 20)), RecordOutcome::Recorded));
    assert!(matches!(p.record(reading(1, 2, 3.0, 30)), RecordOutcome::Recorded));
    match p.record(reading(1, 3, 4.0, 40)) {
        RecordOutcome::Locate(v) => {
            assert_eq!(v.len(), 3);
            for w in &v {
                assert_eq!(w.timestamp, 40);
                if w.beacon == mac(1) {
                    assert_eq!(w.distances, vec![1.0, 2.0]);
                } else if w.beacon == mac(2) {
                    assert_eq!(w.distances, vec![3.0]);
                } else {
                    assert_eq!(w.beacon, mac(3));
                    assert_eq!(w.distances, vec![4.0]);
                }
            }
        },
        _ => panic!("expected a location request"),
    }
    assert_eq!(p.users()[0].2, 40);
}

#[test]
fn a_window_keeps_the_last_five_distances() {
    let mut p: DataProcessor<f64, u32> = DataProcessor::new();
    p.user_found(reading(2, 1, 0.0, 0), Some((7, 0)));
    p.record(reading(2, 2, 0.5, 1));
    for i in 1..9 {
        p.record(reading(2, 1, i as f64, i));
    }
    match p.record(reading(2, 3, 9.0, 9)) {
        RecordOutcome::Locate(v) => {
            let w = v.iter().find(|w| w.beacon == mac(1)).unwrap();
            assert_eq!(w.distances.len(), LOCATION_HISTORY_SIZE);
            assert_eq!(w.distances, vec![4.0, 5.0, 6.0, 7.0, 8.0]);
        },
        _ => panic!("expected a location request"),
    }
}

#[test]
fn set_user_and_clear() {
    let mut p: DataProcessor<f64, u32> = DataProcessor::new();
    p.user_found(reading(3, 1, 1.0, 1), Some((1, 1)));
    assert!(p.set_user(&ShortAddress::new([0, 3]), 2, 77));
    assert_eq!(p.user(&ShortAddress::new([0, 3])), Some(&2));
    assert_eq!(p.users()[0].2, 77);
    assert!(!p.set_user(&ShortAddress::new([0, 4]), 2, 77));
    p.clear();
    assert!(p.users().is_empty());
}

fn site(last: u8, map: Option<i32>) -> BeaconSite {
    BeaconSite { mac: mac(last), map_id: map }
}

#[test]
fn readings_are_matched_in_beacon_order() {
    let beacons = vec![site(3, Some(9)), site(1, Some(9)), site(2, Some(8))];
    let readings = vec![reading(1, 1, 1.0, 100), reading(1, 2, 2.0, 300), reading(1, 3, 3.0, 200)];
    match place_readings(&beacons, readings) {
        Placement::Ready { readings, timestamp, map_id } => {
            assert_eq!(readings.iter().map(|r| r.beacon_mac).collect::<Vec<_>>(), vec![mac(3), mac(1), mac(2)]);
            assert_eq!(readings.iter().map(|r| r.tag_distance).collect::<Vec<_>>(), vec![3.0, 1.0, 2.0]);
            assert_eq!(timestamp, 300);
            assert_eq!(map_id, Some(9));
        },
        _ => panic!("expected a placement"),
    }
}

#[test]
fn placement_failures() {
    let three = vec![reading(1, 1, 1.0, 1), reading(1, 2, 2.0, 2), reading(1, 3, 3.0, 3)];
    assert!(matches!(place_readings(&vec![site(1, None), site(2, Some(1)), site(3, Some(1))], three.clone()), Placement::NotOnMap));
    assert!(matches!(place_readings(&vec![site(1, Some(1)), site(2, Some(1))], three.clone()), Placement::TooFewBeacons));
    assert!(matches!(
        place_readings(&vec![site(1, Some(1)), site(2, Some(1)), site(3, Some(1))], three[..2].to_vec()),
        Placement::TooFewReadings
    ));
    assert!(matches!(
        place_readings(&vec![site(1, Some(1)), site(2, Some(1)), site(4, Some(1))], three.clone()),
        Placement::Stale
    ));
}

#[test]
fn placement_time_is_never_before_the_epoch() {
    let beacons = vec![site(1, Some(1)), site(2, Some(1)), site(3, Some(1))];
    let readings = vec![reading(1, 1, 1.0, -5), reading(1, 2, 2.0, -3), reading(1, 3, 3.0, -9)];
    match place_readings(&beacons, readings) {
        Placement::Ready { timestamp, .. } => assert_eq!(timestamp, 0),
        _ => panic!("expected a placement"),
    }
}
