use akriveia::address::MacAddress8;
use akriveia::error::{AkError, AkErrorType, MessageError};
use akriveia::address::ParseError;
use akriveia::model::{Beacon, BeaconRequest, DiagnosticData, LoginInfo, RealtimeBeacon, SystemCommandResponse};
use akriveia::network::{IpAddress, Ipv4Network, NetworkInterface, beacon_endpoints};
use akriveia::state::BeaconState;

#[test]
fn state_count_and_numbers() {
    assert_eq!(BeaconState::count(), 4);
    let all = [BeaconState::Unknown, BeaconState::Idle, BeaconState::Rebooting, BeaconState::Active];
    for (i, s) in all.iter().enumerate() {
        assert_eq!(usize::from(*s), i);
        assert!(usize::from(*s) < BeaconState::count());
    }
    assert_eq!(BeaconState::Rebooting.to_string(), "Rebooting");
    assert_eq!(BeaconState::Unknown.to_string(), "Unknown");
}

#[test]
fn errors_and_their_status_codes() {
    let e = AkError::not_found("no such beacon");
    assert_eq!(e.reason, "no such beacon");
    assert_eq!(e.t, AkErrorType::NotFound);
    assert_eq!(e.status_code(), 404);
    assert_eq!(e.to_string(), "no such beacon");
    assert_eq!(AkError::internal("x").status_code(), 500);
    assert_eq!(AkError::unauthorized("x").status_code(), 401);
    assert_eq!(AkError::validation("x").status_code(), 400);
    assert_eq!(MessageError::ParseFormat.to_string(), "Invalid message format");
    assert_eq!(MessageError::ParseFloat.to_string(), "Failed to parse float");
    assert_eq!(MessageError::from(ParseError::InvalidLength(3)), MessageError::ParseMac);
}

#[test]
fn plain_constructors() {
    assert!(SystemCommandResponse::new(true).emergency);
    assert!(matches!(BeaconRequest::default(), BeaconRequest::Ping(None)));
    let mut info = LoginInfo::new();
    assert!(info.name.is_empty() && info.pw.is_empty());
    info.name = "a".to_string();
    info.pw = "b".to_string();
    info.reset_pw();
    assert_eq!(info.name, "a");
    assert!(info.pw.is_empty());
    let d: DiagnosticData<f64> = DiagnosticData::new();
    assert!(d.tag_data.is_empty());
    let r = RealtimeBeacon::new();
    assert_eq!(r.id, -1);
    assert_eq!(r.state, BeaconState::Unknown);
}

#[test]
fn beacon_merge_takes_the_run_time_state() {
    let mut b = Beacon::new([0.0f64, 0.0]);
    assert_eq!(b.id, -1);
    b.id = 4;
    b.mac_address = MacAddress8::new([1; 8]);
    b.name = "hall".to_string();
    let mut rt = RealtimeBeacon::from(b.clone());
    assert_eq!(rt.id, 4);
    rt.last_active = 55;
    rt.state = BeaconState::Active;
    b.merge(rt);
    assert_eq!(b.last_active, 55);
    assert_eq!(b.state, BeaconState::Active);
    assert_eq!(b.name, "hall");
}

#[test]
fn networks() {
    assert!(Ipv4Network::new(0, 33).is_none());
    let n = Ipv4Network::new(0xc0a8_0100, 24).unwrap();
    assert_eq!(n.addr(), 0xc0a8_0100);
    assert_eq!(n.prefix_len(), 24);
    assert_eq!(n.broadcast(), 0xc0a8_01ff);
    assert_eq!(Ipv4Network::new(0x0a00_0000, 8).unwrap().broadcast(), 0x0aff_ffff);
    assert_eq!(Ipv4Network::new(5, 0).unwrap().broadcast(), u32::MAX);
    let u = Ipv4Network::unspecified();
    assert_eq!((u.addr(), u.prefix_len()), (0, 32));
    let mut a = NetworkInterface::new();
    assert_eq!(a.id, -1);
    a.beacon_port = Some(-2);
    let b = NetworkInterface::new();
    let eps = beacon_endpoints(&vec![a, b]);
    assert_eq!(eps.len(), 1);
    assert_eq!(eps[0].1, 65534);
    assert_eq!(IpAddress::V4(1), IpAddress::V4(1));
}
