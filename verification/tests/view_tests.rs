use akriveia::address::{MacAddress8, ShortAddress};
use akriveia::diagnostics::{self, Diagnostics, MAX_BUFFER_SIZE};
use akriveia::map_view::{Action, MapViewComponent, Msg, Request};
use akriveia::model::{Beacon, DiagnosticData, FloorPlan, RealtimeUserData, TagData, WebUserType};

fn plan(id: i32, name: &str) -> FloorPlan<f64> {
    let mut m = FloorPlan::new(1.0f64);
    m.id = id;
    m.name = name.to_string();
    m
}

fn point(beacon: u8, t: i64) -> TagData<f64> {
    TagData {
        beacon_mac: MacAddress8::new([0, 0, 0, 0, 0, 0, 0, beacon]),
        tag_distance: 1.5,
        tag_mac: ShortAddress::new([0, 1]),
        timestamp: t,
    }
}

fn located(id: i32, map_id: Option<i32>) -> RealtimeUserData<[f64; 2], u8> {
    RealtimeUserData {
        id,
        addr: ShortAddress::new([0, id as u8]),
        coordinates: [1.0, 2.0],
        last_active: 0,
        map_id,
        beacon_tofs: vec![],
    }
}

type View = MapViewComponent<f64, [f64; 2], [f64; 2], u8>;

#[test]
fn diagnostics_keep_the_newest_first() {
    let (mut d, actions): (Diagnostics<f64>, _) = Diagnostics::create(false);
    assert!(actions.is_empty());
    assert!(!d.polling);
    let data = DiagnosticData { tag_data: vec![point(1, 10), point(2, 20), point(1, 30)] };
    assert!(d.update(diagnostics::Msg::ResponseDiagnostics(Ok(data))).is_empty());
    let stamps: Vec<i64> = d.diagnostic_data.iter().map(|p| p.timestamp).collect();
    assert_eq!(stamps, vec![30, 20, 10]);
    assert_eq!(d.active_beacons(), vec![1, 2]);
    assert!(d.is_selected(&MacAddress8::new([0, 0, 0, 0, 0, 0, 0, 2])));
    d.update(diagnostics::Msg::ToggleBeaconSelected(MacAddress8::new([0, 0, 0, 0, 0, 0, 0, 1])));
    assert!(!d.is_selected(&MacAddress8::new([0, 0, 0, 0, 0, 0, 0, 1])));
    assert_eq!(d.shown_rows(), vec![1]);
    // a beacon seen before is not selected again
    d.update(diagnostics::Msg::ResponseDiagnostics(Ok(DiagnosticData { tag_data: vec![point(1, 40)] })));
    assert!(!d.is_selected(&MacAddress8::new([0, 0, 0, 0, 0, 0, 0, 1])));
    assert_eq!(d.shown_rows(), vec![2]);
    d.update(diagnostics::Msg::ClearBuffer);
    assert!(d.diagnostic_data.is_empty());
    assert_eq!(d.active_beacons(), vec![1, 2]);
}

#[test]
fn diagnostics_buffer_is_bounded() {
    let (mut d, _): (Diagnostics<f64>, _) = Diagnostics::create(true);
    assert!(d.polling);
    let many: Vec<TagData<f64>> = (0..100).map(|t| point(3, t)).collect();
    d.update(diagnostics::Msg::ResponseDiagnostics(Ok(DiagnosticData { tag_data: many })));
    assert_eq!(d.diagnostic_data.len(), MAX_BUFFER_SIZE);
    assert_eq!(d.diagnostic_data[0].timestamp, 99);
    assert_eq!(d.diagnostic_data[MAX_BUFFER_SIZE - 1].timestamp, 100 - MAX_BUFFER_SIZE as i64);
    d.update(diagnostics::Msg::ResponseDiagnostics(Err("down".to_string())));
    assert_eq!(d.user_msg.error_messages, vec!["failed to obtain diagnostics, reason: down".to_string()]);
    assert_eq!(d.update(diagnostics::Msg::RequestDiagnostics), vec![diagnostics::Action::FetchDiagnostics]);
    assert!(d.user_msg.error_messages.is_empty());
    assert_eq!(d.change(false), vec![diagnostics::Action::StopPolling]);
    assert!(d.diagnostic_data.is_empty());
    assert!(!d.polling);
}

#[test]
fn the_map_view_asks_for_what_it_shows() {
    let (view, actions): (View, _) = MapViewComponent::create(true, Some(4), WebUserType::Admin);
    assert_eq!(
        actions,
        vec![
            Action::Send(Request::GetMap(4)),
            Action::Send(Request::GetBeaconsForMap(4)),
            Action::Send(Request::GetMaps),
            Action::PollUsers,
        ]
    );
    assert!(view.polling_users);
    assert!(view.polled_map.is_none());
    let (_, actions): (View, _) = MapViewComponent::create(false, None, WebUserType::Responder);
    assert_eq!(actions, vec![Action::Send(Request::GetMaps)]);
}

#[test]
fn choosing_a_plan_shows_it_and_hides_it_again() {
    let (mut view, _): (View, _) = MapViewComponent::create(true, None, WebUserType::Admin);
    let actions = view.update(Msg::ResponseGetMaps(Ok(vec![plan(2, "upper"), plan(1, "lower")])));
    assert_eq!(actions, vec![Action::Choose(1)]);
    assert_eq!(view.maps[0].name, "lower");
    let actions = view.update(Msg::ChooseMap(1));
    assert_eq!(
        actions,
        vec![Action::LoadBlueprint(1), Action::Send(Request::GetMap(1)), Action::PollBeacons(1), Action::PollUsers]
    );
    assert_eq!(view.current_map.as_ref().unwrap().name, "lower");
    assert_eq!(view.polled_map, Some(1));
    assert!(view.checking_blueprint);
    assert!(view.update(Msg::CheckImage(false)).is_empty());
    assert_eq!(view.update(Msg::CheckImage(true)), vec![Action::StopBlueprintCheck]);
    assert!(!view.checking_blueprint);
    let actions = view.update(Msg::ChooseMap(1));
    assert!(view.current_map.is_none());
    assert_eq!(actions, vec![Action::PollUsers]);
    assert!(view.update(Msg::ChooseMap(9)).len() == 1);
    assert!(view.current_map.is_none());
}

#[test]
fn a_plan_received_replaces_the_listed_one() {
    let (mut view, _): (View, _) = MapViewComponent::create(false, None, WebUserType::Responder);
    view.update(Msg::ResponseGetMaps(Ok(vec![plan(1, "a"), plan(2, "b")])));
    let actions = view.update(Msg::ResponseGetMap(Ok(plan(2, "renamed"))));
    assert_eq!(actions, vec![Action::LoadBlueprint(2)]);
    assert_eq!(view.current_map.as_ref().unwrap().name, "renamed");
    assert_eq!(view.maps[1].name, "renamed");
    assert_eq!(view.maps[0].name, "a");
    view.update(Msg::ResponseGetMap(Err("gone".to_string())));
    assert_eq!(view.user_msg.error_messages, vec!["failed to get map, reason: gone".to_string()]);
    assert_eq!(view.update(Msg::Request(Request::GetMaps)), vec![Action::Fetch(Request::GetMaps)]);
    assert!(view.user_msg.error_messages.is_empty());
}

#[test]
fn only_tags_on_the_plan_shown_are_kept() {
    let (mut view, _): (View, _) = MapViewComponent::create(true, None, WebUserType::Admin);
    view.update(Msg::ResponseGetMaps(Ok(vec![plan(1, "a")])));
    view.update(Msg::ChooseMap(1));
    view.update(Msg::ResponseRealtimeUser(Ok(vec![located(1, Some(1)), located(2, Some(2)), located(3, None), located(4, Some(1))])));
    let ids: Vec<i32> = view.realtime_users.iter().map(|u| u.id).collect();
    assert_eq!(ids, vec![1, 4]);
    let mut b = Beacon::new([0.0f64, 0.0]);
    b.id = 8;
    view.update(Msg::ResponseGetBeaconsForMap(Ok(vec![b])));
    assert_eq!(view.beacons[0].id, 8);
    assert_eq!(view.change(false), vec![Action::StopPolling]);
    assert!(view.realtime_users.is_empty());
    assert!(!view.polling_users);
    assert_eq!(view.change(true), vec![Action::StopPolling, Action::PollBeacons(1), Action::PollUsers]);
}

#[test]
fn display_toggles() {
    let (mut view, _): (View, _) = MapViewComponent::create(false, None, WebUserType::Admin);
    view.update(Msg::ToggleGrid);
    assert!(view.show_grid);
    view.update(Msg::ViewDistance(ShortAddress::new([0, 7])));
    assert_eq!(view.show_distance, Some(ShortAddress::new([0, 7])));
    view.update(Msg::ViewDistance(ShortAddress::new([0, 8])));
    assert_eq!(view.show_distance, Some(ShortAddress::new([0, 8])));
    view.update(Msg::ViewDistance(ShortAddress::new([0, 8])));
    assert_eq!(view.show_distance, None);
    assert!(view.update(Msg::Ignore).is_empty());
}

#[test]
fn beacons_are_drawn_for_an_administrator() {
    let (mut view, _): (View, _) = MapViewComponent::create(false, None, WebUserType::Responder);
    assert_eq!(view.drawing(), None);
    view.update(Msg::ResponseGetMaps(Ok(vec![plan(1, "a")])));
    view.update(Msg::ChooseMap(1));
    assert_eq!(view.drawing(), Some(false));
    view.user_type = WebUserType::Admin;
    assert_eq!(view.drawing(), Some(true));
}

#[test]
fn toggling_twice_changes_nothing() {
    let (mut d, _): (Diagnostics<f64>, _) = Diagnostics::create(false);
    d.update(diagnostics::Msg::ResponseDiagnostics(Ok(DiagnosticData { tag_data: vec![point(5, 1)] })));
    let mac = MacAddress8::new([0, 0, 0, 0, 0, 0, 0, 5]);
    let other = MacAddress8::new([0, 0, 0, 0, 0, 0, 0, 6]);
    for m in [mac, other] {
        let before = d.is_selected(&m);
        d.update(diagnostics::Msg::ToggleBeaconSelected(m));
        assert_ne!(d.is_selected(&m), before);
        d.update(diagnostics::Msg::ToggleBeaconSelected(m));
        assert_eq!(d.is_selected(&m), before);
    }
    let (mut view, _): (View, _) = MapViewComponent::create(false, None, WebUserType::Admin);
    view.update(Msg::ToggleGrid);
    view.update(Msg::ToggleGrid);
    assert!(!view.show_grid);
}
