use akriveia::address::{MacAddress8, ShortAddress};
use akriveia::model::{Beacon, FloorPlan, RealtimeBeacon, RealtimeUserData, TrackedUser};
use akriveia::state::BeaconState;
use akriveia::status::{command_reply, status_failure, StatusBoard, StatusOp};

fn plan(id: i32, name: &str) -> FloorPlan<f64> {
    let mut m = FloorPlan::new(1.0f64);
    m.id = id;
    m.name = name.to_string();
    m
}

fn beacon(id: i32, map_id: Option<i32>, mac: u8) -> Beacon<[f64; 2]> {
    let mut b = Beacon::new([0.0f64, 0.0]);
    b.id = id;
    b.map_id = map_id;
    b.mac_address = MacAddress8::new([mac; 8]);
    b
}

fn user(id: i32, tag: Option<[u8; 2]>) -> TrackedUser<[f64; 2]> {
    let mut u = TrackedUser::new([0.0f64, 0.0]);
    u.id = id;
    u.mac_address = tag.map(ShortAddress::new);
    u
}

type Board = StatusBoard<[f64; 2], [f64; 2], f64>;

#[test]
fn plans_are_filed_under_their_keys_and_the_last_one_wins() {
    let mut board: Board = StatusBoard::new();
    assert!(board.floor_plan(1).is_none());
    board.maps_loaded(vec![plan(1, "first"), plan(2, "second"), plan(1, "again")]);
    assert_eq!(board.floor_plan(1).unwrap().name, "again");
    assert_eq!(board.floor_plan(2).unwrap().name, "second");
    assert!(board.floor_plan(3).is_none());
    board.map_loaded(plan(3, "third"));
    assert_eq!(board.floor_plan(3).unwrap().name, "third");
    assert!(board.beacon(1).is_none());
    assert!(board.user(1).is_none());
}

#[test]
fn only_beacons_on_a_plan_are_shown() {
    let mut board: Board = StatusBoard::new();
    board.beacons_loaded(vec![beacon(1, Some(7), 1), beacon(2, None, 2), beacon(3, Some(8), 3)]);
    assert_eq!(board.beacon(1).unwrap().map_id, Some(7));
    assert!(board.beacon(2).is_none());
    assert_eq!(board.beacon(3).unwrap().map_id, Some(8));
}

#[test]
fn run_time_states_update_known_beacons_only() {
    let mut board: Board = StatusBoard::new();
    board.beacons_loaded(vec![beacon(1, Some(7), 1)]);
    let mut rt = RealtimeBeacon::new();
    rt.id = 1;
    rt.mac_address = MacAddress8::new([1; 8]);
    rt.last_active = 1234;
    rt.state = BeaconState::Active;
    let mut stranger = RealtimeBeacon::new();
    stranger.id = 9;
    stranger.state = BeaconState::Rebooting;
    board.beacons_status(vec![rt, stranger]);
    let b = board.beacon(1).unwrap();
    assert_eq!(b.last_active, 1234);
    assert_eq!(b.state, BeaconState::Active);
    assert_eq!(b.map_id, Some(7));
    assert!(board.beacon(9).is_none());
}

#[test]
fn users_are_filed_and_take_their_locations() {
    let mut board: Board = StatusBoard::new();
    board.users_loaded(vec![user(1, Some([0, 1])), user(2, None)]);
    board.user_loaded(user(3, Some([0, 3])));
    assert!(board.user(2).is_some());
    let record: RealtimeUserData<[f64; 2], u8> = RealtimeUserData {
        id: 1,
        addr: ShortAddress::new([0, 1]),
        coordinates: [2.5, 3.5],
        last_active: 99,
        map_id: Some(4),
        beacon_tofs: vec![1, 2],
    };
    let unknown: RealtimeUserData<[f64; 2], u8> = RealtimeUserData {
        id: 5,
        addr: ShortAddress::new([0, 5]),
        coordinates: [1.0, 1.0],
        last_active: 1,
        map_id: None,
        beacon_tofs: vec![],
    };
    board.users_status(vec![record, unknown]);
    let u = board.user(1).unwrap();
    assert_eq!(u.coordinates, [2.5, 3.5]);
    assert_eq!(u.last_active, 99);
    assert_eq!(u.map_id, Some(4));
    assert_eq!(board.user(3).unwrap().last_active, user(3, None).last_active);
    assert!(board.user(5).is_none());
}

#[test]
fn replies_and_failures_read_as_shown() {
    assert_eq!(command_reply(true), Ok("Successfully sent command".to_string()));
    assert_eq!(command_reply(false), Err("failed to send command".to_string()));
    assert_eq!(status_failure(StatusOp::Maps, "down"), "failed to obtain maps list, reason: down");
    assert_eq!(status_failure(StatusOp::FloorPlan, "x"), "failed to get map, reason: x");
    assert_eq!(status_failure(StatusOp::Beacons, "x"), "failed to obtain beacon list, reason: x");
    assert_eq!(status_failure(StatusOp::BeaconsStatus, "x"), "failed to get beacons status, reason: x");
    assert_eq!(status_failure(StatusOp::User, "x"), "failed to get user, reason: x");
    assert_eq!(status_failure(StatusOp::Users, "x"), "failed to get user list, reason: x");
    assert_eq!(status_failure(StatusOp::UsersStatus, "x"), "failed to get user status, reason: x");
}

use akriveia::model::{BeaconRequest, WebUserType};
use akriveia::root::{Page, PageState};
use akriveia::status::{Action, Msg, Request, StatusPage};

type Page3 = StatusPage<[f64; 2], [f64; 2], f64>;

#[test]
fn the_status_page_asks_for_everything_and_polls() {
    let (page, actions): (Page3, _) = StatusPage::create(PageState::UserStatus, WebUserType::Admin);
    assert_eq!(actions.len(), 4);
    assert!(matches!(actions[0], Action::Send(Request::GetBeacons)));
    assert!(matches!(actions[1], Action::Send(Request::GetUsers)));
    assert!(matches!(actions[2], Action::Send(Request::GetMaps)));
    assert!(matches!(actions[3], Action::Poll(PageState::UserStatus)));
    assert!(page.change(PageState::UserStatus).is_empty());
    assert!(matches!(page.change(PageState::BeaconStatus)[..], [Action::SwitchTo(PageState::BeaconStatus)]));
}

#[test]
fn the_status_page_files_answers_and_reports_failures() {
    let (mut page, _): (Page3, _) = StatusPage::create(PageState::BeaconStatus, WebUserType::Admin);
    let actions = page.update::<u8>(Msg::ChangeStatus(PageState::UserStatus));
    assert!(matches!(actions[..], [Action::Poll(PageState::UserStatus)]));
    assert_eq!(page.state, PageState::UserStatus);
    page.update::<u8>(Msg::ResponseGetMaps(Ok(vec![plan(7, "ground")])));
    page.update::<u8>(Msg::ResponseGetBeacons(Ok(vec![beacon(1, Some(7), 1), beacon(2, None, 2)])));
    assert!(page.board.beacon(1).is_some());
    assert!(page.board.beacon(2).is_none());
    page.update::<u8>(Msg::ResponseGetUser(Ok(user(4, Some([0, 4])))));
    assert!(page.board.user(4).is_some());
    page.update::<u8>(Msg::ResponseGetUsers(Err("timeout".to_string())));
    assert_eq!(page.user_msg.error_messages, vec!["failed to get user list, reason: timeout".to_string()]);
    let actions = page.update::<u8>(Msg::Request(Request::GetUsersStatus));
    assert!(matches!(actions[..], [Action::Fetch(Request::GetUsersStatus)]));
    assert!(page.user_msg.error_messages.is_empty());
    page.update::<u8>(Msg::ResponseCommandBeacon(false));
    assert_eq!(page.user_msg.error_messages, vec!["failed to send command".to_string()]);
    page.update::<u8>(Msg::ResponseCommandBeacon(true));
    assert_eq!(page.user_msg.success_message.as_deref(), Some("Successfully sent command"));
    let mut keys = page.board.beacon_keys();
    keys.sort();
    assert_eq!(keys, vec![1]);
    assert_eq!(page.board.user_keys(), vec![4]);
}

#[test]
fn rows_name_the_floor_and_offer_commands() {
    let mut board: Board = StatusBoard::new();
    board.maps_loaded(vec![plan(7, "ground")]);
    let on_plan = beacon(1, Some(7), 1);
    let row = board.beacon_row(&on_plan, WebUserType::Admin);
    assert_eq!(row.floor, "ground");
    assert!(row.map_button);
    assert_eq!(row.commands.len(), 2);
    assert!(matches!(row.commands[0], BeaconRequest::Ping(Some(_))));
    assert!(matches!(row.commands[1], BeaconRequest::Reboot(Some(_))));
    let elsewhere = beacon(2, Some(9), 2);
    let row = board.beacon_row(&elsewhere, WebUserType::Responder);
    assert_eq!(row.floor, "");
    assert!(row.map_button);
    assert!(row.commands.is_empty());
    let mut u = user(3, None);
    let row = board.user_row(&u);
    assert!(!row.map_button && row.floor.is_empty());
    u.map_id = Some(9);
    assert!(!board.user_row(&u).map_button);
    u.map_id = Some(7);
    let row = board.user_row(&u);
    assert!(row.map_button);
    assert_eq!(row.floor, "ground");
    let _ = Page::UserList;
}
