use akriveia::forms::{
    BeaconAction, BeaconForm, BeaconMsg, CoordReading, FormRequest, MapAction, MapForm, MapMsg, UserAction, UserField,
    UserForm, UserMsg,
};
use akriveia::manager::{BMCommand, BeaconManager};
use akriveia::model::{Beacon, FloorPlan, TrackedUser, UserType};
use akriveia::address::{MacAddress8, ShortAddress};
use akriveia::root::Page;
use akriveia::state::BeaconState;

type Pos = (f64, f64);

#[test]
fn submitting_a_user_form_clears_messages_and_reports_one_error() {
    let (mut f, actions): (UserForm<Pos>, _) = UserForm::create(Some(7), (0.0, 0.0));
    assert_eq!(actions, vec![UserAction::FetchUser(7)]);
    f.update(UserMsg::ResponseGetUser(Err("gone".to_string())), (0.0, 0.0));
    assert_eq!(f.user_msg.error_messages, vec!["failed to find user, reason: gone".to_string()]);
    f.update(UserMsg::InputMacAddress("zz".to_string()), (0.0, 0.0));
    let actions = f.update(UserMsg::RequestAddUpdateUser, (0.0, 0.0));
    assert!(actions.is_empty());
    assert_eq!(
        f.user_msg.error_messages,
        vec!["failed to parse mac address: Invalid length; expecting 5 or 6 chars, found 2".to_string()]
    );
    f.update(UserMsg::Input(UserField::Name, "Ann".to_string(), UserType::Normal), (0.0, 0.0));
    f.update(UserMsg::Input(UserField::Name, "Bob".to_string(), UserType::Contact), (0.0, 0.0));
    f.update(UserMsg::InputMacAddress("01:02".to_string()), (0.0, 0.0));
    let actions = f.update(UserMsg::RequestAddUpdateUser, (0.0, 0.0));
    assert_eq!(actions, vec![UserAction::Submit(FormRequest::Update(7))]);
    assert!(f.user_msg.error_messages.is_empty() && f.user_msg.success_message.is_none());
    assert_eq!(f.user.id, 7);
    assert_eq!(f.user.mac_address, Some(ShortAddress::new([1, 2])));
    assert_eq!(f.emergency_user.as_ref().unwrap().attached_user, Some(7));
    let saved = f.user.clone();
    f.update(UserMsg::ResponseUpdateUser(Ok((saved, None))), (0.0, 0.0));
    assert_eq!(f.user_msg.success_message.as_deref(), Some("successfully updated user"));
    assert!(f.emergency_user.is_none());
    f.update(UserMsg::AddAnotherUser, (1.0, 1.0));
    assert!(f.id.is_none());
    assert_eq!(f.raw_mac, "00:00");
    assert_eq!(f.user_msg.success_message.as_deref(), Some("successfully updated user"));
    let mut added = TrackedUser::new((0.0, 0.0));
    added.id = 12;
    f.update(UserMsg::ResponseAddUser(Ok((added, None))), (0.0, 0.0));
    assert_eq!(f.id, Some(12));
    assert_eq!(f.user_msg.success_message.as_deref(), Some("successfully added user"));
    assert_eq!(f.update(UserMsg::ChangeRootPage(Page::UserList), (0.0, 0.0)), vec![UserAction::ShowPage(Page::UserList)]);
}

#[test]
fn submitting_a_beacon_form_reads_address_then_coordinates() {
    let (mut f, actions): (BeaconForm<Pos, FloorPlan<f64>>, _) = BeaconForm::create(None, (0.0, 0.0));
    assert_eq!(actions, vec![BeaconAction::FetchFloors]);
    f.update(BeaconMsg::InputMacAddress("01:02".to_string()), (0.0, 0.0));
    let actions = f.update(BeaconMsg::RequestAddUpdateBeacon(CoordReading::Both((1.0, 2.0))), (0.0, 0.0));
    assert!(actions.is_empty());
    assert_eq!(
        f.user_msg.error_messages,
        vec!["failed to parse mac address: Invalid length; expecting 23 or 18 chars, found 5".to_string()]
    );
    f.update(BeaconMsg::InputMacAddress("01:02:03:04:05:06:07:08".to_string()), (0.0, 0.0));
    let actions = f.update(BeaconMsg::RequestAddUpdateBeacon(CoordReading::BadY((3.0, 0.0), "invalid float literal".to_string())), (0.0, 0.0));
    assert!(actions.is_empty());
    assert_eq!(f.user_msg.error_messages, vec!["failed to parse y coordinate: invalid float literal".to_string()]);
    assert_eq!(f.beacon.coordinates, (3.0, 0.0));
    assert_eq!(f.beacon.mac_address, MacAddress8::new([1, 2, 3, 4, 5, 6, 7, 8]));
    f.update(BeaconMsg::RequestAddUpdateBeacon(CoordReading::BadX("invalid float literal".to_string())), (0.0, 0.0));
    assert_eq!(f.user_msg.error_messages, vec!["failed to parse x coordinate: invalid float literal".to_string()]);
    let actions = f.update(BeaconMsg::RequestAddUpdateBeacon(CoordReading::Both((1.0, 2.0))), (0.0, 0.0));
    assert_eq!(actions, vec![BeaconAction::Submit(FormRequest::Add)]);
    assert!(f.user_msg.error_messages.is_empty());
    assert_eq!(f.beacon.coordinates, (1.0, 2.0));
    let mut b = Beacon::new((1.0, 2.0));
    b.id = 4;
    f.update(BeaconMsg::ResponseAddBeacon(Ok(b)), (0.0, 0.0));
    assert_eq!(f.id, Some(4));
    assert_eq!(f.user_msg.success_message.as_deref(), Some("successfully added beacon"));
    let actions = f.update(BeaconMsg::RequestAddUpdateBeacon(CoordReading::Both((5.0, 6.0))), (0.0, 0.0));
    assert_eq!(actions, vec![BeaconAction::Submit(FormRequest::Update(4))]);
    assert!(f.user_msg.success_message.is_none());
    let actions = f.update(BeaconMsg::AddAnotherBeacon, (0.0, 0.0));
    assert_eq!(actions, vec![BeaconAction::FetchFloors]);
    assert!(f.id.is_none());
}

#[test]
fn the_selected_floor_is_the_beacons_own() {
    let mut f: BeaconForm<Pos, FloorPlan<f64>> = BeaconForm::new((0.0, 0.0));
    assert!(f.floor_selected(None));
    assert!(!f.floor_selected(Some(3)));
    f.update(BeaconMsg::InputFloorName(Some(3)), (0.0, 0.0));
    assert!(f.floor_selected(Some(3)));
    assert!(!f.floor_selected(Some(4)));
    assert!(!f.floor_selected(None));
}

#[test]
fn submitting_a_map_form_reads_size_then_scale() {
    let (mut f, actions): (MapForm<f64, Pos>, _) = MapForm::create(Some(2), 1.0);
    assert_eq!(actions, vec![MapAction::FetchMap(2), MapAction::FetchBeacons(2)]);
    f.update(MapMsg::InputBound(0, "abc".to_string()), 1.0);
    let actions = f.update(MapMsg::RequestAddUpdateMap(Ok(2.0)), 1.0);
    assert!(actions.is_empty());
    assert_eq!(f.user_msg.error_messages, vec!["failed to parse x coordinate: invalid digit found in string".to_string()]);
    assert_eq!(
        f.message_lines(),
        vec!["Failure: ".to_string(), "failed to parse x coordinate: invalid digit found in string".to_string()]
    );
    f.update(MapMsg::InputBound(0, "640".to_string()), 1.0);
    f.update(MapMsg::InputBound(1, "480".to_string()), 1.0);
    f.update(MapMsg::RequestAddUpdateMap(Err("invalid float literal".to_string())), 1.0);
    assert_eq!(f.user_msg.error_messages, vec!["failed to parse scale: invalid float literal".to_string()]);
    assert_eq!(f.map.bounds, [640, 480]);
    let actions = f.update(MapMsg::RequestAddUpdateMap(Ok(2.5)), 1.0);
    assert_eq!(actions, vec![MapAction::Submit(FormRequest::Update(2))]);
    assert_eq!(f.map.id, 2);
    assert_eq!(f.map.scale, 2.5);
    assert!(f.message_lines().is_empty());
    let m = f.map.clone();
    f.update(MapMsg::ResponseUpdateMap(Ok(m)), 1.0);
    assert_eq!(f.message_lines(), vec!["Success: successfully updated map".to_string()]);
    f.update(MapMsg::ResponseGetMap(Err(None)), 1.0);
    assert_eq!(
        f.message_lines(),
        vec!["Success: successfully updated map".to_string(), "Failure: ".to_string(), "failed to find map".to_string()]
    );
    f.update(MapMsg::ResponseGetMap(Ok((None, "1".to_string()))), 1.0);
    assert_eq!(f.map.id, -1);
    assert_eq!(f.raw_width, "0");
    let mut b = Beacon::new((0.0, 0.0));
    b.id = 9;
    f.update(MapMsg::ResponseGetBeaconsForMap(Ok(vec![b])), 1.0);
    assert_eq!(f.update(MapMsg::RequestPutBeacon(9), 1.0), vec![MapAction::SaveBeacon(0)]);
    assert!(f.update(MapMsg::RequestPutBeacon(8), 1.0).is_empty());
    f.update(MapMsg::ToggleBeaconPlacement(9), 1.0);
    f.update(MapMsg::CanvasClick((4.0, 5.0)), 1.0);
    assert_eq!(f.attached_beacons[0].coordinates, (4.0, 5.0));
    f.update(MapMsg::AddAnotherMap, 1.0);
    assert!(f.message_lines().is_empty());
    assert!(f.opt_id.is_none());
    assert_eq!(f.change(Some(3)), vec![MapAction::FetchMap(3), MapAction::FetchBeacons(3)]);
}

#[test]
fn commands_keep_the_manager_idle_or_active() {
    let mut m: BeaconManager<f64> = BeaconManager::new();
    let now: i64 = 1_000_000_000_000;
    let (_, e) = m.handle_command(BMCommand::Ping(None), now);
    assert!(!e);
    assert_eq!(m.state(), BeaconState::Idle);
    let (_, e) = m.handle_command(BMCommand::StartEmergency(None), now);
    assert!(e);
    assert_eq!(m.state(), BeaconState::Active);
    let (_, e) = m.handle_command(BMCommand::Reboot(None), now);
    assert!(e);
    let (_, e) = m.handle_command(BMCommand::EndEmergency(None), now);
    assert!(!e);
    assert_eq!(m.state(), BeaconState::Idle);
}

#[test]
fn forms_shown_again_edit_another_record() {
    let mut u: UserForm<Pos> = UserForm::new((0.0, 0.0));
    u.change(Some(5));
    assert_eq!(u.id, Some(5));
    let mut b: BeaconForm<Pos, FloorPlan<f64>> = BeaconForm::new((0.0, 0.0));
    b.change(Some(6));
    assert_eq!(b.id, Some(6));
}
