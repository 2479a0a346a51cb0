use akriveia::address::ShortAddress;
use akriveia::forms::{
    is_enter_key, logout_reply, responder_login, BeaconForm, BeaconFormOp, FormRequest, LoginReply, UserField, UserForm,
    UserFormOp,
};
use akriveia::model::{Beacon, TrackedUser, UserType};
use akriveia::address::MacAddress8;

#[test]
fn a_new_user_form() {
    let f: UserForm<(f64, f64)> = UserForm::new((0.0, 0.0));
    assert_eq!(f.raw_mac, "00:00");
    assert_eq!(f.user.id, -1);
    assert!(f.emergency_user.is_none());
    assert!(f.id.is_none());
}

#[test]
fn user_fields_and_contacts() {
    let mut f: UserForm<(f64, f64)> = UserForm::new((0.0, 0.0));
    f.input(UserField::Name, "Ann".to_string(), UserType::Normal, (0.0, 0.0));
    f.input(UserField::WorkPhone, "123".to_string(), UserType::Normal, (0.0, 0.0));
    assert_eq!(f.user.name, "Ann");
    assert_eq!(f.user.work_phone, Some("123".to_string()));
    // A contact field other than the name is ignored while there is no contact.
    f.input(UserField::Note, "ignored".to_string(), UserType::Contact, (0.0, 0.0));
    assert!(f.emergency_user.is_none());
    f.input(UserField::Name, "Bob".to_string(), UserType::Contact, (1.0, 2.0));
    f.input(UserField::MobilePhone, "555".to_string(), UserType::Contact, (0.0, 0.0));
    let c = f.emergency_user.clone().unwrap();
    assert_eq!(c.name, "Bob");
    assert_eq!(c.mobile_phone, Some("555".to_string()));
    assert_eq!(c.coordinates, (1.0, 2.0));
    assert_eq!(f.user.name, "Ann");
}

#[test]
fn submitting_a_user_form() {
    let mut f: UserForm<(f64, f64)> = UserForm::new((0.0, 0.0));
    f.input_mac("zz:00".to_string());
    assert_eq!(
        f.submit(),
        Err("failed to parse mac address: Invalid character; found `z` at offset 0".to_string())
    );
    f.input_mac("12:34".to_string());
    assert_eq!(f.submit(), Ok(FormRequest::Add));
    assert_eq!(f.user.mac_address, Some(ShortAddress::new([0x12, 0x34])));
    f.input(UserField::Name, "Bob".to_string(), UserType::Contact, (0.0, 0.0));
    f.id = Some(9);
    assert_eq!(f.submit(), Ok(FormRequest::Update(9)));
    assert_eq!(f.user.id, 9);
    assert_eq!(f.emergency_user.as_ref().unwrap().attached_user, Some(9));
}

#[test]
fn user_form_replies() {
    let mut f: UserForm<(f64, f64)> = UserForm::new((0.0, 0.0));
    let mut u = TrackedUser::new((3.0, 4.0));
    u.id = 5;
    u.mac_address = Some(ShortAddress::new([0xab, 0x01]));
    assert_eq!(f.added(u.clone(), None), "successfully added user");
    assert_eq!(f.id, Some(5));
    assert_eq!(f.raw_mac, "ab:01");
    let mut v = u.clone();
    v.mac_address = None;
    f.loaded(v.clone(), None);
    assert_eq!(f.raw_mac, "");
    assert_eq!(f.updated(v, None), "successfully updated user");
    assert_eq!(UserForm::<(f64, f64)>::failure(UserFormOp::Find, "gone"), "failed to find user, reason: gone");
    assert_eq!(UserForm::<(f64, f64)>::failure(UserFormOp::Add, "x"), "failed to add user, reason: x");
    assert_eq!(UserForm::<(f64, f64)>::failure(UserFormOp::Update, "x"), "failed to update user, reason: x");
}

#[test]
fn beacon_form() {
    let mut f: BeaconForm<[f64; 2], String> = BeaconForm::new([0.0, 0.0]);
    assert_eq!(f.raw_mac, "00:00:00:00:00:00:00:00");
    assert_eq!((f.raw_coord0.as_str(), f.raw_coord1.as_str()), ("0", "0"));
    f.input_name("hall".to_string());
    f.input_floor(Some(2));
    f.input_note("by the door".to_string());
    f.input_coordinate(1, "2.5".to_string());
    assert_eq!(f.raw_coord1, "2.5");
    f.input_mac("01:02".to_string());
    assert_eq!(
        f.validate_mac(),
        Err("failed to parse mac address: Invalid length; expecting 23 or 18 chars, found 5".to_string())
    );
    assert_eq!(f.request(false), None);
    f.input_mac("01:02:03:04:05:06:07:08".to_string());
    assert_eq!(f.validate_mac(), Ok(()));
    assert_eq!(f.beacon.mac_address, MacAddress8::new([1, 2, 3, 4, 5, 6, 7, 8]));
    assert_eq!(f.request(true), Some(FormRequest::Add));
    let mut b = Beacon::new([1.0, 1.0]);
    b.id = 4;
    assert_eq!(f.added(b.clone()), "successfully added beacon");
    assert_eq!(f.id, Some(4));
    assert_eq!(f.request(true), Some(FormRequest::Update(4)));
    assert_eq!(f.updated(b), "successfully updated beacon");
    f.floors_loaded(vec!["ground".to_string()]);
    assert_eq!(f.avail_floors.len(), 1);
    assert_eq!(
        BeaconForm::<[f64; 2], String>::failure(BeaconFormOp::Floors, "down"),
        "failed to obtain available floors list, reason: down"
    );
}

#[test]
fn login_and_logout_replies() {
    assert_eq!(LoginReply::from_status(200), LoginReply::LoggedIn);
    assert_eq!(LoginReply::from_status(401), LoginReply::BadCredentials);
    assert_eq!(LoginReply::from_status(500), LoginReply::Failed);
    assert_eq!(LoginReply::LoggedIn.message(), "Successfully logged in.");
    assert_eq!(LoginReply::BadCredentials.message(), "Failed to login, username or password is incorrect.");
    assert_eq!(logout_reply(401), Ok("Successfully logged out.".to_string()));
    assert_eq!(logout_reply(500), Err("Failed to logout.".to_string()));
    assert!(is_enter_key("Enter"));
    assert!(is_enter_key("NumpadEnter"));
    assert!(!is_enter_key("Space"));
    let r = responder_login();
    assert_eq!(r.name, "responder");
    assert!(r.pw.is_empty());
}

use akriveia::forms::{MapForm, MapFormOp};
use akriveia::model::FloorPlan;
use akriveia::text::i32_text;

fn placed(id: i32) -> Beacon<(f64, f64)> {
    let mut b = Beacon::new((0.0, 0.0));
    b.id = id;
    b
}

#[test]
fn integers_are_written_as_display_writes_them() {
    for v in [0, 7, -7, 10, 2147483647, -2147483648, 1000, -1] {
        assert_eq!(i32_text(v), v.to_string());
    }
}

#[test]
fn a_new_map_form() {
    let f: MapForm<f64, (f64, f64)> = MapForm::new(1.0);
    assert_eq!(f.map.id, -1);
    assert_eq!(f.map.bounds, [0, 0]);
    assert_eq!((f.raw_width.as_str(), f.raw_height.as_str(), f.raw_scale.as_str()), ("0", "0", "1"));
    assert!(f.current_beacon.is_none());
}

#[test]
fn map_size_is_validated_width_first() {
    let mut f: MapForm<f64, (f64, f64)> = MapForm::new(1.0);
    f.input_bound(0, "640".to_string());
    f.input_bound(1, "4x".to_string());
    assert_eq!(f.validate_bounds(), Err("failed to parse y coordinate: invalid digit found in string".to_string()));
    assert_eq!(f.map.bounds, [640, 0]);
    f.input_bound(0, "".to_string());
    assert_eq!(f.validate_bounds(), Err("failed to parse x coordinate: cannot parse integer from empty string".to_string()));
    f.input_bound(0, "800".to_string());
    f.input_bound(1, "600".to_string());
    assert_eq!(f.validate_bounds(), Ok(()));
    assert_eq!(f.map.bounds, [800, 600]);
    assert_eq!(f.request(true), Some(FormRequest::Add));
    f.opt_id = Some(3);
    assert_eq!(f.request(true), Some(FormRequest::Update(3)));
    assert_eq!(f.map.id, 3);
    assert_eq!(f.request(false), None);
}

#[test]
fn beacons_are_placed_on_the_map() {
    let mut f: MapForm<f64, (f64, f64)> = MapForm::new(1.0);
    f.beacons_loaded(vec![placed(1), placed(2)]);
    assert!(!f.place_selected((1.0, 1.0)));
    f.toggle_beacon(2);
    assert_eq!(f.current_beacon, Some(2));
    assert!(f.place_selected((3.0, 4.0)));
    assert_eq!(f.attached_beacons[1].coordinates, (3.0, 4.0));
    assert_eq!(f.attached_beacons[0].coordinates, (0.0, 0.0));
    assert_eq!(f.beacon_index(2), Some(1));
    f.toggle_beacon(2);
    assert!(f.current_beacon.is_none());
    f.toggle_beacon(9);
    assert!(!f.place_selected((5.0, 5.0)));
    let mut saved = placed(1);
    saved.name = "door".to_string();
    assert_eq!(f.beacon_saved(Some(saved)), Some("successfully updated attached beacon".to_string()));
    assert_eq!(f.attached_beacons[0].name, "door");
    assert_eq!(f.beacon_saved(Some(placed(7))), None);
    assert_eq!(f.beacon_saved(None), None);
}

#[test]
fn map_form_replies() {
    let mut f: MapForm<f64, (f64, f64)> = MapForm::new(1.0);
    let mut p = FloorPlan::new(2.5);
    p.id = 11;
    p.bounds = [1024, -8];
    f.map_loaded(Some(p.clone()), 1.0);
    assert_eq!((f.raw_width.as_str(), f.raw_height.as_str()), ("1024", "-8"));
    f.map_loaded(None, 1.0);
    assert_eq!(f.map.id, -1);
    assert_eq!(f.map_added(p.clone()), "successfully added map");
    assert_eq!(f.opt_id, Some(11));
    assert_eq!(f.map_updated(p), "successfully updated map");
    assert_eq!(MapForm::<f64, (f64, f64)>::failure(MapFormOp::SaveBeacon, None), "failed to updated attached beacon");
    assert_eq!(MapForm::<f64, (f64, f64)>::failure(MapFormOp::Find, Some("gone")), "failed to find map, reason: gone");
}

use akriveia::forms::PlacementView;
use akriveia::model::WebUserType;
use akriveia::root::{Page, PageState};

#[test]
fn form_buttons_depend_on_the_account_and_the_record() {
    let mut f: UserForm<(f64, f64)> = UserForm::new((0.0, 0.0));
    let b = f.buttons(WebUserType::Admin);
    assert_eq!(b.title, "Add User");
    assert_eq!(b.submit.as_deref(), Some("Add User"));
    assert!(!b.add_another);
    assert_eq!(b.cancel, Some(Page::UserList));
    f.id = Some(3);
    let b = f.buttons(WebUserType::Admin);
    assert_eq!(b.title, "Update User");
    assert!(b.add_another);
    let b = f.buttons(WebUserType::Responder);
    assert!(b.submit.is_none());
    assert!(!b.add_another);
    assert_eq!(b.cancel, Some(Page::Status(PageState::UserStatus)));

    let mut g: BeaconForm<[f64; 2], String> = BeaconForm::new([0.0, 0.0]);
    assert_eq!(g.buttons(WebUserType::Responder).cancel, Some(Page::Status(PageState::BeaconStatus)));
    g.id = Some(1);
    let b = g.buttons(WebUserType::Admin);
    assert_eq!(b.title, "Update Beacon");
    assert_eq!(b.cancel, Some(Page::BeaconList));

    let mut m: MapForm<f64, [f64; 2]> = MapForm::new(1.0);
    let b = m.buttons(WebUserType::Admin);
    assert_eq!(b.title, "Map Add");
    assert_eq!(b.submit.as_deref(), Some("Add Map"));
    assert_eq!(b.cancel, None);
    assert_eq!(m.placement_view(), PlacementView::Hidden);
    m.opt_id = Some(2);
    assert_eq!(m.buttons(WebUserType::Admin).submit.as_deref(), Some("Update Map"));
    assert_eq!(m.placement_view(), PlacementView::NoBeacons);
    m.attached_beacons.push(Beacon::new([0.0, 0.0]));
    assert_eq!(m.placement_view(), PlacementView::Rows);
    assert!(!m.is_placing(5));
    m.current_beacon = Some(5);
    assert!(m.is_placing(5));
}
