use akriveia::beacon_list::{self, BeaconList};
use akriveia::lists::sort_by_name;
use akriveia::login::{self, Login, Request};
use akriveia::map_list::{self, MapList};
use akriveia::model::{Beacon, BeaconRequest, FloorPlan, TrackedUser, WebUserType};
use akriveia::root::{
    account_link, layout, menus, navigation, Action, AutoAction, Menu, Msg, Page, PageState, RootComponent,
};
use akriveia::text::str_le;
use akriveia::user_list::{self, UserList};
use akriveia::user_message::{failure_text, UserMessage};

fn plan(id: i32, name: &str) -> FloorPlan<f64> {
    let mut m = FloorPlan::new(1.0f64);
    m.id = id;
    m.name = name.to_string();
    m
}

#[test]
fn text_order_is_by_characters() {
    assert!(str_le("", ""));
    assert!(str_le("", "a"));
    assert!(!str_le("a", ""));
    assert!(str_le("abc", "abd"));
    assert!(!str_le("abd", "abc"));
    assert!(str_le("ab", "abc"));
    assert!(str_le("B", "a"));
    assert!(str_le("same", "same"));
}

#[test]
fn sorting_by_name_keeps_every_item() {
    let sorted = sort_by_name(vec![plan(1, "west"), plan(2, "east"), plan(3, "north"), plan(4, "east")]);
    let names: Vec<&str> = sorted.iter().map(|m| m.name.as_str()).collect();
    assert_eq!(names, vec!["east", "east", "north", "west"]);
    let mut ids: Vec<i32> = sorted.iter().map(|m| m.id).collect();
    ids.sort();
    assert_eq!(ids, vec![1, 2, 3, 4]);
    assert!(sort_by_name(Vec::<FloorPlan<f64>>::new()).is_empty());
}

#[test]
fn pages_are_framed() {
    let l = layout(Page::Login(AutoAction::Login));
    assert!(!l.navigation && !l.emergency_buttons);
    assert!(!layout(Page::Restarting).navigation);
    let l = layout(Page::MapView(None));
    assert!(l.navigation && l.emergency_buttons);
    assert!(layout(Page::Status(PageState::UserStatus)).emergency_buttons);
    assert!(layout(Page::Diagnostics).emergency_buttons);
    let l = layout(Page::UserList);
    assert!(l.navigation && !l.emergency_buttons);
}

#[test]
fn menus_depend_on_the_account() {
    assert_eq!(menus(WebUserType::Responder), vec![Menu::ViewMap, Menu::Status]);
    assert_eq!(
        menus(WebUserType::Admin),
        vec![Menu::ViewMap, Menu::Status, Menu::Maps, Menu::Beacons, Menu::Users, Menu::System]
    );
    let nav = navigation(WebUserType::Admin, Page::MapAddUpdate(Some(3)));
    assert_eq!(nav.len(), 6);
    assert_eq!(nav[0].head.label, "View Map");
    assert!(!nav[0].head.active && !nav[0].head.disabled);
    assert!(nav[0].entries.is_empty());
    assert_eq!(nav[2].head.label, "Maps");
    assert!(nav[2].head.active);
    assert_eq!(nav[2].head.target, Page::MapList);
    assert_eq!(nav[2].entries.len(), 2);
    assert_eq!(nav[2].entries[0].label, "Map List");
    assert!(!nav[2].entries[0].disabled);
    assert_eq!(nav[2].entries[1].label, "Add Map");
    assert_eq!(nav[2].entries[1].target, Page::MapAddUpdate(None));
    assert!(nav[2].entries[1].disabled);
    assert_eq!(nav[4].head.label, "User");
    assert_eq!(nav[5].entries[1].label, "Diagnostics");

    let nav = navigation(WebUserType::Responder, Page::MapView(Some(1)));
    assert_eq!(nav.len(), 2);
    assert!(nav[0].head.active && nav[0].head.disabled);
    assert_eq!(nav[1].head.target, Page::Status(PageState::UserStatus));
    assert_eq!(nav[1].entries[1].label, "Beacon Status");
    assert!(!nav[1].entries[0].disabled);
}

#[test]
fn the_account_button_logs_in_or_out() {
    let (link, header) = account_link(WebUserType::Admin, Page::UserList);
    assert_eq!(link.label, "Logout");
    assert_eq!(link.target, Page::Login(AutoAction::Logout));
    assert!(!link.disabled);
    assert_eq!(header, "ADMIN");
    let (link, header) = account_link(WebUserType::Responder, Page::Login(AutoAction::Nothing));
    assert_eq!(link.label, "Login");
    assert!(link.disabled);
    assert_eq!(header, "FIRST RESPONDER");
    assert_eq!(AutoAction::default(), AutoAction::Nothing);
}

#[test]
fn the_root_waits_for_a_restarting_server() {
    let (mut root, actions) = RootComponent::create();
    assert_eq!(actions, vec![Action::GetEmergency]);
    assert_eq!(root.current_page, Page::Login(AutoAction::Login));
    assert_eq!(root.user_type, WebUserType::Responder);
    assert!(root.update(Msg::ChangeWebUserType(WebUserType::Admin)).is_empty());
    assert_eq!(root.user_type, WebUserType::Admin);
    assert_eq!(root.update(Msg::RequestPostEmergency(true)), vec![Action::PostEmergency(true)]);
    assert!(root.update(Msg::ResponsePostEmergency(Ok(true))).is_empty());
    assert!(root.emergency);
    root.update(Msg::ResponseGetEmergency(Err("down".to_string())));
    assert!(root.emergency);
    assert_eq!(root.update(Msg::ChangePage(Page::Restarting)), vec![Action::StartPinging]);
    assert!(root.pinging);
    assert!(root.update(Msg::ResponseGetPing(Err("no answer".to_string()))).is_empty());
    assert!(root.pinging);
    assert_eq!(
        root.update(Msg::ResponseGetPing(Ok(()))),
        vec![Action::StopPinging, Action::ShowPage(Page::Login(AutoAction::Login))]
    );
    assert!(!root.pinging);
    assert!(root.update(Msg::ChangePage(Page::UserList)).is_empty());
    assert_eq!(root.current_page, Page::UserList);
}

#[test]
fn login_forgets_the_password_once_sent() {
    let (mut page, actions) = Login::create(AutoAction::Nothing);
    assert!(actions.is_empty());
    page.update(login::Msg::InputName("admin".to_string()));
    page.update(login::Msg::InputPassword("secret".to_string()));
    let actions = page.update(login::Msg::KeyDown("NumpadEnter".to_string()));
    assert!(matches!(actions[..], [login::Action::Send(Request::Login)]));
    assert!(page.update(login::Msg::KeyDown("KeyA".to_string())).is_empty());
    let actions = page.update(login::Msg::Request(Request::Login));
    assert_eq!(actions.len(), 2);
    match &actions[0] {
        login::Action::PostLogin(info) => {
            assert_eq!(info.name, "admin");
            assert_eq!(info.pw, "secret");
        },
        _ => panic!("expected a login request"),
    }
    assert!(matches!(actions[1], login::Action::SetUserType(WebUserType::Admin)));
    assert_eq!(page.login.name, "admin");
    assert!(page.login.pw.is_empty());

    let actions = page.update(login::Msg::ResponseLogin(401));
    assert!(actions.is_empty());
    assert_eq!(page.user_msg.error_messages, vec!["Failed to login, username or password is incorrect.".to_string()]);
    let actions = page.update(login::Msg::ResponseLogin(200));
    assert!(matches!(actions[..], [login::Action::ShowPage(Page::MapView(None))]));
    assert_eq!(page.user_msg.success_message.as_deref(), Some("Successfully logged in."));
    page.update(login::Msg::ResponseLogin(500));
    assert_eq!(page.user_msg.error_messages.last().unwrap(), "Failed to login, internal error");
}

#[test]
fn login_acts_by_itself() {
    let (mut page, actions) = Login::create(AutoAction::Login);
    assert!(matches!(actions[..], [login::Action::Send(Request::LoginAnon)]));
    let actions = page.update(login::Msg::Request(Request::LoginAnon));
    match &actions[0] {
        login::Action::PostLogin(info) => {
            assert_eq!(info.name, "responder");
            assert!(info.pw.is_empty());
        },
        _ => panic!("expected a login request"),
    }
    assert!(matches!(actions[1], login::Action::SetUserType(WebUserType::Responder)));
    assert!(page.change(AutoAction::Login).is_empty());
    let actions = page.change(AutoAction::Logout);
    assert!(matches!(actions[..], [login::Action::Send(Request::Logout)]));
    let actions = page.update(login::Msg::Request(Request::Logout));
    assert!(matches!(actions[..], [login::Action::PostLogout]));
    page.update(login::Msg::ResponseLogout(401));
    assert_eq!(page.user_msg.success_message.as_deref(), Some("Successfully logged out."));
    page.update(login::Msg::ResponseLogout(500));
    assert_eq!(page.user_msg.error_messages, vec!["Failed to logout.".to_string()]);
}

#[test]
fn messages_are_added_and_cleared() {
    let mut m = UserMessage::new();
    m.push_error(failure_text("failed to x, reason: ", "y"));
    m.succeed("done".to_string());
    assert_eq!(m.error_messages, vec!["failed to x, reason: y".to_string()]);
    assert_eq!(m.success_message.as_deref(), Some("done"));
    m.reset();
    assert!(m.error_messages.is_empty() && m.success_message.is_none());
}

#[test]
fn the_beacon_list_is_sorted_and_refetched() {
    let (mut list, actions): (BeaconList<[f64; 2], f64>, _) = BeaconList::create();
    assert!(matches!(actions[..], [beacon_list::Action::FetchBeacons]));
    let mut a = Beacon::new([0.0f64, 0.0]);
    a.name = "stairs".to_string();
    let mut b = Beacon::new([0.0f64, 0.0]);
    b.name = "hall".to_string();
    assert!(list.update(beacon_list::Msg::ResponseGetBeacons(Ok(vec![(a, None), (b, Some(plan(2, "floor")))]))).is_empty());
    assert_eq!(list.list[0].0.name, "hall");
    assert_eq!(list.list[0].1.as_ref().unwrap().id, 2);
    assert_eq!(list.list[1].0.name, "stairs");
    let actions = list.update(beacon_list::Msg::RequestCommandBeacon(BeaconRequest::Ping(None)));
    assert!(matches!(actions[..], [beacon_list::Action::Command(BeaconRequest::Ping(None))]));
    list.update(beacon_list::Msg::ResponseCommandBeacon(Ok(())));
    assert_eq!(list.user_msg.success_message.as_deref(), Some("Successfully sent command"));
    let actions = list.update(beacon_list::Msg::ResponseDeleteBeacon(Err("gone".to_string())));
    assert!(matches!(actions[..], [beacon_list::Action::FetchBeacons]));
    assert_eq!(list.user_msg.error_messages, vec!["failed to delete beacon, reason: gone".to_string()]);
    list.update(beacon_list::Msg::ResponseGetBeacons(Err("x".to_string())));
    assert_eq!(list.user_msg.error_messages[1], "failed to obtain beacon list, reason: x");
    assert_eq!(list.list.len(), 2);
    assert!(matches!(list.update(beacon_list::Msg::RequestDeleteBeacon(4))[..], [beacon_list::Action::Delete(4)]));
}

#[test]
fn the_map_list_is_sorted_and_refetched() {
    let (mut list, actions): (MapList<f64>, _) = MapList::create();
    assert_eq!(actions, vec![map_list::Action::FetchMaps]);
    list.update(map_list::Msg::ResponseGetMaps(Ok(vec![plan(1, "b"), plan(2, "a")])));
    assert_eq!(list.list[0].id, 2);
    assert_eq!(list.update(map_list::Msg::RequestDeleteMap(1)), vec![map_list::Action::Delete(1)]);
    assert_eq!(list.update(map_list::Msg::ResponseDeleteMap(Ok(()))), vec![map_list::Action::FetchMaps]);
    assert_eq!(list.user_msg.success_message.as_deref(), Some("successfully deleted map"));
    list.update(map_list::Msg::ResponseDeleteMap(Err("locked".to_string())));
    assert_eq!(list.user_msg.error_messages, vec!["failed to delete map, reason: locked".to_string()]);
    list.update(map_list::Msg::ResponseGetMaps(Err("down".to_string())));
    assert_eq!(list.user_msg.error_messages[1], "failed to obtain map list, reason: down");
    assert_eq!(list.change(), vec![map_list::Action::FetchMaps]);
}

#[test]
fn the_user_list_keeps_the_order_received() {
    let (mut list, actions): (UserList<[f64; 2]>, _) = UserList::create();
    assert_eq!(actions, vec![user_list::Action::FetchUsers]);
    let mut u = TrackedUser::new([0.0f64, 0.0]);
    u.name = "zed".to_string();
    let mut v = TrackedUser::new([0.0f64, 0.0]);
    v.name = "amy".to_string();
    list.update(user_list::Msg::ResponseGetUsers(Ok(vec![u, v])));
    assert_eq!(list.list[0].name, "zed");
    list.update(user_list::Msg::ResponseGetUsers(Err("down".to_string())));
    assert_eq!(list.list.len(), 2);
    assert_eq!(list.update(user_list::Msg::ResponseDeleteUser(Err("x".to_string()))), vec![user_list::Action::FetchUsers]);
    assert_eq!(list.update(user_list::Msg::RequestDeleteUser(5)), vec![user_list::Action::Delete(5)]);
}
