//! The web interface's frame: its pages, the navigation bar offered on
//! each, and the root component that switches pages, keeps the emergency
//! flag and waits for a restarting server.

use vstd::prelude::*;
use crate::model::WebUserType;

verus! {

/// What the login page does by itself when it is shown.
#[derive(Copy, Clone, Debug, PartialEq, Eq, Structural)]
pub enum AutoAction {
    Nothing,
    Logout,
    Login,
}

impl Default for AutoAction {
    fn default() -> (r: AutoAction)
        ensures
            r == AutoAction::Nothing,
    {
        AutoAction::Nothing
    }
}

/// Which table the status page shows.
#[derive(Copy, Clone, Debug, PartialEq, Eq, Structural)]
pub enum PageState {
    BeaconStatus,
    UserStatus,
}

/// The pages of the web interface; a page that edits a record carries its
/// key, or nothing to add one.
#[derive(Copy, Clone, Debug, PartialEq, Eq, Structural)]
pub enum Page {
    BeaconAddUpdate(Option<i32>),
    BeaconList,
    Diagnostics,
    Login(AutoAction),
    MapAddUpdate(Option<i32>),
    MapList,
    MapView(Option<i32>),
    Status(PageState),
    SystemSettings,
    UserAddUpdate(Option<i32>),
    UserList,
    Restarting,
}

/// What frames a page: the navigation bar, and the buttons that start and
/// end an emergency.
#[derive(Copy, Clone, Debug, PartialEq, Eq, Structural)]
pub struct Layout {
    pub navigation: bool,
    pub emergency_buttons: bool,
}

/// The navigation bar is on every page but the login page and the notice
/// of a restart; the emergency buttons are where the emergency is watched.
pub open spec fn layout_of(page: Page) -> Layout {
    Layout {
        navigation: !(page is Login || page is Restarting),
        emergency_buttons: page is Diagnostics || page is Status || page is MapView,
    }
}

/// How a page is framed.
pub fn layout(page: Page) -> (l: Layout)
    ensures
        l == layout_of(page),
{
    match page {
        Page::Login(_) | Page::Restarting => Layout { navigation: false, emergency_buttons: false },
        Page::Diagnostics | Page::Status(_) | Page::MapView(_) => Layout {
            navigation: true,
            emergency_buttons: true,
        },
        _ => Layout { navigation: true, emergency_buttons: false },
    }
}

/// The menus of the navigation bar.
#[derive(Copy, Clone, Debug, PartialEq, Eq, Structural)]
pub enum Menu {
    ViewMap,
    Status,
    Maps,
    Beacons,
    Users,
    System,
}

/// The menus offered, in order: an administrator manages maps, beacons,
/// users and the system; a first responder only watches.
pub open spec fn menus_for(user_type: WebUserType) -> Seq<Menu> {
    match user_type {
        WebUserType::Admin => seq![Menu::ViewMap, Menu::Status, Menu::Maps, Menu::Beacons, Menu::Users, Menu::System],
        WebUserType::Responder => seq![Menu::ViewMap, Menu::Status],
    }
}

/// The menus offered to a kind of account, in order.
pub fn menus(user_type: WebUserType) -> (r: Vec<Menu>)
    ensures
        r@ == menus_for(user_type),
{
    match user_type {
        WebUserType::Admin => vec![Menu::ViewMap, Menu::Status, Menu::Maps, Menu::Beacons, Menu::Users, Menu::System],
        WebUserType::Responder => vec![Menu::ViewMap, Menu::Status],
    }
}

/// A link of the navigation bar: its text, the page it opens, whether it
/// is marked as the current section and whether it is disabled.
pub struct NavLink {
    pub label: String,
    pub target: Page,
    pub active: bool,
    pub disabled: bool,
}

impl NavLink {
    /// The link shows `label`, opens `target`, and is marked and disabled
    /// as given.
    pub open spec fn shows(self, label: Seq<char>, target: Page, active: bool, disabled: bool) -> bool {
        self.label@ == label && self.target == target && self.active == active && self.disabled == disabled
    }
}

/// The head of a menu.
pub open spec fn menu_label(m: Menu) -> Seq<char> {
    match m {
        Menu::ViewMap => "View Map"@,
        Menu::Status => "Status"@,
        Menu::Maps => "Maps"@,
        Menu::Beacons => "Beacons"@,
        Menu::Users => "User"@,
        Menu::System => "System"@,
    }
}

/// The page the head of a menu opens.
pub open spec fn menu_target(m: Menu) -> Page {
    match m {
        Menu::ViewMap => Page::MapView(None),
        Menu::Status => Page::Status(PageState::UserStatus),
        Menu::Maps => Page::MapList,
        Menu::Beacons => Page::BeaconList,
        Menu::Users => Page::UserList,
        Menu::System => Page::SystemSettings,
    }
}

/// Whether a menu is the section of the current page.
pub open spec fn menu_active(m: Menu, page: Page) -> bool {
    match m {
        Menu::ViewMap => page is MapView,
        Menu::Status => page is Status,
        Menu::Maps => page is MapList || page is MapAddUpdate,
        Menu::Beacons => page is BeaconList || page is BeaconAddUpdate,
        Menu::Users => page is UserList || page is UserAddUpdate,
        Menu::System => page is SystemSettings || page is Diagnostics,
    }
}

/// Whether the head of a menu is disabled: only the map view's, on the map
/// view.
pub open spec fn menu_disabled(m: Menu, page: Page) -> bool {
    m == Menu::ViewMap && page is MapView
}

/// The entries of a menu, as (text, page opened, disabled); an entry is
/// disabled on the page it opens.
pub open spec fn menu_entries(m: Menu, page: Page) -> Seq<(Seq<char>, Page, bool)> {
    match m {
        Menu::ViewMap => seq![],
        Menu::Status => seq![
            ("User Status"@, Page::Status(PageState::UserStatus), page == Page::Status(PageState::UserStatus)),
            ("Beacon Status"@, Page::Status(PageState::BeaconStatus), page == Page::Status(PageState::BeaconStatus)),
        ],
        Menu::Maps => seq![
            ("Map List"@, Page::MapList, page == Page::MapList),
            ("Add Map"@, Page::MapAddUpdate(None), page is MapAddUpdate),
        ],
        Menu::Beacons => seq![
            ("Beacon List"@, Page::BeaconList, page == Page::BeaconList),
            ("Add Beacon"@, Page::BeaconAddUpdate(None), page is BeaconAddUpdate),
        ],
        Menu::Users => seq![
            ("User List"@, Page::UserList, page == Page::UserList),
            ("Add User"@, Page::UserAddUpdate(None), page is UserAddUpdate),
        ],
        Menu::System => seq![
            ("System Settings"@, Page::SystemSettings, page == Page::SystemSettings),
            ("Diagnostics"@, Page::Diagnostics, page == Page::Diagnostics),
        ],
    }
}

/// A menu of the navigation bar: its head and its entries.
pub struct NavMenu {
    pub head: NavLink,
    pub entries: Vec<NavLink>,
}

impl NavMenu {
    /// The menu is `m` as shown on `page`.
    pub open spec fn shows(self, m: Menu, page: Page) -> bool {
        &&& self.head.shows(menu_label(m), menu_target(m), menu_active(m, page), menu_disabled(m, page))
        &&& self.entries.len() == menu_entries(m, page).len()
        &&& forall|i: int|
            0 <= i < self.entries.len() ==> {
                let e = #[trigger] menu_entries(m, page)[i];
                self.entries[i].shows(e.0, e.1, false, e.2)
            }
    }
}

/// A link that is not marked as the current section.
fn entry(label: &str, target: Page, disabled: bool) -> (l: NavLink)
    ensures
        l.shows(label@, target, false, disabled),
{
    NavLink { label: String::from_str(label), target, active: false, disabled }
}

/// The head of a menu on a page.
fn menu_head(m: Menu, page: Page) -> (l: NavLink)
    ensures
        l.shows(menu_label(m), menu_target(m), menu_active(m, page), menu_disabled(m, page)),
{
    match m {
        Menu::ViewMap => {
            let on = matches!(page, Page::MapView(_));
            NavLink { label: String::from_str("View Map"), target: Page::MapView(None), active: on, disabled: on }
        },
        Menu::Status => NavLink {
            label: String::from_str("Status"),
            target: Page::Status(PageState::UserStatus),
            active: matches!(page, Page::Status(_)),
            disabled: false,
        },
        Menu::Maps => NavLink {
            label: String::from_str("Maps"),
            target: Page::MapList,
            active: matches!(page, Page::MapList | Page::MapAddUpdate(_)),
            disabled: false,
        },
        Menu::Beacons => NavLink {
            label: String::from_str("Beacons"),
            target: Page::BeaconList,
            active: matches!(page, Page::BeaconList | Page::BeaconAddUpdate(_)),
            disabled: false,
        },
        Menu::Users => NavLink {
            label: String::from_str("User"),
            target: Page::UserList,
            active: matches!(page, Page::UserList | Page::UserAddUpdate(_)),
            disabled: false,
        },
        Menu::System => NavLink {
            label: String::from_str("System"),
            target: Page::SystemSettings,
            active: matches!(page, Page::SystemSettings | Page::Diagnostics),
            disabled: false,
        },
    }
}

/// The entries of a menu on a page.
fn menu_links(m: Menu, page: Page) -> (r: Vec<NavLink>)
    ensures
        r.len() == menu_entries(m, page).len(),
        forall|i: int|
            0 <= i < r.len() ==> {
                let e = #[trigger] menu_entries(m, page)[i];
                r[i].shows(e.0, e.1, false, e.2)
            },
{
    match m {
        Menu::ViewMap => Vec::new(),
        Menu::Status => {
            let user = Page::Status(PageState::UserStatus);
            let beacon = Page::Status(PageState::BeaconStatus);
            vec![entry("User Status", user, page == user), entry("Beacon Status", beacon, page == beacon)]
        },
        Menu::Maps => vec![
            entry("Map List", Page::MapList, page == Page::MapList),
            entry("Add Map", Page::MapAddUpdate(None), matches!(page, Page::MapAddUpdate(_))),
        ],
        Menu::Beacons => vec![
            entry("Beacon List", Page::BeaconList, page == Page::BeaconList),
            entry("Add Beacon", Page::BeaconAddUpdate(None), matches!(page, Page::BeaconAddUpdate(_))),
        ],
        Menu::Users => vec![
            entry("User List", Page::UserList, page == Page::UserList),
            entry("Add User", Page::UserAddUpdate(None), matches!(page, Page::UserAddUpdate(_))),
        ],
        Menu::System => vec![
            entry("System Settings", Page::SystemSettings, page == Page::SystemSettings),
            entry("Diagnostics", Page::Diagnostics, page == Page::Diagnostics),
        ],
    }
}

/// The menus of the navigation bar for a kind of account on a page, in
/// order.
pub fn navigation(user_type: WebUserType, page: Page) -> (r: Vec<NavMenu>)
    ensures
        r.len() == menus_for(user_type).len(),
        forall|i: int| 0 <= i < r.len() ==> #[trigger] r[i].shows(menus_for(user_type)[i], page),
{
    let offered = menus(user_type);
    let mut r: Vec<NavMenu> = Vec::new();
    let mut i: usize = 0;
    while i < offered.len()
        invariant
            offered@ == menus_for(user_type),
            i <= offered.len(),
            r.len() == i,
            forall|j: int| 0 <= j < i ==> #[trigger] r[j].shows(menus_for(user_type)[j], page),
        decreases offered.len() - i,
    {
        let m = offered[i];
        let head = menu_head(m, page);
        let entries = menu_links(m, page);
        r.push(NavMenu { head, entries });
        i = i + 1;
    }
    r
}

/// The account button at the end of the navigation bar: an administrator
/// logs out, a first responder logs in; both are disabled on the login
/// page. The second value is the account's heading.
pub fn account_link(user_type: WebUserType, page: Page) -> (r: (NavLink, String))
    ensures
        user_type == WebUserType::Admin ==> r.0.shows(
            "Logout"@,
            Page::Login(AutoAction::Logout),
            false,
            page is Login,
        ) && r.1@ == "ADMIN"@,
        user_type == WebUserType::Responder ==> r.0.shows(
            "Login"@,
            Page::Login(AutoAction::Nothing),
            false,
            page is Login,
        ) && r.1@ == "FIRST RESPONDER"@,
{
    let on_login = matches!(page, Page::Login(_));
    match user_type {
        WebUserType::Admin => (entry("Logout", Page::Login(AutoAction::Logout), on_login), String::from_str("ADMIN")),
        WebUserType::Responder => (
            entry("Login", Page::Login(AutoAction::Nothing), on_login),
            String::from_str("FIRST RESPONDER"),
        ),
    }
}

/// The root component's state: the kind of account, the page shown,
/// whether an emergency is under way, and whether the server is being
/// pinged while it restarts.
pub struct RootComponent {
    pub user_type: WebUserType,
    pub current_page: Page,
    pub emergency: bool,
    pub pinging: bool,
}

/// What the root component is told: a page or account change, a request to
/// make, or the server's answer to one (the error is the reason given).
pub enum Msg {
    ChangePage(Page),
    ChangeWebUserType(WebUserType),
    RequestPostEmergency(bool),
    RequestGetEmergency,
    RequestGetPing,
    ResponsePostEmergency(Result<bool, String>),
    ResponseGetEmergency(Result<bool, String>),
    ResponseGetPing(Result<(), String>),
}

/// What the root component asks of its surroundings.
#[derive(Copy, Clone, Debug, PartialEq, Eq, Structural)]
pub enum Action {
    /// Start or end the emergency: post the flag to the server.
    PostEmergency(bool),
    /// Ask the server whether an emergency is under way.
    GetEmergency,
    /// Ask the server whether it answers.
    GetPing,
    /// Ping the server every two seconds until told otherwise.
    StartPinging,
    StopPinging,
    /// Switch to a page: handed back to the component as
    /// `Msg::ChangePage`.
    ShowPage(Page),
}

impl RootComponent {
    /// The interface opens on the login page of a first responder, who
    /// logs in by themselves, and asks whether an emergency is under way.
    pub fn create() -> (r: (RootComponent, Vec<Action>))
        ensures
            r.0.user_type == WebUserType::Responder,
            r.0.current_page == Page::Login(AutoAction::Login),
            !r.0.emergency,
            !r.0.pinging,
            r.1@ == seq![Action::GetEmergency],
    {
        let root = RootComponent {
            user_type: WebUserType::Responder,
            current_page: Page::Login(AutoAction::Login),
            emergency: false,
            pinging: false,
        };
        (root, vec![Action::GetEmergency])
    }

    /// Takes in a message. A restarting server is pinged until it answers,
    /// and then the login page is shown; the emergency flag follows the
    /// server's answers, and a failed answer changes nothing.
    pub fn update(&mut self, msg: Msg) -> (actions: Vec<Action>)
        ensures
            match msg {
                Msg::ChangePage(page) => {
                    &&& final(self).current_page == page
                    &&& final(self).user_type == old(self).user_type
                    &&& final(self).emergency == old(self).emergency
                    &&& final(self).pinging == (old(self).pinging || page == Page::Restarting)
                    &&& actions@ == if page == Page::Restarting { seq![Action::StartPinging] } else { seq![] }
                },
                Msg::ChangeWebUserType(t) => {
                    &&& *final(self) == RootComponent { user_type: t, ..*old(self) }
                    &&& actions@ == Seq::<Action>::empty()
                },
                Msg::RequestPostEmergency(b) => *final(self) == *old(self) && actions@ == seq![Action::PostEmergency(b)],
                Msg::RequestGetEmergency => *final(self) == *old(self) && actions@ == seq![Action::GetEmergency],
                Msg::RequestGetPing => *final(self) == *old(self) && actions@ == seq![Action::GetPing],
                Msg::ResponsePostEmergency(r) | Msg::ResponseGetEmergency(r) => {
                    &&& *final(self) == match r {
                        Ok(b) => RootComponent { emergency: b, ..*old(self) },
                        Err(_) => *old(self),
                    }
                    &&& actions@ == Seq::<Action>::empty()
                },
                Msg::ResponseGetPing(r) => match r {
                    Ok(_) => {
                        &&& *final(self) == RootComponent { pinging: false, ..*old(self) }
                        &&& actions@ == seq![Action::StopPinging, Action::ShowPage(Page::Login(AutoAction::Login))]
                    },
                    Err(_) => *final(self) == *old(self) && actions@ == Seq::<Action>::empty(),
                },
            },
    {
        match msg {
            Msg::ChangePage(page) => {
                self.current_page = page;
                if page == Page::Restarting {
                    self.pinging = true;
                    vec![Action::StartPinging]
                } else {
                    Vec::new()
                }
            },
            Msg::ChangeWebUserType(t) => {
                self.user_type = t;
                Vec::new()
            },
            Msg::RequestPostEmergency(b) => vec![Action::PostEmergency(b)],
            Msg::RequestGetEmergency => vec![Action::GetEmergency],
            Msg::RequestGetPing => vec![Action::GetPing],
            Msg::ResponsePostEmergency(r) | Msg::ResponseGetEmergency(r) => {
                if let Ok(b) = r {
                    self.emergency = b;
                }
                Vec::new()
            },
            Msg::ResponseGetPing(r) => {
                match r {
                    Ok(_) => {
                        self.pinging = false;
                        vec![Action::StopPinging, Action::ShowPage(Page::Login(AutoAction::Login))]
                    },
                    Err(_) => Vec::new(),
                }
            },
        }
    }
}

} // verus!
