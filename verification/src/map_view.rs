//! The map view: the floor plans to choose from, sorted by name, the plan
//! shown with its beacons, the tags located on it, and the polling that
//! keeps them current during an emergency. Drawing is the caller's.

use vstd::prelude::*;
use crate::address::ShortAddress;
use crate::lists::{sort_by_name, sorted_by_name};
use crate::model::{Beacon, FloorPlan, RealtimeUserData, WebUserType};
use crate::user_message::{UserMessage, failure_text};

verus! {

/// The map view's state. `polled_map` is the plan whose beacons are polled
/// every second, `polling_users` whether the located tags are; `blueprint`
/// is the plan whose image was last loaded, and `checking_blueprint`
/// whether the view still waits for it.
pub struct MapViewComponent<S, C, P, T> {
    pub beacons: Vec<Beacon<C>>,
    pub current_map: Option<FloorPlan<S>>,
    pub emergency: bool,
    pub maps: Vec<FloorPlan<S>>,
    pub realtime_users: Vec<RealtimeUserData<P, T>>,
    pub show_distance: Option<ShortAddress>,
    pub user_type: WebUserType,
    pub show_grid: bool,
    pub polled_map: Option<i32>,
    pub polling_users: bool,
    pub blueprint: Option<i32>,
    pub checking_blueprint: bool,
    pub user_msg: UserMessage,
}

/// The map view's requests to the server.
#[derive(Copy, Clone, Debug, PartialEq, Eq, Structural)]
pub enum Request {
    /// The beacons on a plan.
    GetBeaconsForMap(i32),
    GetMap(i32),
    GetMaps,
    /// Where the tags are.
    RealtimeUser,
}

/// What the map view is told: whether the image has loaded, a plan
/// chosen, a display toggle, a request to make, or the server's answer (an
/// error is the reason given).
pub enum Msg<S, C, P, T> {
    CheckImage(bool),
    ChooseMap(i32),
    Ignore,
    ToggleGrid,
    ViewDistance(ShortAddress),
    Request(Request),
    ResponseGetBeaconsForMap(Result<Vec<Beacon<C>>, String>),
    ResponseGetMap(Result<FloorPlan<S>, String>),
    ResponseGetMaps(Result<Vec<FloorPlan<S>>, String>),
    ResponseRealtimeUser(Result<Vec<RealtimeUserData<P, T>>, String>),
}

/// What the map view asks of its surroundings.
#[derive(Copy, Clone, Debug, PartialEq, Eq, Structural)]
pub enum Action {
    /// Send the request to the server.
    Fetch(Request),
    /// Make the request next: handed back as `Msg::Request`.
    Send(Request),
    /// Choose a plan next: handed back as `Msg::ChooseMap`.
    Choose(i32),
    /// Load the image of a plan, and check every tenth of a second whether
    /// it has loaded.
    LoadBlueprint(i32),
    StopBlueprintCheck,
    /// Ask for the beacons on a plan every second.
    PollBeacons(i32),
    /// Ask where the tags are every second.
    PollUsers,
    StopPolling,
}

/// The key of the plan shown, if any.
pub open spec fn plan_id<S>(m: Option<FloorPlan<S>>) -> Option<i32> {
    match m {
        Some(p) => Some(p.id),
        None => None,
    }
}

/// `i` is the first position of a plan with key `id`.
pub open spec fn is_first_plan<S>(s: Seq<FloorPlan<S>>, id: i32, i: int) -> bool {
    &&& 0 <= i < s.len()
    &&& s[i].id == id
    &&& forall|k: int| 0 <= k < i ==> s[k].id != id
}

/// Some plan has key `id`.
pub open spec fn has_plan<S>(s: Seq<FloorPlan<S>>, id: i32) -> bool {
    exists|i: int| 0 <= i < s.len() && s[i].id == id
}

/// Loading the image of the plan shown, if any.
pub open spec fn load_actions(id: Option<i32>) -> Seq<Action> {
    match id {
        Some(k) => seq![Action::LoadBlueprint(k)],
        None => seq![],
    }
}

/// Polling for the plan shown, if any, and for the tags.
pub open spec fn poll_actions(id: Option<i32>) -> Seq<Action> {
    match id {
        Some(k) => seq![Action::PollBeacons(k), Action::PollUsers],
        None => seq![Action::PollUsers],
    }
}

/// The position of the first plan with key `id`, if any.
fn plan_position<S>(maps: &Vec<FloorPlan<S>>, id: i32) -> (r: Option<usize>)
    ensures
        r matches Some(i) ==> is_first_plan(maps@, id, i as int),
        r is None ==> !has_plan(maps@, id),
{
    let mut i: usize = 0;
    while i < maps.len()
        invariant
            i <= maps.len(),
            forall|k: int| 0 <= k < i ==> maps@[k].id != id,
        decreases maps.len() - i,
    {
        if maps[i].id == id {
            return Some(i);
        }
        i = i + 1;
    }
    None
}

impl<S: Copy, C, P, T> MapViewComponent<S, C, P, T> {
    /// Everything but the messages is as in `old`.
    pub open spec fn same_but_messages(self, old: Self) -> bool {
        self == MapViewComponent { user_msg: self.user_msg, ..old }
    }

    /// The grid was switched on or off.
    pub open spec fn toggled_grid(self, old: Self) -> bool {
        self == MapViewComponent { show_grid: !old.show_grid, ..old }
    }

    /// The view stops waiting for the image once it has loaded.
    pub open spec fn checked_image(self, old: Self, loaded: bool, actions: Seq<Action>) -> bool {
        if old.blueprint is Some && loaded {
            self == MapViewComponent { checking_blueprint: false, ..old } && actions =~= seq![Action::StopBlueprintCheck]
        } else {
            self == old && actions.len() == 0
        }
    }

    /// The distances of a tag are shown, or hidden if they were shown.
    pub open spec fn viewed_distance(self, old: Self, tag: ShortAddress) -> bool {
        self == MapViewComponent {
            show_distance: match old.show_distance {
                Some(c) => if c.addr@ == tag.addr@ {
                    None
                } else {
                    Some(tag)
                },
                None => Some(tag),
            },
            ..old
        }
    }

    /// A request is sent, and the messages cleared.
    pub open spec fn requested(self, old: Self, r: Request, actions: Seq<Action>) -> bool {
        &&& self.same_but_messages(old)
        &&& self.user_msg.is_clear()
        &&& actions =~= seq![Action::Fetch(r)]
    }

    /// Choosing the plan shown hides it; choosing another shows a copy of
    /// the first plan in the list with that key, or none; the image of the
    /// plan shown is loaded, the plan asked for again and, during an
    /// emergency, polled for.
    pub open spec fn chose_map(self, old: Self, id: i32, actions: Seq<Action>) -> bool {
        let hide = old.current_map matches Some(c) && c.id == id;
        let shown = plan_id(self.current_map);
        &&& hide ==> self.current_map is None
        &&& !hide && has_plan(old.maps@, id) ==> (self.current_map matches Some(m) && exists|i: int|
            is_first_plan(old.maps@, id, i) && m.same_as(old.maps@[i]))
        &&& !hide && !has_plan(old.maps@, id) ==> self.current_map is None
        &&& self == MapViewComponent {
            current_map: self.current_map,
            blueprint: match shown {
                Some(k) => Some(k),
                None => old.blueprint,
            },
            checking_blueprint: shown is Some || old.checking_blueprint,
            polled_map: match shown {
                Some(k) => if old.emergency {
                    Some(k)
                } else {
                    old.polled_map
                },
                None => old.polled_map,
            },
            polling_users: old.emergency || old.polling_users,
            ..old
        }
        &&& actions =~= load_actions(shown) + match shown {
            Some(k) => seq![Action::Send(Request::GetMap(k))],
            None => Seq::<Action>::empty(),
        } + if old.emergency {
            poll_actions(shown)
        } else {
            Seq::<Action>::empty()
        }
    }

    /// Only the tags located on the plan shown are kept.
    pub open spec fn located(self, old: Self, users: Seq<RealtimeUserData<P, T>>) -> bool {
        &&& self.realtime_users@ =~= users.filter(|u: RealtimeUserData<P, T>| u.map_id == plan_id(old.current_map))
        &&& self == MapViewComponent { realtime_users: self.realtime_users, ..old }
    }

    /// The beacons received replace those shown.
    pub open spec fn got_beacons(self, old: Self, b: Vec<Beacon<C>>) -> bool {
        self == MapViewComponent { beacons: b, ..old }
    }

    /// A plan received is shown, replaces the first plan in the list with
    /// its key, and its image is loaded.
    pub open spec fn got_map(self, old: Self, map: FloorPlan<S>, actions: Seq<Action>) -> bool {
        &&& self.current_map matches Some(m) && m.same_as(map)
        &&& has_plan(old.maps@, map.id) ==> exists|i: int| is_first_plan(old.maps@, map.id, i) && self.maps@
            =~= old.maps@.update(i, map)
        &&& !has_plan(old.maps@, map.id) ==> self.maps == old.maps
        &&& self == MapViewComponent {
            current_map: self.current_map,
            maps: self.maps,
            blueprint: Some(map.id),
            checking_blueprint: true,
            ..old
        }
        &&& actions =~= seq![Action::LoadBlueprint(map.id)]
    }

    /// The list received is sorted by name, and its first plan chosen.
    pub open spec fn got_maps(self, old: Self, v: Seq<FloorPlan<S>>, actions: Seq<Action>) -> bool {
        &&& self.maps@.to_multiset() =~= v.to_multiset()
        &&& sorted_by_name(self.maps@)
        &&& self == MapViewComponent { maps: self.maps, ..old }
        &&& actions =~= if v.len() > 0 {
            seq![Action::Choose(self.maps@[0].id)]
        } else {
            Seq::<Action>::empty()
        }
    }

    /// A request failed: only the error `m` is added.
    pub open spec fn failed(self, old: Self, m: Seq<char>) -> bool {
        self.same_but_messages(old) && self.user_msg.erred(old.user_msg, m)
    }

    /// Starts polling for the plan shown and the tags; without a plan,
    /// polling for the beacons stays as it was.
    fn start_service(&mut self) -> (actions: Vec<Action>)
        ensures
            *final(self) == (MapViewComponent {
                polled_map: match plan_id(old(self).current_map) {
                    Some(k) => Some(k),
                    None => old(self).polled_map,
                },
                polling_users: true,
                ..*old(self)
            }),
            actions@ == poll_actions(plan_id(old(self).current_map)),
    {
        match &self.current_map {
            Some(m) => {
                let id = m.id;
                self.polled_map = Some(id);
                self.polling_users = true;
                vec![Action::PollBeacons(id), Action::PollUsers]
            },
            None => {
                self.polling_users = true;
                vec![Action::PollUsers]
            },
        }
    }

    /// Loads the image of the plan shown, if any.
    fn load_img(&mut self) -> (actions: Vec<Action>)
        ensures
            *final(self) == (match plan_id(old(self).current_map) {
                Some(k) => MapViewComponent { blueprint: Some(k), checking_blueprint: true, ..*old(self) },
                None => *old(self),
            }),
            actions@ == load_actions(plan_id(old(self).current_map)),
    {
        match &self.current_map {
            Some(m) => {
                let id = m.id;
                self.blueprint = Some(id);
                self.checking_blueprint = true;
                vec![Action::LoadBlueprint(id)]
            },
            None => Vec::new(),
        }
    }

    /// A view with no plan, which asks for the plan `opt_id` and its
    /// beacons if given, then for the list of plans; during an emergency it
    /// polls for the tags.
    pub fn create(emergency: bool, opt_id: Option<i32>, user_type: WebUserType) -> (r: (
        MapViewComponent<S, C, P, T>,
        Vec<Action>,
    ))
        ensures
            r.0.beacons@.len() == 0,
            r.0.current_map is None,
            r.0.emergency == emergency,
            r.0.maps@.len() == 0,
            r.0.realtime_users@.len() == 0,
            r.0.show_distance is None,
            r.0.user_type == user_type,
            !r.0.show_grid,
            r.0.polled_map is None,
            r.0.polling_users == emergency,
            r.0.blueprint is None,
            !r.0.checking_blueprint,
            r.0.user_msg.is_clear(),
            r.1@ == match opt_id {
                Some(id) => seq![Action::Send(Request::GetMap(id)), Action::Send(Request::GetBeaconsForMap(id))],
                None => Seq::<Action>::empty(),
            } + seq![Action::Send(Request::GetMaps)] + if emergency {
                seq![Action::PollUsers]
            } else {
                Seq::<Action>::empty()
            },
    {
        let mut actions: Vec<Action> = Vec::new();
        if let Some(id) = opt_id {
            actions.push(Action::Send(Request::GetMap(id)));
            actions.push(Action::Send(Request::GetBeaconsForMap(id)));
        }
        actions.push(Action::Send(Request::GetMaps));
        let mut view = MapViewComponent {
            beacons: Vec::new(),
            current_map: None,
            emergency,
            maps: Vec::new(),
            realtime_users: Vec::new(),
            show_distance: None,
            user_type,
            show_grid: false,
            polled_map: None,
            polling_users: false,
            blueprint: None,
            checking_blueprint: false,
            user_msg: UserMessage::new(),
        };
        if emergency {
            let mut more = view.start_service();
            actions.append(&mut more);
        }
        (view, actions)
    }

    /// The emergency starts or ends. Polling restarts when it starts; when
    /// it ends, polling stops and the tags are no longer shown.
    pub fn change(&mut self, emergency: bool) -> (actions: Vec<Action>)
        ensures
            emergency ==> *final(self) == (MapViewComponent {
                emergency: true,
                polled_map: plan_id(old(self).current_map),
                polling_users: true,
                ..*old(self)
            }),
            emergency ==> actions@ == seq![Action::StopPolling] + poll_actions(plan_id(old(self).current_map)),
            !emergency ==> final(self).realtime_users@.len() == 0,
            !emergency ==> *final(self) == (MapViewComponent {
                emergency: false,
                polled_map: None,
                polling_users: false,
                realtime_users: final(self).realtime_users,
                ..*old(self)
            }),
            !emergency ==> actions@ == seq![Action::StopPolling],
    {
        self.emergency = emergency;
        self.polled_map = None;
        self.polling_users = false;
        let mut actions = vec![Action::StopPolling];
        if emergency {
            let mut more = self.start_service();
            actions.append(&mut more);
        } else {
            self.realtime_users = Vec::new();
        }
        actions
    }

    /// What is drawn: nothing without a plan; with one, the plan, its
    /// tags and the legend, and its beacons for an administrator (the
    /// value says whether the beacons are drawn).
    pub fn drawing(&self) -> (r: Option<bool>)
        ensures
            r == match self.current_map {
                Some(_) => Some(self.user_type == WebUserType::Admin),
                None => None,
            },
    {
        match &self.current_map {
            Some(_) => Some(
                match self.user_type {
                    WebUserType::Admin => true,
                    WebUserType::Responder => false,
                },
            ),
            None => None,
        }
    }

    /// Takes in a message.
    ///
    /// Choosing the plan shown hides it; choosing another shows a copy of
    /// the first plan in the list with that key (or none), loads its image,
    /// asks for it again and, during an emergency, polls for it. A plan
    /// received is shown and replaces the first plan in the list with its
    /// key. The list received is sorted by name and its first plan chosen.
    /// Only the tags located on the plan shown are kept.
    pub fn update(&mut self, msg: Msg<S, C, P, T>) -> (actions: Vec<Action>)
        ensures
            match msg {
                Msg::Ignore => *final(self) == *old(self) && actions@.len() == 0,
                Msg::ToggleGrid => final(self).toggled_grid(*old(self)) && actions@.len() == 0,
                Msg::CheckImage(loaded) => final(self).checked_image(*old(self), loaded, actions@),
                Msg::ViewDistance(tag) => final(self).viewed_distance(*old(self), tag) && actions@.len() == 0,
                Msg::Request(r) => final(self).requested(*old(self), r, actions@),
                Msg::ChooseMap(id) => final(self).chose_map(*old(self), id, actions@),
                Msg::ResponseRealtimeUser(Ok(users)) => final(self).located(*old(self), users@) && actions@.len()
                    == 0,
                Msg::ResponseRealtimeUser(Err(e)) => final(self).failed(
                    *old(self),
                    "failed to request realtime user data, reason: "@ + e@,
                ) && actions@.len() == 0,
                Msg::ResponseGetBeaconsForMap(Ok(b)) => final(self).got_beacons(*old(self), b) && actions@.len()
                    == 0,
                Msg::ResponseGetBeaconsForMap(Err(e)) => final(self).failed(
                    *old(self),
                    "failed to obtain list of beacons for this map, reason: "@ + e@,
                ) && actions@.len() == 0,
                Msg::ResponseGetMap(Ok(map)) => final(self).got_map(*old(self), map, actions@),
                Msg::ResponseGetMap(Err(e)) => final(self).failed(*old(self), "failed to get map, reason: "@ + e@)
                    && actions@.len() == 0,
                Msg::ResponseGetMaps(Ok(v)) => final(self).got_maps(*old(self), v@, actions@),
                Msg::ResponseGetMaps(Err(e)) => final(self).failed(*old(self), "failed to get maps, reason: "@ + e@)
                    && actions@.len() == 0,
            },
    {
        match msg {
            Msg::Ignore => Vec::new(),
            Msg::ToggleGrid => {
                self.show_grid = !self.show_grid;
                Vec::new()
            },
            Msg::CheckImage(loaded) => {
                if self.blueprint.is_some() && loaded {
                    self.checking_blueprint = false;
                    vec![Action::StopBlueprintCheck]
                } else {
                    Vec::new()
                }
            },
            Msg::ViewDistance(tag) => {
                let same = match &self.show_distance {
                    Some(c) => c.addr[0] == tag.addr[0] && c.addr[1] == tag.addr[1],
                    None => false,
                };
                proof {
                    if let Some(c) = old(self).show_distance {
                        if same {
                            assert(c.addr@ =~= tag.addr@);
                        }
                    }
                }
                self.show_distance = if same {
                    None
                } else {
                    Some(tag)
                };
                Vec::new()
            },
            Msg::Request(r) => {
                self.user_msg.reset();
                vec![Action::Fetch(r)]
            },
            Msg::ChooseMap(id) => {
                let hide = match &self.current_map {
                    Some(c) => c.id == id,
                    None => false,
                };
                let chosen = if hide {
                    None
                } else {
                    match plan_position(&self.maps, id) {
                        Some(i) => Some(self.maps[i].copy()),
                        None => None,
                    }
                };
                self.current_map = chosen;
                let mut actions = self.load_img();
                if let Some(m) = &self.current_map {
                    actions.push(Action::Send(Request::GetMap(m.id)));
                }
                if self.emergency {
                    let mut more = self.start_service();
                    actions.append(&mut more);
                }
                actions
            },
            Msg::ResponseRealtimeUser(Ok(users)) => {
                let current = match &self.current_map {
                    Some(m) => Some(m.id),
                    None => None,
                };
                let ghost keep = |u: RealtimeUserData<P, T>| u.map_id == current;
                let ghost all = users@;
                let mut kept: Vec<RealtimeUserData<P, T>> = Vec::new();
                let mut rest = users;
                let mut done: Ghost<Seq<RealtimeUserData<P, T>>> = Ghost(Seq::empty());
                assert(all =~= done@ + rest@);
                proof {
                    reveal(Seq::filter);
                }
                assert(kept@ =~= done@.filter(keep));
                while rest.len() > 0
                    invariant
                        all == done@ + rest@,
                        kept@ == done@.filter(keep),
                        forall|x: RealtimeUserData<P, T>| #[trigger] keep(x) == (x.map_id == current),
                    decreases rest.len(),
                {
                    let ghost before = rest@;
                    let u = rest.remove(0);
                    assert(before =~= seq![u] + rest@);
                    proof {
                        assert(done@.push(u).drop_last() =~= done@);
                        assert(all =~= done@.push(u) + rest@);
                    }
                    let ghost now = done@.push(u);
                    proof {
                        reveal(Seq::filter);
                        assert(now.drop_last() =~= done@);
                        assert(now.last() == u);
                        assert(now.filter(keep) == if keep(u) {
                            done@.filter(keep).push(u)
                        } else {
                            done@.filter(keep)
                        });
                    }
                    if u.map_id == current {
                        kept.push(u);
                    }
                    proof {
                        done@ = now;
                    }
                }
                assert(done@ =~= all);
                self.realtime_users = kept;
                Vec::new()
            },
            Msg::ResponseRealtimeUser(Err(e)) => {
                self.user_msg.push_error(failure_text("failed to request realtime user data, reason: ", e.as_str()));
                Vec::new()
            },
            Msg::ResponseGetBeaconsForMap(Ok(b)) => {
                self.beacons = b;
                Vec::new()
            },
            Msg::ResponseGetBeaconsForMap(Err(e)) => {
                self.user_msg.push_error(
                    failure_text("failed to obtain list of beacons for this map, reason: ", e.as_str()),
                );
                Vec::new()
            },
            Msg::ResponseGetMap(Ok(map)) => {
                self.current_map = Some(map.copy());
                match plan_position(&self.maps, map.id) {
                    Some(i) => {
                        self.maps.set(i, map);
                    },
                    None => {},
                }
                self.load_img()
            },
            Msg::ResponseGetMap(Err(e)) => {
                self.user_msg.push_error(failure_text("failed to get map, reason: ", e.as_str()));
                Vec::new()
            },
            Msg::ResponseGetMaps(Ok(v)) => {
                let ghost given = v@;
                let sorted = sort_by_name(v);
                proof {
                    vstd::seq_lib::to_multiset_len(given);
                    vstd::seq_lib::to_multiset_len(sorted@);
                }
                let actions = if sorted.len() > 0 {
                    vec![Action::Choose(sorted[0].id)]
                } else {
                    Vec::new()
                };
                self.maps = sorted;
                actions
            },
            Msg::ResponseGetMaps(Err(e)) => {
                self.user_msg.push_error(failure_text("failed to get maps, reason: ", e.as_str()));
                Vec::new()
            },
        }
    }
}

/// Choosing a plan and then choosing it again hides it once it was
/// shown.
pub proof fn lemma_choose_twice_hides<S: Copy, C, P, T>(
    v1: MapViewComponent<S, C, P, T>,
    v2: MapViewComponent<S, C, P, T>,
    v3: MapViewComponent<S, C, P, T>,
    id: i32,
    a1: Seq<Action>,
    a2: Seq<Action>,
)
    requires
        v2.chose_map(v1, id, a1),
        v2.current_map is Some,
        v3.chose_map(v2, id, a2),
    ensures
        v3.current_map is None,
        a2 =~= if v2.emergency { poll_actions(None) } else { Seq::<Action>::empty() },
{
    let hide1 = v1.current_map matches Some(c) && c.id == id;
    assert(!hide1);
    assert(has_plan(v1.maps@, id));
    let m = v2.current_map->0;
    let i = choose|i: int| is_first_plan(v1.maps@, id, i) && m.same_as(v1.maps@[i]);
    assert(m.id == id);
}

/// Switching the grid twice leaves the view as it was.
pub proof fn lemma_grid_twice<S: Copy, C, P, T>(
    v1: MapViewComponent<S, C, P, T>,
    v2: MapViewComponent<S, C, P, T>,
    v3: MapViewComponent<S, C, P, T>,
)
    requires
        v2.toggled_grid(v1),
        v3.toggled_grid(v2),
    ensures
        v3 == v1,
{
}

/// Asking twice for the distances of a tag whose distances were hidden
/// hides them again.
pub proof fn lemma_distance_twice<S: Copy, C, P, T>(
    v1: MapViewComponent<S, C, P, T>,
    v2: MapViewComponent<S, C, P, T>,
    v3: MapViewComponent<S, C, P, T>,
    tag: ShortAddress,
)
    requires
        v1.show_distance is None,
        v2.viewed_distance(v1, tag),
        v3.viewed_distance(v2, tag),
    ensures
        v3 == v1,
{
}

} // verus!
