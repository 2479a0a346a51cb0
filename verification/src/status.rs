//! The status board of the web interface: the beacons, users and floor
//! plans it shows, filed under their keys, and how the run-time status
//! read from the server updates them.

use vstd::prelude::*;
use std::collections::HashMap;
use vstd::std_specs::iter::IteratorSpec;
use crate::model::{Beacon, BeaconRequest, FloorPlan, RealtimeBeacon, RealtimeUserData, TrackedUser, WebUserType};
use crate::root::{Page, PageState};
use crate::user_message::UserMessage;

verus! {

broadcast use vstd::std_specs::hash::group_hash_axioms;

/// The status board; `C` and `P` are the types of the positions of beacons
/// and users, `S` that of a scale.
pub struct StatusBoard<C, P, S> {
    beacons: HashMap<i32, Beacon<C>>,
    maps: HashMap<i32, FloorPlan<S>>,
    users: HashMap<i32, TrackedUser<P>>,
}

/// `m` after filing the plans `s` in order, each under its key.
pub open spec fn filed_maps<S>(m: Map<i32, FloorPlan<S>>, s: Seq<FloorPlan<S>>) -> Map<i32, FloorPlan<S>>
    decreases s.len(),
{
    if s.len() == 0 {
        m
    } else {
        filed_maps(m, s.drop_last()).insert(s.last().id, s.last())
    }
}

/// `m` after filing the users `s` in order, each under its key.
pub open spec fn filed_users<P>(m: Map<i32, TrackedUser<P>>, s: Seq<TrackedUser<P>>) -> Map<i32, TrackedUser<P>>
    decreases s.len(),
{
    if s.len() == 0 {
        m
    } else {
        filed_users(m, s.drop_last()).insert(s.last().id, s.last())
    }
}

/// `m` after filing the beacons `s` that are on a plan, in order, each
/// under its key; the others are left out.
pub open spec fn filed_beacons<C>(m: Map<i32, Beacon<C>>, s: Seq<Beacon<C>>) -> Map<i32, Beacon<C>>
    decreases s.len(),
{
    if s.len() == 0 {
        m
    } else if s.last().map_id is Some {
        filed_beacons(m, s.drop_last()).insert(s.last().id, s.last())
    } else {
        filed_beacons(m, s.drop_last())
    }
}

/// `m` after taking in the run-time states `s` in order: a beacon on the
/// board takes over when it was last active and its state; one not on the
/// board is ignored.
pub open spec fn merged_beacons<C>(m: Map<i32, Beacon<C>>, s: Seq<RealtimeBeacon>) -> Map<i32, Beacon<C>>
    decreases s.len(),
{
    if s.len() == 0 {
        m
    } else {
        let p = merged_beacons(m, s.drop_last());
        let rt = s.last();
        if p.contains_key(rt.id) {
            p.insert(rt.id, Beacon { last_active: rt.last_active, state: rt.state, ..p[rt.id] })
        } else {
            p
        }
    }
}

/// `m` after taking in the run-time records `s` in order: a user on the
/// board takes over where and when they were located; one not on the
/// board is ignored.
pub open spec fn merged_users<P, T>(m: Map<i32, TrackedUser<P>>, s: Seq<RealtimeUserData<P, T>>) -> Map<i32, TrackedUser<P>>
    decreases s.len(),
{
    if s.len() == 0 {
        m
    } else {
        let p = merged_users(m, s.drop_last());
        let rt = s.last();
        if p.contains_key(rt.id) {
            p.insert(
                rt.id,
                TrackedUser { coordinates: rt.coordinates, last_active: rt.last_active, map_id: rt.map_id, ..p[rt.id] },
            )
        } else {
            p
        }
    }
}

/// Every run-time state of a beacon on the board is for that beacon: the
/// addresses agree.
pub open spec fn beacons_agree<C>(m: Map<i32, Beacon<C>>, s: Seq<RealtimeBeacon>) -> bool {
    forall|i: int| 0 <= i < s.len() && #[trigger] m.contains_key(s[i].id) ==> m[s[i].id].mac_address.eui@ == s[i].mac_address.eui@
}

/// Every run-time record of a user on the board is for that user: the
/// user has a tag, and it is the record's.
pub open spec fn users_agree<P, T>(m: Map<i32, TrackedUser<P>>, s: Seq<RealtimeUserData<P, T>>) -> bool {
    forall|i: int| 0 <= i < s.len() && #[trigger] m.contains_key(s[i].id) ==> (m[s[i].id].mac_address matches Some(a)
        && a.addr@ == s[i].addr.addr@)
}

/// Run-time states never add a beacon to the board or take one off, and
/// never change which beacon is filed where or its address.
pub proof fn lemma_merged_beacons_keeps_addresses<C>(m: Map<i32, Beacon<C>>, s: Seq<RealtimeBeacon>)
    ensures
        merged_beacons(m, s).dom() == m.dom(),
        forall|k: i32| #[trigger] m.contains_key(k) ==> merged_beacons(m, s)[k].mac_address == m[k].mac_address
            && merged_beacons(m, s)[k].id == m[k].id,
    decreases s.len(),
{
    if s.len() > 0 {
        lemma_merged_beacons_keeps_addresses(m, s.drop_last());
        let p = merged_beacons(m, s.drop_last());
        if p.contains_key(s.last().id) {
            assert(merged_beacons(m, s).dom() =~= p.dom());
        }
    }
}

/// Run-time records never add a user to the board or take one off, and
/// never change which user is filed where or their tag.
pub proof fn lemma_merged_users_keeps_tags<P, T>(m: Map<i32, TrackedUser<P>>, s: Seq<RealtimeUserData<P, T>>)
    ensures
        merged_users(m, s).dom() == m.dom(),
        forall|k: i32| #[trigger] m.contains_key(k) ==> merged_users(m, s)[k].mac_address == m[k].mac_address
            && merged_users(m, s)[k].id == m[k].id,
    decreases s.len(),
{
    if s.len() > 0 {
        lemma_merged_users_keeps_tags(m, s.drop_last());
        let p = merged_users(m, s.drop_last());
        if p.contains_key(s.last().id) {
            assert(merged_users(m, s).dom() =~= p.dom());
        }
    }
}

/// The keys of a table, each once, in the order the table gives them.
fn table_keys<V>(m: &HashMap<i32, V>) -> (ks: Vec<i32>)
    ensures
        ks@.to_set() == m@.dom(),
        ks@.no_duplicates(),
{
    let mut ks: Vec<i32> = Vec::new();
    let ghost r = vstd::std_specs::hash::spec_keys_iter(m).remaining();
    let ghost g = r.unref();
    assert(g.no_duplicates()) by {
        assert forall|i: int, j: int| 0 <= i < j < g.len() implies g[i] != g[j] by {
            assert(r[i] != r[j]);
        }
    }
    for k in it: m.keys()
        invariant
            it.seq().unref() == g,
            ks@.len() == it.index(),
            forall|i: int| 0 <= i < it.index() ==> ks@[i] == g[i],
        ensures
            ks@ =~= g,
    {
        ks.push(*k);
    }
    ks
}

/// What a row of the beacon table shows besides the beacon's own fields:
/// the name of its floor, whether its map can be opened, and the commands
/// offered for it.
pub struct BeaconRow {
    pub floor: String,
    pub map_button: bool,
    pub commands: Vec<BeaconRequest>,
}

/// What a row of the user table shows besides the user's own fields: the
/// name of their floor and whether its map can be opened.
pub struct UserRow {
    pub floor: String,
    pub map_button: bool,
}

/// The name of the floor of a record on plan `map_id`: the plan's name
/// once it is on the board, nothing until then.
pub open spec fn floor_name<S>(maps: Map<i32, FloorPlan<S>>, map_id: Option<i32>) -> Seq<char> {
    match map_id {
        Some(k) => if maps.contains_key(k) {
            maps[k].name@
        } else {
            Seq::empty()
        },
        None => Seq::empty(),
    }
}

impl<C, P, S> StatusBoard<C, P, S> {
    /// Every record on the board is filed under its own key.
    pub open spec fn consistent(self) -> bool {
        &&& forall|k: i32| #[trigger] self.beacon_table().contains_key(k) ==> self.beacon_table()[k].id == k
        &&& forall|k: i32| #[trigger] self.map_table().contains_key(k) ==> self.map_table()[k].id == k
        &&& forall|k: i32| #[trigger] self.user_table().contains_key(k) ==> self.user_table()[k].id == k
    }

    #[verifier::type_invariant]
    closed spec fn inv(self) -> bool {
        self.consistent()
    }

    /// The beacons shown, under their keys.
    pub closed spec fn beacon_table(self) -> Map<i32, Beacon<C>> {
        self.beacons@
    }

    /// The floor plans known, under their keys.
    pub closed spec fn map_table(self) -> Map<i32, FloorPlan<S>> {
        self.maps@
    }

    /// The users shown, under their keys.
    pub closed spec fn user_table(self) -> Map<i32, TrackedUser<P>> {
        self.users@
    }

    /// The name of the floor of a record on plan `map_id`.
    fn floor(&self, map_id: Option<i32>) -> (r: String)
        ensures
            r@ == floor_name(self.map_table(), map_id),
    {
        match map_id {
            Some(k) => match self.maps.get(&k) {
                Some(m) => m.name.clone(),
                None => String::new(),
            },
            None => String::new(),
        }
    }

    /// The row of a beacon: its map can be opened when it is on a plan,
    /// loaded or not, and an administrator may ping or reboot it.
    pub fn beacon_row(&self, b: &Beacon<C>, user_type: WebUserType) -> (r: BeaconRow)
        ensures
            r.floor@ == floor_name(self.map_table(), b.map_id),
            r.map_button == b.map_id is Some,
            user_type == WebUserType::Admin ==> r.commands@ == seq![
                BeaconRequest::Ping(Some(b.mac_address)),
                BeaconRequest::Reboot(Some(b.mac_address)),
            ],
            user_type == WebUserType::Responder ==> r.commands@.len() == 0,
    {
        let commands = match user_type {
            WebUserType::Admin => vec![
                BeaconRequest::Ping(Some(b.mac_address)),
                BeaconRequest::Reboot(Some(b.mac_address)),
            ],
            WebUserType::Responder => Vec::new(),
        };
        BeaconRow { floor: self.floor(b.map_id), map_button: b.map_id.is_some(), commands }
    }

    /// The row of a user: their map can be opened once it is on the board.
    pub fn user_row(&self, u: &TrackedUser<P>) -> (r: UserRow)
        ensures
            r.floor@ == floor_name(self.map_table(), u.map_id),
            r.map_button == (u.map_id matches Some(k) && self.map_table().contains_key(k)),
    {
        let map_button = match u.map_id {
            Some(k) => self.maps.contains_key(&k),
            None => false,
        };
        UserRow { floor: self.floor(u.map_id), map_button }
    }

    /// The keys of the beacons shown, each once, in no particular order.
    pub fn beacon_keys(&self) -> (r: Vec<i32>)
        ensures
            r@.to_set() == self.beacon_table().dom(),
            r@.no_duplicates(),
    {
        table_keys(&self.beacons)
    }

    /// The keys of the users shown, each once, in no particular order.
    pub fn user_keys(&self) -> (r: Vec<i32>)
        ensures
            r@.to_set() == self.user_table().dom(),
            r@.no_duplicates(),
    {
        table_keys(&self.users)
    }

    /// The beacon filed under `id`, if any.
    pub fn beacon(&self, id: i32) -> (r: Option<&Beacon<C>>)
        ensures
            match r {
                Some(b) => self.beacon_table().contains_key(id) && *b == self.beacon_table()[id],
                None => !self.beacon_table().contains_key(id),
            },
    {
        self.beacons.get(&id)
    }

    /// The floor plan filed under `id`, if any.
    pub fn floor_plan(&self, id: i32) -> (r: Option<&FloorPlan<S>>)
        ensures
            match r {
                Some(m) => self.map_table().contains_key(id) && *m == self.map_table()[id],
                None => !self.map_table().contains_key(id),
            },
    {
        self.maps.get(&id)
    }

    /// The user filed under `id`, if any.
    pub fn user(&self, id: i32) -> (r: Option<&TrackedUser<P>>)
        ensures
            match r {
                Some(u) => self.user_table().contains_key(id) && *u == self.user_table()[id],
                None => !self.user_table().contains_key(id),
            },
    {
        self.users.get(&id)
    }

    /// An empty board.
    pub fn new() -> (b: StatusBoard<C, P, S>)
        ensures
            b.consistent(),
            b.beacon_table() == Map::<i32, Beacon<C>>::empty(),
            b.map_table() == Map::<i32, FloorPlan<S>>::empty(),
            b.user_table() == Map::<i32, TrackedUser<P>>::empty(),
    {
        StatusBoard { beacons: HashMap::new(), maps: HashMap::new(), users: HashMap::new() }
    }

    /// Files floor plans read from the server, in order.
    pub fn maps_loaded(&mut self, maps: Vec<FloorPlan<S>>)
        ensures
            final(self).consistent(),
            final(self).map_table() == filed_maps(old(self).map_table(), maps@),
            final(self).beacon_table() == old(self).beacon_table(),
            final(self).user_table() == old(self).user_table(),
    {
        proof {
            use_type_invariant(&*self);
        }
        let ghost start = self.map_table();
        let ghost all = maps@;
        let mut table: HashMap<i32, FloorPlan<S>> = HashMap::new();
        std::mem::swap(&mut table, &mut self.maps);
        let mut rest = maps;
        let mut done: Ghost<Seq<FloorPlan<S>>> = Ghost(Seq::empty());
        assert(all =~= done@ + rest@);
        while rest.len() > 0
            invariant
                all == done@ + rest@,
                table@ == filed_maps(start, done@),
                forall|k: i32| #[trigger] table@.contains_key(k) ==> table@[k].id == k,
            decreases rest.len(),
        {
            let ghost before = rest@;
            let m = rest.remove(0);
            assert(before =~= seq![m] + rest@);
            table.insert(m.id, m);
            proof {
                assert((done@.push(m)).drop_last() =~= done@);
                assert(all =~= done@.push(m) + rest@);
                done@ = done@.push(m);
            }
        }
        assert(all =~= done@);
        self.maps = table;
    }

    /// Files a floor plan read from the server.
    pub fn map_loaded(&mut self, map: FloorPlan<S>)
        ensures
            final(self).consistent(),
            final(self).map_table() == old(self).map_table().insert(map.id, map),
            final(self).beacon_table() == old(self).beacon_table(),
            final(self).user_table() == old(self).user_table(),
    {
        proof {
            use_type_invariant(&*self);
        }
        let mut table: HashMap<i32, FloorPlan<S>> = HashMap::new();
        std::mem::swap(&mut table, &mut self.maps);
        table.insert(map.id, map);
        self.maps = table;
    }

    /// Files the beacons read from the server that are on a floor plan, in
    /// order: a beacon on no plan is of no use to a first responder.
    pub fn beacons_loaded(&mut self, beacons: Vec<Beacon<C>>)
        ensures
            final(self).consistent(),
            final(self).beacon_table() == filed_beacons(old(self).beacon_table(), beacons@),
            final(self).map_table() == old(self).map_table(),
            final(self).user_table() == old(self).user_table(),
    {
        proof {
            use_type_invariant(&*self);
        }
        let ghost start = self.beacon_table();
        let ghost all = beacons@;
        let mut table: HashMap<i32, Beacon<C>> = HashMap::new();
        std::mem::swap(&mut table, &mut self.beacons);
        let mut rest = beacons;
        let mut done: Ghost<Seq<Beacon<C>>> = Ghost(Seq::empty());
        assert(all =~= done@ + rest@);
        while rest.len() > 0
            invariant
                all == done@ + rest@,
                table@ == filed_beacons(start, done@),
                forall|k: i32| #[trigger] table@.contains_key(k) ==> table@[k].id == k,
            decreases rest.len(),
        {
            let ghost before = rest@;
            let b = rest.remove(0);
            assert(before =~= seq![b] + rest@);
            proof {
                assert((done@.push(b)).drop_last() =~= done@);
                assert(all =~= done@.push(b) + rest@);
            }
            if b.map_id.is_some() {
                table.insert(b.id, b);
            }
            proof {
                done@ = done@.push(b);
            }
        }
        assert(all =~= done@);
        self.beacons = table;
    }

    /// Files users read from the server, in order.
    pub fn users_loaded(&mut self, users: Vec<TrackedUser<P>>)
        ensures
            final(self).consistent(),
            final(self).user_table() == filed_users(old(self).user_table(), users@),
            final(self).beacon_table() == old(self).beacon_table(),
            final(self).map_table() == old(self).map_table(),
    {
        proof {
            use_type_invariant(&*self);
        }
        let ghost start = self.user_table();
        let ghost all = users@;
        let mut table: HashMap<i32, TrackedUser<P>> = HashMap::new();
        std::mem::swap(&mut table, &mut self.users);
        let mut rest = users;
        let mut done: Ghost<Seq<TrackedUser<P>>> = Ghost(Seq::empty());
        assert(all =~= done@ + rest@);
        while rest.len() > 0
            invariant
                all == done@ + rest@,
                table@ == filed_users(start, done@),
                forall|k: i32| #[trigger] table@.contains_key(k) ==> table@[k].id == k,
            decreases rest.len(),
        {
            let ghost before = rest@;
            let u = rest.remove(0);
            assert(before =~= seq![u] + rest@);
            table.insert(u.id, u);
            proof {
                assert((done@.push(u)).drop_last() =~= done@);
                assert(all =~= done@.push(u) + rest@);
                done@ = done@.push(u);
            }
        }
        assert(all =~= done@);
        self.users = table;
    }

    /// Files a user read from the server.
    pub fn user_loaded(&mut self, user: TrackedUser<P>)
        ensures
            final(self).consistent(),
            final(self).user_table() == old(self).user_table().insert(user.id, user),
            final(self).beacon_table() == old(self).beacon_table(),
            final(self).map_table() == old(self).map_table(),
    {
        proof {
            use_type_invariant(&*self);
        }
        let mut table: HashMap<i32, TrackedUser<P>> = HashMap::new();
        std::mem::swap(&mut table, &mut self.users);
        table.insert(user.id, user);
        self.users = table;
    }

    /// Takes in the run-time states of the beacons, in order.
    pub fn beacons_status(&mut self, states: Vec<RealtimeBeacon>)
        requires
            beacons_agree(old(self).beacon_table(), states@),
        ensures
            final(self).consistent(),
            final(self).beacon_table() == merged_beacons(old(self).beacon_table(), states@),
            final(self).map_table() == old(self).map_table(),
            final(self).user_table() == old(self).user_table(),
    {
        proof {
            use_type_invariant(&*self);
        }
        let ghost start = self.beacon_table();
        let ghost all = states@;
        let mut table: HashMap<i32, Beacon<C>> = HashMap::new();
        std::mem::swap(&mut table, &mut self.beacons);
        let mut i: usize = 0;
        while i < states.len()
            invariant
                all == states@,
                i <= all.len(),
                beacons_agree(start, all),
                forall|k: i32| #[trigger] start.contains_key(k) ==> start[k].id == k,
                table@ == merged_beacons(start, all.take(i as int)),
            decreases states.len() - i,
        {
            let rt = states[i];
            proof {
                assert(all.take(i as int + 1).drop_last() =~= all.take(i as int));
                lemma_merged_beacons_keeps_addresses(start, all.take(i as int));
            }
            match table.remove(&rt.id) {
                Some(mut b) => {
                    assert(start.contains_key(rt.id));
                    b.merge(rt);
                    table.insert(rt.id, b);
                    assert(table@ =~= merged_beacons(start, all.take(i as int + 1)));
                },
                None => {
                    assert(table@ =~= merged_beacons(start, all.take(i as int + 1)));
                },
            }
            i = i + 1;
        }
        assert(all.take(all.len() as int) =~= all);
        proof {
            lemma_merged_beacons_keeps_addresses(start, all);
        }
        self.beacons = table;
    }

    /// Takes in the run-time records of the users, in order.
    pub fn users_status<T>(&mut self, records: Vec<RealtimeUserData<P, T>>)
        requires
            users_agree(old(self).user_table(), records@),
        ensures
            final(self).consistent(),
            final(self).user_table() == merged_users(old(self).user_table(), records@),
            final(self).map_table() == old(self).map_table(),
            final(self).beacon_table() == old(self).beacon_table(),
    {
        proof {
            use_type_invariant(&*self);
        }
        let ghost start = self.user_table();
        let ghost all = records@;
        let mut table: HashMap<i32, TrackedUser<P>> = HashMap::new();
        std::mem::swap(&mut table, &mut self.users);
        let mut rest = records;
        let mut done: Ghost<Seq<RealtimeUserData<P, T>>> = Ghost(Seq::empty());
        assert(all =~= done@ + rest@);
        while rest.len() > 0
            invariant
                all == done@ + rest@,
                users_agree(start, all),
                forall|k: i32| #[trigger] start.contains_key(k) ==> start[k].id == k,
                table@ == merged_users(start, done@),
            decreases rest.len(),
        {
            let ghost before = rest@;
            let rt = rest.remove(0);
            assert(before =~= seq![rt] + rest@);
            proof {
                assert((done@.push(rt)).drop_last() =~= done@);
                assert(all =~= done@.push(rt) + rest@);
                assert(all[done@.len() as int] == rt);
                lemma_merged_users_keeps_tags(start, done@);
            }
            let id = rt.id;
            match table.remove(&id) {
                Some(mut u) => {
                    assert(start.contains_key(id));
                    let _tofs = u.merge(rt);
                    table.insert(id, u);
                },
                None => {},
            }
            proof {
                done@ = done@.push(rt);
            }
            assert(table@ =~= merged_users(start, done@));
        }
        assert(all =~= done@);
        proof {
            lemma_merged_users_keeps_tags(start, all);
        }
        self.users = table;
    }
}

/// What the answer to a beacon command means: sent, or failed, with the
/// message shown.
pub fn command_reply(success: bool) -> (r: Result<String, String>)
    ensures
        success ==> (r matches Ok(m) && m@ == "Successfully sent command"@),
        !success ==> (r matches Err(m) && m@ == "failed to send command"@),
{
    if success {
        Ok(String::from_str("Successfully sent command"))
    } else {
        Err(String::from_str("failed to send command"))
    }
}

/// The status board's requests whose failure it reports.
#[derive(Copy, Clone, Debug, PartialEq, Eq, Structural)]
pub enum StatusOp {
    Maps,
    FloorPlan,
    Beacons,
    BeaconsStatus,
    User,
    Users,
    UsersStatus,
}

/// The message for a failed status request.
pub open spec fn status_failure_message(op: StatusOp, reason: Seq<char>) -> Seq<char> {
    match op {
        StatusOp::Maps => "failed to obtain maps list, reason: "@ + reason,
        StatusOp::FloorPlan => "failed to get map, reason: "@ + reason,
        StatusOp::Beacons => "failed to obtain beacon list, reason: "@ + reason,
        StatusOp::BeaconsStatus => "failed to get beacons status, reason: "@ + reason,
        StatusOp::User => "failed to get user, reason: "@ + reason,
        StatusOp::Users => "failed to get user list, reason: "@ + reason,
        StatusOp::UsersStatus => "failed to get user status, reason: "@ + reason,
    }
}

/// The message for a failed status request.
pub fn status_failure(op: StatusOp, reason: &str) -> (m: String)
    ensures
        m@ == status_failure_message(op, reason@),
{
    let mut m = match op {
        StatusOp::Maps => String::from_str("failed to obtain maps list, reason: "),
        StatusOp::FloorPlan => String::from_str("failed to get map, reason: "),
        StatusOp::Beacons => String::from_str("failed to obtain beacon list, reason: "),
        StatusOp::BeaconsStatus => String::from_str("failed to get beacons status, reason: "),
        StatusOp::User => String::from_str("failed to get user, reason: "),
        StatusOp::Users => String::from_str("failed to get user list, reason: "),
        StatusOp::UsersStatus => String::from_str("failed to get user status, reason: "),
    };
    m.append(reason);
    m
}

/// The status page's requests.
#[derive(Copy, Clone, Debug)]
pub enum Request {
    CommandBeacon(BeaconRequest),
    GetBeacons,
    GetBeaconsStatus,
    GetMap(i32),
    GetMaps,
    GetUser(i32),
    GetUsers,
    GetUsersStatus,
}

/// What the status page is told: a page or table to show, a request to
/// make, or the server's answer (for a command, whether it succeeded; an
/// error is the reason given).
pub enum Msg<C, P, S, T> {
    ChangeRootPage(Page),
    ChangeStatus(PageState),
    Request(Request),
    ResponseCommandBeacon(bool),
    ResponseGetBeacons(Result<Vec<Beacon<C>>, String>),
    ResponseGetBeaconsStatus(Result<Vec<RealtimeBeacon>, String>),
    ResponseGetMap(Result<FloorPlan<S>, String>),
    ResponseGetMaps(Result<Vec<FloorPlan<S>>, String>),
    ResponseGetUser(Result<TrackedUser<P>, String>),
    ResponseGetUsers(Result<Vec<TrackedUser<P>>, String>),
    ResponseGetUsersStatus(Result<Vec<RealtimeUserData<P, T>>, String>),
}

/// What the status page asks of its surroundings.
#[derive(Copy, Clone, Debug)]
pub enum Action {
    ShowPage(Page),
    /// Send the request to the server.
    Fetch(Request),
    /// Make the request next: handed back as `Msg::Request`.
    Send(Request),
    /// Show another table next: handed back as `Msg::ChangeStatus`.
    SwitchTo(PageState),
    /// From now on, ask every second for the run-time state shown in the
    /// table, and no longer for the other.
    Poll(PageState),
}

/// The status page: the board, the table shown, the kind of account and
/// the messages.
pub struct StatusPage<C, P, S> {
    pub board: StatusBoard<C, P, S>,
    pub state: PageState,
    pub user_type: WebUserType,
    pub user_msg: UserMessage,
}

/// The operation whose failure an error answer reports.
pub open spec fn failed_op<C, P, S, T>(msg: Msg<C, P, S, T>) -> StatusOp {
    match msg {
        Msg::ResponseGetBeacons(_) => StatusOp::Beacons,
        Msg::ResponseGetBeaconsStatus(_) => StatusOp::BeaconsStatus,
        Msg::ResponseGetMap(_) => StatusOp::FloorPlan,
        Msg::ResponseGetMaps(_) => StatusOp::Maps,
        Msg::ResponseGetUser(_) => StatusOp::User,
        Msg::ResponseGetUsers(_) => StatusOp::Users,
        _ => StatusOp::UsersStatus,
    }
}

impl<C, P, S> StatusPage<C, P, S> {
    /// The run-time states in the message are for the beacons and users
    /// they are filed under.
    pub open spec fn agrees<T>(self, msg: Msg<C, P, S, T>) -> bool {
        &&& msg matches Msg::ResponseGetBeaconsStatus(Ok(v)) ==> beacons_agree(self.board.beacon_table(), v@)
        &&& msg matches Msg::ResponseGetUsersStatus(Ok(v)) ==> users_agree(self.board.user_table(), v@)
    }

    /// The board is as in `old`.
    pub open spec fn same_board(self, old: Self) -> bool {
        &&& self.board.beacon_table() == old.board.beacon_table()
        &&& self.board.map_table() == old.board.map_table()
        &&& self.board.user_table() == old.board.user_table()
    }

    /// This page is `old` after taking in `msg` and asking for `actions`.
    pub open spec fn stepped<T>(self, old: Self, msg: Msg<C, P, S, T>, actions: Seq<Action>) -> bool {
        &&& self.board.consistent()
        &&& self.user_type == old.user_type
        &&& match msg {
            Msg::ChangeRootPage(p) => {
                &&& self.same_board(old) && self.state == old.state && self.user_msg == old.user_msg
                &&& actions =~= seq![Action::ShowPage(p)]
            },
            Msg::ChangeStatus(st) => {
                &&& self.same_board(old) && self.state == st && self.user_msg == old.user_msg
                &&& actions =~= seq![Action::Poll(st)]
            },
            Msg::Request(r) => {
                &&& self.same_board(old) && self.state == old.state && self.user_msg.is_clear()
                &&& actions =~= seq![Action::Fetch(r)]
            },
            Msg::ResponseCommandBeacon(ok) => {
                &&& self.same_board(old) && self.state == old.state
                &&& if ok {
                    self.user_msg.succeeded(old.user_msg, "Successfully sent command"@)
                } else {
                    self.user_msg.erred(old.user_msg, "failed to send command"@)
                }
                &&& actions.len() == 0
            },
            Msg::ResponseGetBeacons(Err(e)) | Msg::ResponseGetBeaconsStatus(Err(e)) | Msg::ResponseGetMap(Err(e))
            | Msg::ResponseGetMaps(Err(e)) | Msg::ResponseGetUser(Err(e)) | Msg::ResponseGetUsers(Err(e))
            | Msg::ResponseGetUsersStatus(Err(e)) => {
                &&& self.same_board(old) && self.state == old.state
                &&& self.user_msg.erred(old.user_msg, status_failure_message(failed_op(msg), e@))
                &&& actions.len() == 0
            },
            Msg::ResponseGetBeacons(Ok(v)) => {
                &&& self.board.beacon_table() == filed_beacons(old.board.beacon_table(), v@)
                &&& self.board.map_table() == old.board.map_table()
                &&& self.board.user_table() == old.board.user_table()
                &&& self.state == old.state && self.user_msg == old.user_msg && actions.len() == 0
            },
            Msg::ResponseGetBeaconsStatus(Ok(v)) => {
                &&& self.board.beacon_table() == merged_beacons(old.board.beacon_table(), v@)
                &&& self.board.map_table() == old.board.map_table()
                &&& self.board.user_table() == old.board.user_table()
                &&& self.state == old.state && self.user_msg == old.user_msg && actions.len() == 0
            },
            Msg::ResponseGetMap(Ok(m)) => {
                &&& self.board.map_table() == old.board.map_table().insert(m.id, m)
                &&& self.board.beacon_table() == old.board.beacon_table()
                &&& self.board.user_table() == old.board.user_table()
                &&& self.state == old.state && self.user_msg == old.user_msg && actions.len() == 0
            },
            Msg::ResponseGetMaps(Ok(v)) => {
                &&& self.board.map_table() == filed_maps(old.board.map_table(), v@)
                &&& self.board.beacon_table() == old.board.beacon_table()
                &&& self.board.user_table() == old.board.user_table()
                &&& self.state == old.state && self.user_msg == old.user_msg && actions.len() == 0
            },
            Msg::ResponseGetUser(Ok(u)) => {
                &&& self.board.user_table() == old.board.user_table().insert(u.id, u)
                &&& self.board.beacon_table() == old.board.beacon_table()
                &&& self.board.map_table() == old.board.map_table()
                &&& self.state == old.state && self.user_msg == old.user_msg && actions.len() == 0
            },
            Msg::ResponseGetUsers(Ok(v)) => {
                &&& self.board.user_table() == filed_users(old.board.user_table(), v@)
                &&& self.board.beacon_table() == old.board.beacon_table()
                &&& self.board.map_table() == old.board.map_table()
                &&& self.state == old.state && self.user_msg == old.user_msg && actions.len() == 0
            },
            Msg::ResponseGetUsersStatus(Ok(v)) => {
                &&& self.board.user_table() == merged_users(old.board.user_table(), v@)
                &&& self.board.beacon_table() == old.board.beacon_table()
                &&& self.board.map_table() == old.board.map_table()
                &&& self.state == old.state && self.user_msg == old.user_msg && actions.len() == 0
            },
        }
    }

    /// An empty page showing table `state`, which asks for the beacons,
    /// users and floor plans, and polls for the run-time state shown.
    pub fn create(state: PageState, user_type: WebUserType) -> (r: (StatusPage<C, P, S>, Vec<Action>))
        ensures
            r.0.board.beacon_table() == Map::<i32, Beacon<C>>::empty(),
            r.0.board.map_table() == Map::<i32, FloorPlan<S>>::empty(),
            r.0.board.user_table() == Map::<i32, TrackedUser<P>>::empty(),
            r.0.state == state,
            r.0.user_type == user_type,
            r.0.user_msg.is_clear(),
            r.1@ == seq![
                Action::Send(Request::GetBeacons),
                Action::Send(Request::GetUsers),
                Action::Send(Request::GetMaps),
                Action::Poll(state),
            ],
    {
        let page = StatusPage { board: StatusBoard::new(), state, user_type, user_msg: UserMessage::new() };
        let actions = vec![
            Action::Send(Request::GetBeacons),
            Action::Send(Request::GetUsers),
            Action::Send(Request::GetMaps),
            Action::Poll(state),
        ];
        (page, actions)
    }

    /// The page is shown again, perhaps asking for the other table.
    pub fn change(&self, state: PageState) -> (actions: Vec<Action>)
        ensures
            state == self.state ==> actions@.len() == 0,
            state != self.state ==> actions@ == seq![Action::SwitchTo(state)],
    {
        if state != self.state {
            vec![Action::SwitchTo(state)]
        } else {
            Vec::new()
        }
    }

    /// Takes in a message. Run-time states are for the beacons and users
    /// they are filed under: the page has no other way to go on.
    pub fn update<T>(&mut self, msg: Msg<C, P, S, T>) -> (actions: Vec<Action>)
        requires
            old(self).agrees(msg),
        ensures
            final(self).stepped(*old(self), msg, actions@),
    {
        let ghost m = msg;
        proof {
            use_type_invariant(&self.board);
        }
        match msg {
            Msg::ChangeRootPage(p) => vec![Action::ShowPage(p)],
            Msg::ChangeStatus(st) => {
                self.state = st;
                vec![Action::Poll(st)]
            },
            Msg::Request(r) => {
                self.user_msg.reset();
                vec![Action::Fetch(r)]
            },
            Msg::ResponseCommandBeacon(ok) => {
                match command_reply(ok) {
                    Ok(text) => self.user_msg.succeed(text),
                    Err(text) => self.user_msg.push_error(text),
                }
                Vec::new()
            },
            Msg::ResponseGetBeacons(Ok(v)) => {
                self.board.beacons_loaded(v);
                Vec::new()
            },
            Msg::ResponseGetBeaconsStatus(Ok(v)) => {
                self.board.beacons_status(v);
                Vec::new()
            },
            Msg::ResponseGetMap(Ok(map)) => {
                self.board.map_loaded(map);
                Vec::new()
            },
            Msg::ResponseGetMaps(Ok(v)) => {
                self.board.maps_loaded(v);
                Vec::new()
            },
            Msg::ResponseGetUser(Ok(u)) => {
                self.board.user_loaded(u);
                Vec::new()
            },
            Msg::ResponseGetUsers(Ok(v)) => {
                self.board.users_loaded(v);
                Vec::new()
            },
            Msg::ResponseGetUsersStatus(Ok(v)) => {
                self.board.users_status(v);
                Vec::new()
            },
            Msg::ResponseGetBeacons(Err(e)) => {
                self.user_msg.push_error(status_failure(StatusOp::Beacons, e.as_str()));
                Vec::new()
            },
            Msg::ResponseGetBeaconsStatus(Err(e)) => {
                self.user_msg.push_error(status_failure(StatusOp::BeaconsStatus, e.as_str()));
                Vec::new()
            },
            Msg::ResponseGetMap(Err(e)) => {
                self.user_msg.push_error(status_failure(StatusOp::FloorPlan, e.as_str()));
                Vec::new()
            },
            Msg::ResponseGetMaps(Err(e)) => {
                self.user_msg.push_error(status_failure(StatusOp::Maps, e.as_str()));
                Vec::new()
            },
            Msg::ResponseGetUser(Err(e)) => {
                self.user_msg.push_error(status_failure(StatusOp::User, e.as_str()));
                Vec::new()
            },
            Msg::ResponseGetUsers(Err(e)) => {
                self.user_msg.push_error(status_failure(StatusOp::Users, e.as_str()));
                Vec::new()
            },
            Msg::ResponseGetUsersStatus(Err(e)) => {
                self.user_msg.push_error(status_failure(StatusOp::UsersStatus, e.as_str()));
                Vec::new()
            },
        }
    }
}

} // verus!
