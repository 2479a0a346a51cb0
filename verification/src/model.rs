use vstd::prelude::*;
use crate::address::{MacAddress8, ShortAddress};
use crate::network::IpAddress;
use crate::state::BeaconState;

verus! {

/// The reply of the server to a request for the emergency state.
pub struct HelloFrontEnd {
    pub data: u32,
}

/// Whether the system is in an emergency; both a request to start or end
/// one and the answer to a query.
#[derive(Copy, Clone, Debug)]
pub struct SystemCommandResponse {
    pub emergency: bool,
}

impl SystemCommandResponse {
    pub fn new(emergency: bool) -> (r: SystemCommandResponse)
        ensures
            r.emergency == emergency,
    {
        SystemCommandResponse { emergency }
    }
}

/// One distance measurement between a beacon and a tag. The distance is
/// carried as it was measured; the library does not read it.
#[derive(Copy, Clone, Debug)]
pub struct TagData<D> {
    pub beacon_mac: MacAddress8,
    pub tag_distance: D,
    pub tag_mac: ShortAddress,
    /// Nanoseconds since the Unix epoch.
    pub timestamp: i64,
}

/// A request from the user interface to the beacons: one beacon where an
/// address is given, all beacons otherwise.
#[derive(Copy, Clone, Debug)]
pub enum BeaconRequest {
    StartEmergency(Option<MacAddress8>),
    EndEmergency(Option<MacAddress8>),
    Ping(Option<MacAddress8>),
    Reboot(Option<MacAddress8>),
}

impl Default for BeaconRequest {
    fn default() -> (r: BeaconRequest)
        ensures
            r == BeaconRequest::Ping(None),
    {
        BeaconRequest::Ping(None)
    }
}

/// What the beacon manager knows of a beacon at run time.
#[derive(Copy, Clone, Debug)]
pub struct RealtimeBeacon {
    /// The database key, `-1` for a beacon not stored.
    pub id: i32,
    pub ip: IpAddress,
    /// Nanoseconds since the Unix epoch.
    pub last_active: i64,
    pub mac_address: MacAddress8,
    pub state: BeaconState,
}

impl RealtimeBeacon {
    /// A beacon never seen: key `-1`, address `0.0.0.0`, last active at the
    /// epoch, all-zero hardware address, state unknown.
    pub fn new() -> (r: RealtimeBeacon)
        ensures
            r.id == -1,
            r.ip == IpAddress::V4(0),
            r.last_active == 0,
            forall|i: int| 0 <= i < 8 ==> r.mac_address.eui@[i] == 0,
            r.state == BeaconState::Unknown,
    {
        RealtimeBeacon {
            id: -1,
            ip: IpAddress::V4(0),
            last_active: 0,
            mac_address: MacAddress8::nil(),
            state: BeaconState::Unknown,
        }
    }
}

/// A user name and password.
pub struct LoginInfo {
    pub name: String,
    pub pw: String,
}

impl LoginInfo {
    pub fn new() -> (r: LoginInfo)
        ensures
            r.name@ == Seq::<char>::empty(),
            r.pw@ == Seq::<char>::empty(),
    {
        LoginInfo { name: String::new(), pw: String::new() }
    }

    /// Forgets the password, keeping the name.
    pub fn reset_pw(&mut self)
        ensures
            final(self).pw@ == Seq::<char>::empty(),
            final(self).name == old(self).name,
    {
        self.pw = String::new();
    }
}

/// The kind of account logged in to the web interface.
#[derive(Clone, Copy, PartialEq, Eq, Debug, Structural)]
pub enum WebUserType {
    Admin,
    Responder,
}

/// Which of the two people edited together a form field belongs to: the
/// tracked user or their emergency contact.
#[derive(Copy, Clone, PartialEq, Eq, Debug, Structural)]
pub enum UserType {
    Normal,
    Contact,
}

/// The properties of the page that adds a beacon; it takes none.
#[derive(Clone, Default, PartialEq, Debug)]
pub struct BeaconAddProps {}

/// The properties of the page that updates a beacon; it takes none.
#[derive(Clone, Default, PartialEq, Debug)]
pub struct BeaconUpdateProps {}

/// The measurements kept for diagnostics.
#[derive(Clone, Debug)]
pub struct DiagnosticData<D> {
    pub tag_data: Vec<TagData<D>>,
}

impl<D> DiagnosticData<D> {
    /// No measurement.
    pub fn new() -> (r: DiagnosticData<D>)
        ensures
            r.tag_data@ == Seq::<TagData<D>>::empty(),
    {
        DiagnosticData { tag_data: Vec::new() }
    }
}

/// A beacon as stored; `C` is the type of its position on its map.
#[derive(Clone, Debug)]
pub struct Beacon<C> {
    pub coordinates: C,
    /// The database key, `-1` for a beacon not stored.
    pub id: i32,
    pub ip: IpAddress,
    /// Nanoseconds since the Unix epoch.
    pub last_active: i64,
    pub mac_address: MacAddress8,
    pub map_id: Option<i32>,
    pub name: String,
    pub note: Option<String>,
    pub state: BeaconState,
}

impl<C> Beacon<C> {
    /// A beacon not stored yet, at position `origin`: key `-1`, address
    /// `0.0.0.0`, last active at the epoch, all-zero hardware address, on
    /// no map, no name, no note, state unknown.
    pub fn new(origin: C) -> (b: Beacon<C>)
        ensures
            b.coordinates == origin,
            b.id == -1,
            b.ip == IpAddress::V4(0),
            b.last_active == 0,
            forall|i: int| 0 <= i < 8 ==> b.mac_address.eui@[i] == 0,
            b.map_id is None,
            b.name@ == Seq::<char>::empty(),
            b.note is None,
            b.state == BeaconState::Unknown,
    {
        Beacon {
            coordinates: origin,
            id: -1,
            ip: IpAddress::V4(0),
            last_active: 0,
            mac_address: MacAddress8::nil(),
            map_id: None,
            name: String::new(),
            note: None,
            state: BeaconState::Unknown,
        }
    }

    /// Takes over what the beacon manager learned of this beacon at run
    /// time: when it was last active and its state.
    pub fn merge(&mut self, rt: RealtimeBeacon)
        requires
            old(self).id == rt.id,
            old(self).mac_address.eui@ == rt.mac_address.eui@,
        ensures
            *final(self) == (Beacon { last_active: rt.last_active, state: rt.state, ..*old(self) }),
    {
        self.last_active = rt.last_active;
        self.state = rt.state;
    }
}

/// What the beacon manager starts from for a stored beacon.
pub open spec fn realtime_of<C>(b: Beacon<C>) -> RealtimeBeacon {
    RealtimeBeacon { id: b.id, ip: b.ip, last_active: b.last_active, mac_address: b.mac_address, state: b.state }
}

impl<C> From<Beacon<C>> for RealtimeBeacon {
    fn from(b: Beacon<C>) -> (r: RealtimeBeacon) {
        RealtimeBeacon { id: b.id, ip: b.ip, last_active: b.last_active, mac_address: b.mac_address, state: b.state }
    }
}

impl<C> vstd::std_specs::convert::FromSpecImpl<Beacon<C>> for RealtimeBeacon {
    open spec fn obeys_from_spec() -> bool {
        true
    }

    open spec fn from_spec(b: Beacon<C>) -> RealtimeBeacon {
        realtime_of(b)
    }
}

/// A person wearing a tag, or the emergency contact of one; `P` is the
/// type of a position on a map.
#[derive(Clone, Debug)]
pub struct TrackedUser<P> {
    /// The database key, `-1` for a user not stored.
    pub id: i32,
    pub coordinates: P,
    /// For an emergency contact, the user it belongs to.
    pub attached_user: Option<i32>,
    pub employee_id: Option<String>,
    /// Nanoseconds since the Unix epoch.
    pub last_active: i64,
    pub mac_address: Option<ShortAddress>,
    pub map_id: Option<i32>,
    pub name: String,
    pub note: Option<String>,
    pub work_phone: Option<String>,
    pub mobile_phone: Option<String>,
}

/// What is known of a tracked user at run time; `P` is the type of a
/// position, `T` that of what is kept of each beacon that located them.
#[derive(Clone, Debug)]
pub struct RealtimeUserData<P, T> {
    pub id: i32,
    pub addr: ShortAddress,
    pub coordinates: P,
    /// Nanoseconds since the Unix epoch.
    pub last_active: i64,
    pub map_id: Option<i32>,
    pub beacon_tofs: Vec<T>,
}

/// A user as made for a new record, at position `origin`, whatever its
/// name: key `-1`, attached to no one, no employee number, last active at
/// the epoch, no tag, on no map, no note, no phone numbers.
pub open spec fn fresh_user<P>(u: TrackedUser<P>, origin: P) -> bool {
    &&& u.id == -1
    &&& u.coordinates == origin
    &&& u.attached_user is None
    &&& u.employee_id is None
    &&& u.last_active == 0
    &&& u.mac_address is None
    &&& u.map_id is None
    &&& u.note is None
    &&& u.work_phone is None
    &&& u.mobile_phone is None
}

impl<P> TrackedUser<P> {
    /// A user not stored yet, at position `origin`, with no name.
    pub fn new(origin: P) -> (u: TrackedUser<P>)
        ensures
            fresh_user(u, origin),
            u.name@ == Seq::<char>::empty(),
    {
        TrackedUser {
            id: -1,
            coordinates: origin,
            attached_user: None,
            employee_id: None,
            last_active: 0,
            mac_address: None,
            map_id: None,
            name: String::new(),
            note: None,
            work_phone: None,
            mobile_phone: None,
        }
    }

    /// Takes over where the user was located and when, and hands back what
    /// was kept of the beacons that located them.
    pub fn merge<T>(&mut self, rt: RealtimeUserData<P, T>) -> (tofs: Vec<T>)
        requires
            old(self).id == rt.id,
            old(self).mac_address matches Some(a) && a.addr@ == rt.addr.addr@,
        ensures
            *final(self) == (TrackedUser { coordinates: rt.coordinates, last_active: rt.last_active, map_id: rt.map_id, ..*old(self) }),
            tofs@ == rt.beacon_tofs@,
    {
        self.coordinates = rt.coordinates;
        self.last_active = rt.last_active;
        self.map_id = rt.map_id;
        rt.beacon_tofs
    }
}

impl<P, T> RealtimeUserData<P, T> {
    /// The run-time record of a user who wears a tag, with no beacon yet.
    pub fn from_tracked(user: TrackedUser<P>) -> (r: RealtimeUserData<P, T>)
        requires
            user.mac_address is Some,
        ensures
            r.id == user.id,
            r.addr == user.mac_address->Some_0,
            r.coordinates == user.coordinates,
            r.last_active == user.last_active,
            r.map_id == user.map_id,
            r.beacon_tofs@ == Seq::<T>::empty(),
    {
        let addr = match user.mac_address {
            Some(a) => a,
            None => ShortAddress::nil(),
        };
        RealtimeUserData {
            id: user.id,
            addr,
            coordinates: user.coordinates,
            last_active: user.last_active,
            map_id: user.map_id,
            beacon_tofs: Vec::new(),
        }
    }
}

/// A floor plan; `S` is the type of its scale.
#[derive(Clone, Debug)]
pub struct FloorPlan<S> {
    /// The database key, `-1` for a map not stored.
    pub id: i32,
    /// The image of the floor plan.
    pub blueprint: Vec<u8>,
    /// The size of the image, in pixels.
    pub bounds: [i32; 2],
    pub name: String,
    pub note: Option<String>,
    /// Pixels per metre.
    pub scale: S,
}

impl<S> FloorPlan<S> {
    /// A map not stored yet, of scale `unit_scale`: key `-1`, no image, no
    /// size, no name, no note.
    pub fn new(unit_scale: S) -> (m: FloorPlan<S>)
        ensures
            m.id == -1,
            m.blueprint@ == Seq::<u8>::empty(),
            m.bounds@ == seq![0i32, 0i32],
            m.name@ == Seq::<char>::empty(),
            m.note is None,
            m.scale == unit_scale,
    {
        let m = FloorPlan { id: -1, blueprint: Vec::new(), bounds: [0i32, 0i32], name: String::new(), note: None, scale: unit_scale };
        assert(m.bounds@ =~= seq![0i32, 0i32]);
        m
    }

    /// The two plans hold the same key, image, size, name, note and scale.
    pub open spec fn same_as(self, other: FloorPlan<S>) -> bool {
        &&& self.id == other.id
        &&& self.blueprint@ == other.blueprint@
        &&& self.bounds == other.bounds
        &&& self.name@ == other.name@
        &&& self.note == other.note
        &&& self.scale == other.scale
    }
}

impl<S: Copy> FloorPlan<S> {
    /// A copy of the plan.
    pub fn copy(&self) -> (r: FloorPlan<S>)
        ensures
            r.same_as(*self),
    {
        let mut blueprint: Vec<u8> = Vec::new();
        let mut i: usize = 0;
        while i < self.blueprint.len()
            invariant
                i <= self.blueprint.len(),
                blueprint@ == self.blueprint@.take(i as int),
            decreases self.blueprint.len() - i,
        {
            blueprint.push(self.blueprint[i]);
            i = i + 1;
            assert(blueprint@ =~= self.blueprint@.take(i as int));
        }
        assert(blueprint@ =~= self.blueprint@);
        let note = match &self.note {
            Some(n) => Some(n.clone()),
            None => None,
        };
        FloorPlan {
            id: self.id,
            blueprint,
            bounds: self.bounds,
            name: self.name.clone(),
            note,
            scale: self.scale,
        }
    }
}

} // verus!
