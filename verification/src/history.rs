//! Location bookkeeping: the last distances measured between each tracked
//! tag and each beacon, and the matching of averaged distances to the
//! beacons placed on a map. The arithmetic on distances (averaging and
//! trilateration) is left to the caller, who knows their type.

use vstd::prelude::*;
use std::collections::{BTreeMap, VecDeque};
use crate::address::{MacAddress8, ShortAddress, mac_key};
use crate::maps::{map_keys, map_keys_u16};
use crate::model::TagData;

verus! {

broadcast use {vstd::std_specs::btree::group_btree_axioms, vstd::laws_cmp::group_laws_cmp};

/// How many distances are kept per tag and beacon.
pub const LOCATION_HISTORY_SIZE: usize = 5;

/// A beacon as placed by the database: its address and the map it is on.
#[derive(Copy, Clone, Debug)]
pub struct BeaconSite {
    pub mac: MacAddress8,
    pub map_id: Option<i32>,
}

/// What matching averaged distances to the beacons gave.
#[derive(Clone, Debug)]
pub enum Placement<A> {
    /// A beacon is on no map, so a location would mean nothing.
    NotOnMap,
    /// Fewer than three beacons were found.
    TooFewBeacons,
    /// Fewer than three distances were given.
    TooFewReadings,
    /// Some beacon has no distance: the distances are out of date.
    Stale,
    /// The distances in the order of the beacons, the latest of their
    /// times, and the map of the first beacon.
    Ready { readings: Vec<TagData<A>>, timestamp: i64, map_id: Option<i32> },
}

/// The position of the first distance measured through beacon `mac`.
pub open spec fn first_with<A>(s: Seq<TagData<A>>, mac: MacAddress8) -> Option<int>
    decreases s.len(),
{
    if s.len() == 0 {
        None
    } else if s[0].beacon_mac.eui@ == mac.eui@ {
        Some(0)
    } else {
        match first_with(s.drop_first(), mac) {
            Some(i) => Some(i + 1),
            None => None,
        }
    }
}

/// `s` after `Vec::swap_remove(i)`: the last element takes the place of
/// the `i`-th.
pub open spec fn swap_removed<A>(s: Seq<A>, i: int) -> Seq<A> {
    s.update(i, s.last()).drop_last()
}

/// For each beacon in turn, the first distance still available that was
/// measured through it, which is then no longer available.
pub open spec fn matched<A>(bs: Seq<BeaconSite>, avail: Seq<TagData<A>>) -> Seq<TagData<A>>
    decreases bs.len(),
{
    if bs.len() == 0 {
        Seq::empty()
    } else {
        match first_with(avail, bs[0].mac) {
            Some(i) => seq![avail[i]] + matched(bs.drop_first(), swap_removed(avail, i)),
            None => matched(bs.drop_first(), avail),
        }
    }
}

/// The latest time among the measurements, the epoch if there is none
/// later.
pub open spec fn latest<A>(s: Seq<TagData<A>>) -> i64
    decreases s.len(),
{
    if s.len() == 0 {
        0
    } else {
        let m = latest(s.drop_last());
        if m < s.last().timestamp {
            s.last().timestamp
        } else {
            m
        }
    }
}

/// Every beacon is on a map.
pub open spec fn all_on_map(bs: Seq<BeaconSite>) -> bool {
    forall|i: int| 0 <= i < bs.len() ==> (#[trigger] bs[i]).map_id is Some
}

proof fn lemma_first_with_step<A>(s: Seq<TagData<A>>, mac: MacAddress8, i: int)
    requires
        0 <= i < s.len(),
        forall|j: int| 0 <= j < i ==> (#[trigger] s[j]).beacon_mac.eui@ != mac.eui@,
    ensures
        s[i].beacon_mac.eui@ == mac.eui@ ==> first_with(s, mac) == Some(i),
    decreases i,
{
    if i > 0 {
        assert forall|j: int| 0 <= j < i - 1 implies (#[trigger] s.drop_first()[j]).beacon_mac.eui@ != mac.eui@ by {
            assert(s.drop_first()[j] == s[j + 1]);
        }
        lemma_first_with_step(s.drop_first(), mac, i - 1);
    }
}

proof fn lemma_first_with_none<A>(s: Seq<TagData<A>>, mac: MacAddress8)
    requires
        forall|j: int| 0 <= j < s.len() ==> (#[trigger] s[j]).beacon_mac.eui@ != mac.eui@,
    ensures
        first_with(s, mac) is None,
    decreases s.len(),
{
    if s.len() > 0 {
        assert forall|j: int| 0 <= j < s.len() - 1 implies (#[trigger] s.drop_first()[j]).beacon_mac.eui@ != mac.eui@ by {
            assert(s.drop_first()[j] == s[j + 1]);
        }
        lemma_first_with_none(s.drop_first(), mac);
    }
}

/// Whether two addresses are the same.
fn same_mac(a: &MacAddress8, b: &MacAddress8) -> (r: bool)
    ensures
        r == (a.eui@ == b.eui@),
{
    let mut i: usize = 0;
    while i < 8
        invariant
            i <= 8,
            forall|j: int| 0 <= j < i ==> a.eui@[j] == b.eui@[j],
        decreases 8 - i,
    {
        if a.eui[i] != b.eui[i] {
            return false;
        }
        i = i + 1;
    }
    assert(a.eui@ =~= b.eui@);
    true
}

/// Finds the first distance measured through a beacon.
fn find_reading<A>(s: &Vec<TagData<A>>, mac: &MacAddress8) -> (r: Option<usize>)
    ensures
        match r {
            Some(i) => first_with(s@, *mac) == Some(i as int) && i < s@.len(),
            None => first_with(s@, *mac) is None,
        },
{
    let mut i: usize = 0;
    while i < s.len()
        invariant
            i <= s@.len(),
            forall|j: int| 0 <= j < i ==> (#[trigger] s@[j]).beacon_mac.eui@ != mac.eui@,
        decreases s.len() - i,
    {
        proof {
            lemma_first_with_step(s@, *mac, i as int);
        }
        if same_mac(&s[i].beacon_mac, mac) {
            return Some(i);
        }
        i = i + 1;
    }
    proof {
        lemma_first_with_none(s@, *mac);
    }
    None
}

/// Matches averaged distances to the beacons found for them, in the order
/// of the beacons. A beacon on no map ends the matching; so do fewer than
/// three beacons or distances, or a beacon left without a distance, after
/// which the caller forgets all tags (the distances are taken to be out of
/// date).
pub fn place_readings<A: Copy>(beacons: &Vec<BeaconSite>, readings: Vec<TagData<A>>) -> (r: Placement<A>)
    ensures
        !all_on_map(beacons@) ==> r is NotOnMap,
        all_on_map(beacons@) && beacons@.len() < 3 ==> r is TooFewBeacons,
        all_on_map(beacons@) && beacons@.len() >= 3 && readings@.len() < 3 ==> r is TooFewReadings,
        all_on_map(beacons@) && beacons@.len() >= 3 && readings@.len() >= 3 ==> {
            let m = matched(beacons@, readings@);
            if m.len() != beacons@.len() {
                r is Stale
            } else {
                &&& r matches Placement::Ready { readings: v, timestamp, map_id }
                &&& v@ == m
                &&& timestamp == latest(m)
                &&& map_id == beacons@[0].map_id
            }
        },
{
    let mut i: usize = 0;
    while i < beacons.len()
        invariant
            i <= beacons@.len(),
            forall|j: int| 0 <= j < i ==> (#[trigger] beacons@[j]).map_id is Some,
        decreases beacons.len() - i,
    {
        if beacons[i].map_id.is_none() {
            return Placement::NotOnMap;
        }
        i = i + 1;
    }
    if beacons.len() < 3 {
        return Placement::TooFewBeacons;
    }
    if readings.len() < 3 {
        return Placement::TooFewReadings;
    }
    let ghost all = readings@;
    let mut avail = readings;
    let mut sorted: Vec<TagData<A>> = Vec::new();
    let mut b: usize = 0;
    assert(beacons@.skip(0) =~= beacons@);
    assert(sorted@ + matched(beacons@, avail@) =~= matched(beacons@, all));
    while b < beacons.len()
        invariant
            b <= beacons@.len(),
            sorted@ + matched(beacons@.skip(b as int), avail@) == matched(beacons@, all),
        decreases beacons.len() - b,
    {
        let ghost rest = beacons@.skip(b as int);
        assert(rest.drop_first() =~= beacons@.skip(b as int + 1));
        assert(rest[0] == beacons@[b as int]);
        match find_reading(&avail, &beacons[b].mac) {
            Some(i) => {
                let ghost before = avail@;
                assert(matched(rest, before) == seq![before[i as int]] + matched(rest.drop_first(), swap_removed(before, i as int)));
                let t = avail.swap_remove(i);
                assert(sorted@.push(t) + matched(beacons@.skip(b as int + 1), avail@) =~= sorted@ + (seq![before[i as int]] + matched(rest.drop_first(), swap_removed(before, i as int))));
                sorted.push(t);
            },
            None => {
                assert(matched(rest, avail@) == matched(rest.drop_first(), avail@));
            },
        }
        b = b + 1;
    }
    assert(beacons@.skip(beacons@.len() as int) =~= Seq::<BeaconSite>::empty());
    assert(sorted@ =~= matched(beacons@, all));
    if sorted.len() != beacons.len() {
        return Placement::Stale;
    }
    let mut timestamp: i64 = 0;
    let mut k: usize = 0;
    while k < sorted.len()
        invariant
            k <= sorted@.len(),
            timestamp == latest(sorted@.take(k as int)),
        decreases sorted.len() - k,
    {
        assert(sorted@.take(k as int + 1).drop_last() =~= sorted@.take(k as int));
        if timestamp < sorted[k].timestamp {
            timestamp = sorted[k].timestamp;
        }
        k = k + 1;
    }
    assert(sorted@.take(sorted@.len() as int) =~= sorted@);
    let map_id = beacons[0].map_id;
    Placement::Ready { readings: sorted, timestamp, map_id }
}

/// The last distances measured between a tag and one beacon, oldest
/// first.
pub struct BeaconWindow<D> {
    pub beacon: MacAddress8,
    pub distances: VecDeque<D>,
}

/// What is kept of a tracked tag: its user, when it was last heard of, and
/// the distances measured to it, per beacon (filed under the beacon's
/// address read as a number).
pub struct TagHistory<D, U> {
    pub user: U,
    /// Nanoseconds since the Unix epoch.
    pub last_active: i64,
    pub beacon_history: BTreeMap<u64, BeaconWindow<D>>,
}

/// The distances of one beacon handed out for locating a tag.
#[derive(Clone, Debug)]
pub struct BeaconReadings<D> {
    pub beacon: MacAddress8,
    /// Oldest first.
    pub distances: Vec<D>,
    /// When the tag was last heard of.
    pub timestamp: i64,
}

/// What became of a distance measurement.
#[derive(Clone, Debug)]
pub enum RecordOutcome<D> {
    /// The tag is not tracked yet: the caller looks up the user who wears
    /// it and reports back through `DataProcessor::user_found`.
    LookUpUser(ShortAddress),
    /// Kept; fewer than three beacons have measured the tag.
    Recorded,
    /// Kept; the distances of every beacon that measured the tag, which
    /// are at least three, to locate it from.
    Locate(Vec<BeaconReadings<D>>),
}

/// A short address read as a big-endian number; the tags are filed under
/// it.
pub open spec fn short_key(a: ShortAddress) -> u16 {
    (a.addr@[0] * 256 + a.addr@[1]) as u16
}

fn short_key_of(a: &ShortAddress) -> (k: u16)
    ensures
        k == short_key(*a),
{
    (a.addr[0] as u16) * 256 + (a.addr[1] as u16)
}

/// A window after one more distance: the new one at the end, the oldest
/// dropped where there would be more than the history size.
pub open spec fn pushed<D>(w: Seq<D>, d: D) -> Seq<D> {
    if w.len() >= LOCATION_HISTORY_SIZE {
        w.push(d).drop_first()
    } else {
        w.push(d)
    }
}

/// Each window is filed under its beacon and holds one to five distances.
pub open spec fn well_kept<D>(m: Map<u64, BeaconWindow<D>>) -> bool {
    forall|j: u64| #[trigger] m.contains_key(j) ==> {
        &&& mac_key(m[j].beacon) == j
        &&& 1 <= m[j].distances@.len() <= LOCATION_HISTORY_SIZE
    }
}

/// `w` is the windows `m` after distance `d` was measured through
/// `beacon`: that beacon's window has it appended, or is opened with it.
pub open spec fn windows_after<D>(m: Map<u64, BeaconWindow<D>>, beacon: MacAddress8, d: D, w: Map<u64, BeaconWindow<D>>) -> bool {
    let j = mac_key(beacon);
    &&& w.dom() == m.dom().insert(j)
    &&& forall|i: u64| #[trigger] m.contains_key(i) && i != j ==> w[i] == m[i]
    &&& if m.contains_key(j) {
        &&& w[j].beacon == m[j].beacon
        &&& w[j].distances@ == pushed(m[j].distances@, d)
    } else {
        &&& w[j].beacon == beacon
        &&& w[j].distances@ == seq![d]
    }
}

/// `v` lists each window of `m` once, in the increasing order of the
/// beacons' numbers, stamped with time `t`.
pub open spec fn lists_windows<D>(v: Seq<BeaconReadings<D>>, m: Map<u64, BeaconWindow<D>>, t: i64) -> bool {
    &&& forall|i: int| 0 <= i < v.len() ==> {
        let j = mac_key(#[trigger] v[i].beacon);
        &&& m.contains_key(j)
        &&& m[j].beacon == v[i].beacon
        &&& v[i].distances@ == m[j].distances@
        &&& v[i].timestamp == t
    }
    &&& forall|j: u64| #[trigger] m.contains_key(j) ==> exists|i: int| 0 <= i < v.len() && mac_key(#[trigger] v[i].beacon) == j
    &&& forall|i: int, i2: int| 0 <= i < i2 < v.len() ==> mac_key(#[trigger] v[i].beacon) < mac_key(#[trigger] v[i2].beacon)
}

/// Copies a window's distances, oldest first.
fn window_distances<D: Copy>(w: &VecDeque<D>) -> (v: Vec<D>)
    ensures
        v@ == w@,
{
    let mut v: Vec<D> = Vec::new();
    let mut i: usize = 0;
    while i < w.len()
        invariant
            i <= w@.len(),
            v@ == w@.take(i as int),
        decreases w.len() - i,
    {
        v.push(w[i]);
        i = i + 1;
        assert(v@ =~= w@.take(i as int));
    }
    assert(w@.take(w@.len() as int) =~= w@);
    v
}

/// Hands out every window of a tag, stamped with time `t`.
fn list_windows<D: Copy>(m: &BTreeMap<u64, BeaconWindow<D>>, t: i64) -> (v: Vec<BeaconReadings<D>>)
    requires
        well_kept(m@),
    ensures
        lists_windows(v@, m@, t),
{
    let ks = map_keys(m);
    let mut v: Vec<BeaconReadings<D>> = Vec::new();
    let mut i: usize = 0;
    while i < ks.len()
        invariant
            well_kept(m@),
            i <= ks@.len(),
            ks@.to_set() == m@.dom(),
            ks@.no_duplicates(),
            v@.len() == i,
            forall|a: int| 0 <= a < i ==> mac_key(#[trigger] v@[a].beacon) == ks@[a],
            forall|a: int| 0 <= a < i ==> {
                let j = mac_key(#[trigger] v@[a].beacon);
                &&& m@.contains_key(j)
                &&& m@[j].beacon == v@[a].beacon
                &&& v@[a].distances@ == m@[j].distances@
                &&& v@[a].timestamp == t
            },
        decreases ks.len() - i,
    {
        let k = ks[i];
        assert(ks@.to_set().contains(k));
        let w = m.get(&k).unwrap();
        let entry = BeaconReadings { beacon: w.beacon, distances: window_distances(&w.distances), timestamp: t };
        v.push(entry);
        i = i + 1;
    }
    proof {
        assert forall|j: u64| #[trigger] m@.contains_key(j) implies exists|a: int| 0 <= a < v@.len() && mac_key(#[trigger] v@[a].beacon) == j by {
            assert(ks@.to_set().contains(j));
            let a = choose|a: int| 0 <= a < ks@.len() && ks@[a] == j;
            assert(mac_key(v@[a].beacon) == j);
        }
        assert forall|a: int, a2: int| 0 <= a < a2 < v@.len() implies mac_key(#[trigger] v@[a].beacon) < mac_key(#[trigger] v@[a2].beacon) by {
            assert(ks@[a] < ks@[a2]);
        }
    }
    v
}

/// The tags being tracked and what is known of each. Every operation keeps
/// each tag's windows filed under their beacons, with one to five
/// distances each.
pub struct DataProcessor<D, U> {
    users: BTreeMap<u16, TagHistory<D, U>>,
}

impl<D, U> DataProcessor<D, U> {
    /// The tracked tags, filed under their short addresses read as numbers.
    pub closed spec fn tags(self) -> Map<u16, TagHistory<D, U>> {
        self.users@
    }

    /// What every operation keeps.
    pub open spec fn consistent(self) -> bool {
        forall|k: u16| #[trigger] self.tags().contains_key(k) ==> well_kept(self.tags()[k].beacon_history@)
    }

    #[verifier::type_invariant]
    closed spec fn inv(self) -> bool {
        self.consistent()
    }

    /// No tag is tracked.
    pub fn new() -> (r: DataProcessor<D, U>)
        ensures
            r.tags() == Map::<u16, TagHistory<D, U>>::empty(),
            r.consistent(),
    {
        DataProcessor { users: BTreeMap::new() }
    }

    /// Forgets every tag.
    pub fn clear(&mut self)
        ensures
            final(self).tags() == Map::<u16, TagHistory<D, U>>::empty(),
            final(self).consistent(),
    {
        let mut empty: BTreeMap<u16, TagHistory<D, U>> = BTreeMap::new();
        std::mem::swap(&mut empty, &mut self.users);
    }

    /// The user wearing a tag, if it is tracked.
    pub fn user(&self, tag: &ShortAddress) -> (r: Option<&U>)
        ensures
            match r {
                Some(u) => self.tags().contains_key(short_key(*tag)) && *u == self.tags()[short_key(*tag)].user,
                None => !self.tags().contains_key(short_key(*tag)),
            },
    {
        let k = short_key_of(tag);
        match self.users.get(&k) {
            Some(h) => Some(&h.user),
            None => None,
        }
    }
}

/// The windows after one more distance.
fn add_distance<D>(m: &mut BTreeMap<u64, BeaconWindow<D>>, beacon: MacAddress8, d: D)
    requires
        well_kept(old(m)@),
    ensures
        well_kept(final(m)@),
        windows_after(old(m)@, beacon, d, final(m)@),
{
    let j = beacon.key();
    let ghost start = m@;
    match m.remove(&j) {
        Some(mut w) => {
            w.distances.push_back(d);
            if w.distances.len() > LOCATION_HISTORY_SIZE {
                w.distances.pop_front();
            }
            assert(w.distances@ =~= pushed(start[j].distances@, d));
            m.insert(j, w);
        },
        None => {
            let mut dq: VecDeque<D> = VecDeque::new();
            dq.push_back(d);
            assert(dq@ =~= seq![d]);
            m.insert(j, BeaconWindow { beacon, distances: dq });
        },
    }
    assert(m@.dom() =~= start.dom().insert(j));
}

impl<D: Copy, U> DataProcessor<D, U> {
    /// Keeps a distance measurement. For a tracked tag the distance joins
    /// the window of its beacon and the tag counts as heard of at the
    /// measurement's time; once three beacons or more have measured the
    /// tag, their windows are handed out to locate it from. An untracked
    /// tag is left to the caller to look up.
    pub fn record(&mut self, reading: TagData<D>) -> (r: RecordOutcome<D>)
        ensures
            final(self).consistent(),
            ({
                let k = short_key(reading.tag_mac);
                let before = old(self).tags();
                let after = final(self).tags();
                if !before.contains_key(k) {
                    &&& after == before
                    &&& r == RecordOutcome::<D>::LookUpUser(reading.tag_mac)
                } else {
                    let h = after[k];
                    &&& after.dom() == before.dom()
                    &&& forall|t: u16| #[trigger] before.contains_key(t) && t != k ==> after[t] == before[t]
                    &&& h.user == before[k].user
                    &&& h.last_active == reading.timestamp
                    &&& windows_after(before[k].beacon_history@, reading.beacon_mac, reading.tag_distance, h.beacon_history@)
                    &&& if h.beacon_history@.dom().len() >= 3 {
                        r matches RecordOutcome::Locate(v) && lists_windows(v@, h.beacon_history@, reading.timestamp)
                    } else {
                        r == RecordOutcome::<D>::Recorded
                    }
                }
            }),
    {
        proof {
            use_type_invariant(&*self);
        }
        let k = short_key_of(&reading.tag_mac);
        let ghost before = self.tags();
        assert(forall|x: u16| #[trigger] before.contains_key(x) ==> well_kept(before[x].beacon_history@));
        let mut users: BTreeMap<u16, TagHistory<D, U>> = BTreeMap::new();
        std::mem::swap(&mut users, &mut self.users);
        match users.remove(&k) {
            None => {
                assert(users@ =~= before);
                self.users = users;
                RecordOutcome::LookUpUser(reading.tag_mac)
            },
            Some(mut hist) => {
                assert(before.contains_key(k));
                add_distance(&mut hist.beacon_history, reading.beacon_mac, reading.tag_distance);
                hist.last_active = reading.timestamp;
                let out = if hist.beacon_history.len() >= 3 {
                    RecordOutcome::Locate(list_windows(&hist.beacon_history, reading.timestamp))
                } else {
                    RecordOutcome::Recorded
                };
                users.insert(k, hist);
                assert(users@.dom() =~= before.dom());
                assert(forall|x: u16| #[trigger] users@.contains_key(x) ==> well_kept(users@[x].beacon_history@));
                self.users = users;
                out
            },
        }
    }

    /// Starts tracking a tag after its user was looked up: where a user
    /// was found, the tag is filed with that user, the time the user was
    /// last active, and a window holding the measurement's distance.
    /// Nothing changes where no user was found.
    pub fn user_found(&mut self, reading: TagData<D>, found: Option<(U, i64)>)
        ensures
            final(self).consistent(),
            match found {
                None => final(self).tags() == old(self).tags(),
                Some((u, t)) => {
                    let k = short_key(reading.tag_mac);
                    let j = mac_key(reading.beacon_mac);
                    let h = final(self).tags()[k];
                    &&& final(self).tags().dom() == old(self).tags().dom().insert(k)
                    &&& forall|x: u16| #[trigger] old(self).tags().contains_key(x) && x != k ==> final(self).tags()[x] == old(self).tags()[x]
                    &&& h.user == u
                    &&& h.last_active == t
                    &&& h.beacon_history@.dom() == set![j]
                    &&& h.beacon_history@[j].beacon == reading.beacon_mac
                    &&& h.beacon_history@[j].distances@ == seq![reading.tag_distance]
                },
            },
    {
        proof {
            use_type_invariant(&*self);
        }
        match found {
            None => {},
            Some((u, t)) => {
                let k = short_key_of(&reading.tag_mac);
                let mut windows: BTreeMap<u64, BeaconWindow<D>> = BTreeMap::new();
                add_distance(&mut windows, reading.beacon_mac, reading.tag_distance);
                assert(windows@.dom() =~= set![mac_key(reading.beacon_mac)]);
                let hist = TagHistory { user: u, last_active: t, beacon_history: windows };
                let ghost before = self.tags();
                assert(forall|x: u16| #[trigger] before.contains_key(x) ==> well_kept(before[x].beacon_history@));
                let mut users: BTreeMap<u16, TagHistory<D, U>> = BTreeMap::new();
                std::mem::swap(&mut users, &mut self.users);
                users.insert(k, hist);
                assert(users@.dom() =~= before.dom().insert(k));
                assert(forall|x: u16| #[trigger] users@.contains_key(x) ==> well_kept(users@[x].beacon_history@));
                self.users = users;
            },
        }
    }

    /// Records where a tracked tag was located: its user as updated by the
    /// caller, and the time of the location. Says whether the tag was
    /// tracked; nothing changes where it was not.
    pub fn set_user(&mut self, tag: &ShortAddress, user: U, last_active: i64) -> (found: bool)
        ensures
            final(self).consistent(),
            found == old(self).tags().contains_key(short_key(*tag)),
            !found ==> final(self).tags() == old(self).tags(),
            found ==> {
                let k = short_key(*tag);
                let h = final(self).tags()[k];
                &&& final(self).tags().dom() == old(self).tags().dom()
                &&& forall|x: u16| #[trigger] old(self).tags().contains_key(x) && x != k ==> final(self).tags()[x] == old(self).tags()[x]
                &&& h.user == user
                &&& h.last_active == last_active
                &&& h.beacon_history == old(self).tags()[k].beacon_history
            },
    {
        proof {
            use_type_invariant(&*self);
        }
        let k = short_key_of(tag);
        let ghost before = self.tags();
        assert(forall|x: u16| #[trigger] before.contains_key(x) ==> well_kept(before[x].beacon_history@));
        let mut users: BTreeMap<u16, TagHistory<D, U>> = BTreeMap::new();
        std::mem::swap(&mut users, &mut self.users);
        match users.remove(&k) {
            None => {
                assert(users@ =~= before);
                self.users = users;
                false
            },
            Some(hist) => {
                assert(before.contains_key(k));
                let updated = TagHistory { user, last_active, beacon_history: hist.beacon_history };
                users.insert(k, updated);
                assert(users@.dom() =~= before.dom());
                assert(forall|x: u16| #[trigger] users@.contains_key(x) ==> well_kept(users@[x].beacon_history@));
                self.users = users;
                true
            },
        }
    }

    /// Every tracked tag's user and the time the tag was last heard of,
    /// with the number the tag is filed under, each tag once, in the
    /// increasing order of those numbers.
    pub fn users(&self) -> (r: Vec<(u16, &U, i64)>)
        ensures
            forall|i: int| 0 <= i < r@.len() ==> {
                let k = (#[trigger] r@[i]).0;
                &&& self.tags().contains_key(k)
                &&& *r@[i].1 == self.tags()[k].user
                &&& r@[i].2 == self.tags()[k].last_active
            },
            forall|k: u16| #[trigger] self.tags().contains_key(k) ==> exists|i: int| 0 <= i < r@.len() && (#[trigger] r@[i]).0 == k,
            forall|i: int, i2: int| 0 <= i < i2 < r@.len() ==> (#[trigger] r@[i]).0 < (#[trigger] r@[i2]).0,
    {
        let ks = map_keys_u16(&self.users);
        let mut r: Vec<(u16, &U, i64)> = Vec::new();
        let mut i: usize = 0;
        while i < ks.len()
            invariant
                i <= ks@.len(),
                ks@.to_set() == self.users@.dom(),
                ks@.no_duplicates(),
                r@.len() == i,
                forall|a: int| 0 <= a < i ==> (#[trigger] r@[a]).0 == ks@[a],
                forall|a: int| 0 <= a < i ==> {
                    let k = (#[trigger] r@[a]).0;
                    &&& self.users@.contains_key(k)
                    &&& *r@[a].1 == self.users@[k].user
                    &&& r@[a].2 == self.users@[k].last_active
                },
            decreases ks.len() - i,
        {
            let k = ks[i];
            assert(ks@.to_set().contains(k));
            let h = self.users.get(&k).unwrap();
            r.push((k, &h.user, h.last_active));
            i = i + 1;
        }
        proof {
            assert forall|k: u16| #[trigger] self.tags().contains_key(k) implies exists|a: int| 0 <= a < r@.len() && (#[trigger] r@[a]).0 == k by {
                assert(ks@.to_set().contains(k));
                let a = choose|a: int| 0 <= a < ks@.len() && ks@[a] == k;
                assert(r@[a].0 == k);
            }
            assert forall|a: int, a2: int| 0 <= a < a2 < r@.len() implies (#[trigger] r@[a]).0 < (#[trigger] r@[a2]).0 by {
                assert(ks@[a] < ks@[a2]);
            }
        }
        r
    }
}

/// The matching never takes more distances than there are beacons, and
/// where every beacon got one, the `i`-th distance was measured through
/// the `i`-th beacon: the pairing that locating a tag relies on.
pub proof fn lemma_matched_aligned<A>(bs: Seq<BeaconSite>, avail: Seq<TagData<A>>)
    ensures
        matched(bs, avail).len() <= bs.len(),
        matched(bs, avail).len() == bs.len() ==> forall|i: int| 0 <= i < bs.len() ==> (#[trigger] matched(bs, avail)[i]).beacon_mac.eui@ == bs[i].mac.eui@,
    decreases bs.len(),
{
    if bs.len() > 0 {
        let rest = bs.drop_first();
        match first_with(avail, bs[0].mac) {
            Some(i) => {
                lemma_first_with_found(avail, bs[0].mac);
                let tail = swap_removed(avail, i);
                lemma_matched_aligned(rest, tail);
                if matched(bs, avail).len() == bs.len() {
                    assert forall|j: int| 0 <= j < bs.len() implies (#[trigger] matched(bs, avail)[j]).beacon_mac.eui@ == bs[j].mac.eui@ by {
                        if j > 0 {
                            assert(matched(bs, avail)[j] == matched(rest, tail)[j - 1]);
                            assert(rest[j - 1] == bs[j]);
                        }
                    }
                }
            },
            None => {
                lemma_matched_aligned(rest, avail);
            },
        }
    }
}

proof fn lemma_first_with_found<A>(s: Seq<TagData<A>>, mac: MacAddress8)
    ensures
        first_with(s, mac) matches Some(i) ==> 0 <= i < s.len() && s[i].beacon_mac.eui@ == mac.eui@,
    decreases s.len(),
{
    if s.len() > 0 {
        lemma_first_with_found(s.drop_first(), mac);
    }
}

/// The time of a location is that of its latest measurement: no earlier
/// than any of them, nor than the epoch.
pub proof fn lemma_latest_bounds<A>(s: Seq<TagData<A>>)
    ensures
        latest(s) >= 0,
        forall|i: int| 0 <= i < s.len() ==> latest(s) >= (#[trigger] s[i]).timestamp,
        latest(s) == 0 || exists|i: int| 0 <= i < s.len() && latest(s) == (#[trigger] s[i]).timestamp,
    decreases s.len(),
{
    if s.len() > 0 {
        lemma_latest_bounds(s.drop_last());
        assert forall|i: int| 0 <= i < s.len() implies latest(s) >= (#[trigger] s[i]).timestamp by {
            if i < s.len() - 1 {
                assert(s.drop_last()[i] == s[i]);
            }
        }
        if latest(s) != 0 && latest(s) != s.last().timestamp {
            let i = choose|i: int| 0 <= i < s.drop_last().len() && latest(s.drop_last()) == (#[trigger] s.drop_last()[i]).timestamp;
            assert(s[i] == s.drop_last()[i]);
        }
    }
}

} // verus!
