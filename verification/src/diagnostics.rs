//! The diagnostics page: a bounded buffer of the latest distance
//! measurements, newest first, and the beacons whose measurements are
//! shown. Beacons are kept by the number their address reads as.

use vstd::prelude::*;
use std::collections::{BTreeSet, VecDeque};
use crate::address::{MacAddress8, mac_key};
use crate::maps::set_keys;
use crate::model::{DiagnosticData, TagData};
use crate::user_message::{UserMessage, failure_text};

verus! {

/// How many measurements the buffer keeps.
pub const MAX_BUFFER_SIZE: usize = 0x50;

/// The diagnostics page's state: the beacons seen so far, those whose
/// measurements are shown, the buffer, whether an emergency is under way
/// (measurements are polled only then) and the messages.
pub struct Diagnostics<D> {
    pub active_beacons: BTreeSet<u64>,
    pub selected_beacons: BTreeSet<u64>,
    pub diagnostic_data: VecDeque<TagData<D>>,
    pub emergency: bool,
    pub polling: bool,
    pub user_msg: UserMessage,
}

/// What the diagnostics page is told; an error is the reason given.
pub enum Msg<D> {
    ClearBuffer,
    ToggleBeaconSelected(MacAddress8),
    RequestDiagnostics,
    ResponseDiagnostics(Result<DiagnosticData<D>, String>),
}

/// What the diagnostics page asks of its surroundings.
#[derive(Copy, Clone, Debug, PartialEq, Eq, Structural)]
pub enum Action {
    /// Ask for the latest measurements.
    FetchDiagnostics,
    /// Ask for them every second from now on.
    StartPolling,
    StopPolling,
}

/// The beacons that took the measurements `s`.
pub open spec fn beacons_of<D>(s: Seq<TagData<D>>) -> Set<u64> {
    Set::new(|k: u64| exists|i: int| 0 <= i < s.len() && #[trigger] mac_key(s[i].beacon_mac) == k)
}

/// The buffer after taking in the measurements `s` in order, each put
/// first, cut to its size.
pub open spec fn buffered<D>(s: Seq<TagData<D>>, old_data: Seq<TagData<D>>) -> Seq<TagData<D>> {
    let all = s.reverse() + old_data;
    if all.len() > MAX_BUFFER_SIZE {
        all.subrange(0, MAX_BUFFER_SIZE as int)
    } else {
        all
    }
}

/// `s` with `k` taken out if it is in, put in otherwise.
pub open spec fn toggled(s: Set<u64>, k: u64) -> Set<u64> {
    if s.contains(k) {
        s.remove(k)
    } else {
        s.insert(k)
    }
}

/// Selecting a beacon twice leaves the selection as it was.
pub proof fn lemma_toggle_twice(s: Set<u64>, k: u64)
    ensures
        toggled(toggled(s, k), k) == s,
{
    if s.contains(k) {
        assert(s.remove(k).insert(k) =~= s);
    } else {
        assert(s.insert(k).remove(k) =~= s);
    }
}

/// The buffer never holds more than its size, and the last measurement
/// taken in comes first.
pub proof fn lemma_buffer_bounded<D>(s: Seq<TagData<D>>, old_data: Seq<TagData<D>>)
    ensures
        buffered(s, old_data).len() <= MAX_BUFFER_SIZE,
        buffered(s, old_data).len() == if s.len() + old_data.len() > MAX_BUFFER_SIZE {
            MAX_BUFFER_SIZE as nat
        } else {
            s.len() + old_data.len()
        },
        s.len() > 0 ==> buffered(s, old_data)[0] == s.last(),
{
}

impl<D> Diagnostics<D> {
    /// The beacons seen so far.
    pub open spec fn active(self) -> Set<u64> {
        self.active_beacons@
    }

    /// The beacons whose measurements are shown.
    pub open spec fn selected(self) -> Set<u64> {
        self.selected_beacons@
    }

    /// An empty page; measurements are polled during an emergency.
    pub fn create(emergency: bool) -> (r: (Diagnostics<D>, Vec<Action>))
        ensures
            r.0.active() == Set::<u64>::empty(),
            r.0.selected() == Set::<u64>::empty(),
            r.0.diagnostic_data@.len() == 0,
            r.0.emergency == emergency,
            r.0.polling == emergency,
            r.0.user_msg.is_clear(),
            r.1@ == if emergency { seq![Action::StartPolling] } else { Seq::<Action>::empty() },
    {
        let page = Diagnostics {
            active_beacons: BTreeSet::new(),
            selected_beacons: BTreeSet::new(),
            diagnostic_data: VecDeque::new(),
            emergency,
            polling: emergency,
            user_msg: UserMessage::new(),
        };
        let actions = if emergency {
            vec![Action::StartPolling]
        } else {
            Vec::new()
        };
        (page, actions)
    }

    /// The emergency starts or ends: polling follows it, and the buffer is
    /// emptied when it ends.
    pub fn change(&mut self, emergency: bool) -> (actions: Vec<Action>)
        ensures
            final(self).emergency == emergency,
            final(self).polling == emergency,
            final(self).active() == old(self).active(),
            final(self).selected() == old(self).selected(),
            final(self).user_msg == old(self).user_msg,
            emergency ==> final(self).diagnostic_data@ == old(self).diagnostic_data@ && actions@ == seq![
                Action::StartPolling,
            ],
            !emergency ==> final(self).diagnostic_data@.len() == 0 && actions@ == seq![Action::StopPolling],
    {
        self.emergency = emergency;
        self.polling = emergency;
        if emergency {
            vec![Action::StartPolling]
        } else {
            self.diagnostic_data = VecDeque::new();
            vec![Action::StopPolling]
        }
    }

    /// Takes in a message. A beacon seen for the first time is shown;
    /// the newest measurements come first and the oldest fall out of the
    /// buffer.
    pub fn update(&mut self, msg: Msg<D>) -> (actions: Vec<Action>)
        ensures
            final(self).emergency == old(self).emergency,
            final(self).polling == old(self).polling,
            match msg {
                Msg::ClearBuffer => {
                    &&& final(self).diagnostic_data@.len() == 0
                    &&& final(self).active() == old(self).active()
                    &&& final(self).selected() == old(self).selected()
                    &&& final(self).user_msg == old(self).user_msg
                    &&& actions@.len() == 0
                },
                Msg::ToggleBeaconSelected(mac) => {
                    &&& final(self).diagnostic_data@ == old(self).diagnostic_data@
                    &&& final(self).active() == old(self).active()
                    &&& final(self).selected() == toggled(old(self).selected(), mac_key(mac))
                    &&& final(self).user_msg == old(self).user_msg
                    &&& actions@.len() == 0
                },
                Msg::RequestDiagnostics => {
                    &&& final(self).diagnostic_data@ == old(self).diagnostic_data@
                    &&& final(self).active() == old(self).active()
                    &&& final(self).selected() == old(self).selected()
                    &&& final(self).user_msg.is_clear()
                    &&& actions@ == seq![Action::FetchDiagnostics]
                },
                Msg::ResponseDiagnostics(Ok(d)) => {
                    &&& final(self).diagnostic_data@ == buffered(d.tag_data@, old(self).diagnostic_data@)
                    &&& final(self).active() == old(self).active().union(beacons_of(d.tag_data@))
                    &&& final(self).selected() == old(self).selected().union(
                        beacons_of(d.tag_data@).difference(old(self).active()),
                    )
                    &&& final(self).user_msg == old(self).user_msg
                    &&& actions@.len() == 0
                },
                Msg::ResponseDiagnostics(Err(e)) => {
                    &&& final(self).diagnostic_data@ == old(self).diagnostic_data@
                    &&& final(self).active() == old(self).active()
                    &&& final(self).selected() == old(self).selected()
                    &&& final(self).user_msg.erred(old(self).user_msg, "failed to obtain diagnostics, reason: "@ + e@)
                    &&& actions@.len() == 0
                },
            },
    {
        match msg {
            Msg::ClearBuffer => {
                self.diagnostic_data = VecDeque::new();
                Vec::new()
            },
            Msg::ToggleBeaconSelected(mac) => {
                let k = mac.key();
                if self.selected_beacons.contains(&k) {
                    self.selected_beacons.remove(&k);
                } else {
                    self.selected_beacons.insert(k);
                }
                Vec::new()
            },
            Msg::RequestDiagnostics => {
                self.user_msg.reset();
                vec![Action::FetchDiagnostics]
            },
            Msg::ResponseDiagnostics(Ok(d)) => {
                self.take_in(d.tag_data);
                Vec::new()
            },
            Msg::ResponseDiagnostics(Err(e)) => {
                self.user_msg.push_error(failure_text("failed to obtain diagnostics, reason: ", e.as_str()));
                Vec::new()
            },
        }
    }

    /// Takes in measurements, in order.
    fn take_in(&mut self, points: Vec<TagData<D>>)
        ensures
            final(self).diagnostic_data@ == buffered(points@, old(self).diagnostic_data@),
            final(self).active() == old(self).active().union(beacons_of(points@)),
            final(self).selected() == old(self).selected().union(beacons_of(points@).difference(old(self).active())),
            final(self).emergency == old(self).emergency,
            final(self).polling == old(self).polling,
            final(self).user_msg == old(self).user_msg,
    {
        let ghost all = points@;
        let ghost start = *self;
        let mut rest = points;
        let mut done: Ghost<Seq<TagData<D>>> = Ghost(Seq::empty());
        assert(all =~= done@ + rest@);
        assert(done@.reverse() + start.diagnostic_data@ =~= start.diagnostic_data@);
        assert(start.active().union(beacons_of(done@)) =~= start.active());
        assert(start.selected().union(beacons_of(done@).difference(start.active())) =~= start.selected());
        while rest.len() > 0
            invariant
                all == done@ + rest@,
                self.diagnostic_data@ == done@.reverse() + start.diagnostic_data@,
                self.active() == start.active().union(beacons_of(done@)),
                self.selected() == start.selected().union(beacons_of(done@).difference(start.active())),
                self.emergency == start.emergency,
                self.polling == start.polling,
                self.user_msg == start.user_msg,
            decreases rest.len(),
        {
            let ghost before = rest@;
            let point = rest.remove(0);
            let k = point.beacon_mac.key();
            assert(before =~= seq![point] + rest@);
            let ghost now = done@.push(point);
            proof {
                assert(all =~= now + rest@);
                assert(beacons_of(now) =~= beacons_of(done@).insert(k)) by {
                    assert(mac_key(now[done@.len() as int].beacon_mac) == k);
                    assert forall|x: u64| beacons_of(now).contains(x) implies beacons_of(done@).insert(k).contains(x) by {
                        let i = choose|i: int| 0 <= i < now.len() && #[trigger] mac_key(now[i].beacon_mac) == x;
                        if i < done@.len() {
                            assert(mac_key(done@[i].beacon_mac) == x);
                        }
                    }
                    assert forall|x: u64| beacons_of(done@).insert(k).contains(x) implies beacons_of(now).contains(x) by {
                        if x != k {
                            let i = choose|i: int| 0 <= i < done@.len() && #[trigger] mac_key(done@[i].beacon_mac) == x;
                            assert(mac_key(now[i].beacon_mac) == x);
                        }
                    }
                }
            }
            if !self.active_beacons.contains(&k) {
                self.active_beacons.insert(k);
                self.selected_beacons.insert(k);
            }
            self.diagnostic_data.push_front(point);
            proof {
                assert(now.reverse() =~= seq![point] + done@.reverse());
                assert(self.diagnostic_data@ =~= now.reverse() + start.diagnostic_data@);
                assert(self.active() =~= start.active().union(beacons_of(now)));
                assert(self.selected() =~= start.selected().union(beacons_of(now).difference(start.active())));
                done@ = now;
            }
        }
        assert(done@ =~= all);
        self.diagnostic_data.truncate(MAX_BUFFER_SIZE);
    }

    /// The beacons seen so far, in increasing order.
    pub fn active_beacons(&self) -> (r: Vec<u64>)
        ensures
            r@.to_set() == self.active(),
            r@.no_duplicates(),
            forall|i: int, j: int| 0 <= i < j < r@.len() ==> r@[i] < r@[j],
    {
        set_keys(&self.active_beacons)
    }

    /// Whether the measurements of a beacon are shown.
    pub fn is_selected(&self, mac: &MacAddress8) -> (r: bool)
        ensures
            r == self.selected().contains(mac_key(*mac)),
    {
        let k = mac.key();
        self.selected_beacons.contains(&k)
    }

    /// The positions in the buffer of the measurements shown, in order.
    pub fn shown_rows(&self) -> (r: Vec<usize>)
        ensures
            forall|i: int, j: int| 0 <= i < j < r@.len() ==> r@[i] < r@[j],
            forall|i: int| 0 <= i < r@.len() ==> r@[i] < self.diagnostic_data@.len(),
            forall|p: int|
                0 <= p < self.diagnostic_data@.len() ==> (r@.contains(p as usize) <==> self.selected().contains(
                    mac_key(#[trigger] self.diagnostic_data@[p].beacon_mac),
                )),
    {
        let mut r: Vec<usize> = Vec::new();
        let n = self.diagnostic_data.len();
        let mut p: usize = 0;
        while p < n
            invariant
                n == self.diagnostic_data@.len(),
                p <= n,
                forall|i: int, j: int| 0 <= i < j < r@.len() ==> r@[i] < r@[j],
                forall|i: int| 0 <= i < r@.len() ==> r@[i] < p,
                forall|q: int|
                    0 <= q < p ==> (r@.contains(q as usize) <==> self.selected().contains(
                        mac_key(#[trigger] self.diagnostic_data@[q].beacon_mac),
                    )),
            decreases n - p,
        {
            let k = self.diagnostic_data[p].beacon_mac.key();
            let ghost old_r = r@;
            if self.selected_beacons.contains(&k) {
                r.push(p);
                proof {
                    assert forall|x: usize| #[trigger] r@.contains(x) <==> (old_r.contains(x) || x == p) by {
                        if r@.contains(x) {
                            let i = choose|i: int| 0 <= i < r@.len() && r@[i] == x;
                            if i < old_r.len() {
                                assert(old_r[i] == x);
                            }
                        }
                        if old_r.contains(x) {
                            let i = choose|i: int| 0 <= i < old_r.len() && old_r[i] == x;
                            assert(r@[i] == x);
                        }
                        if x == p {
                            assert(r@[r@.len() - 1] == p);
                        }
                    }
                }
            }
            p = p + 1;
        }
        r
    }
}

} // verus!
