//! Simulated beacons, for running the system without hardware: they answer
//! the commands sent to them and, during an emergency, report distances to
//! a tag. The random draws (which distances, which beacon fails) are the
//! caller's; this module decides what the simulated beacons say.

use vstd::prelude::*;
use crate::address::{MacAddress8, ShortAddress};
use crate::manager::{BMResponse, BeaconCommand};
use crate::model::TagData;
use crate::network::IpAddress;

verus! {

/// How often the simulated beacons report distances, in milliseconds.
pub const MESSAGE_INTERVAL_MS: u64 = 1000;

/// A simulated beacon: where it answers from and its address.
#[derive(Copy, Clone, Debug)]
pub struct SimulatedBeacon {
    pub ip: IpAddress,
    pub mac: MacAddress8,
}

/// The kinds of acknowledgement.
#[derive(Copy, Clone, Debug, PartialEq, Eq, Structural)]
pub enum Ack {
    Start,
    End,
    Ping,
    Reboot,
    SetIp,
}

/// The acknowledgement of a beacon.
pub open spec fn ack_from<D>(kind: Ack, b: SimulatedBeacon) -> BMResponse<D> {
    match kind {
        Ack::Start => BMResponse::Start(b.ip, b.mac),
        Ack::End => BMResponse::End(b.ip, b.mac),
        Ack::Ping => BMResponse::Ping(b.ip, b.mac),
        Ack::Reboot => BMResponse::Reboot(b.ip, b.mac),
        Ack::SetIp => BMResponse::SetIp(b.ip, b.mac),
    }
}

/// The position of the first beacon at an address.
pub open spec fn first_at(bs: Seq<SimulatedBeacon>, ip: IpAddress) -> Option<int>
    decreases bs.len(),
{
    if bs.len() == 0 {
        None
    } else if bs[0].ip == ip {
        Some(0)
    } else {
        match first_at(bs.drop_first(), ip) {
            Some(i) => Some(i + 1),
            None => None,
        }
    }
}

/// The beacons a command reaches: the first one at the address it names,
/// or all of them.
pub open spec fn reached(bs: Seq<SimulatedBeacon>, target: Option<IpAddress>) -> Seq<SimulatedBeacon> {
    match target {
        Some(ip) => match first_at(bs, ip) {
            Some(i) => seq![bs[i]],
            None => Seq::empty(),
        },
        None => bs,
    }
}

/// The acknowledgements of the beacons `bs`, in order, leaving out the one
/// that is down.
pub open spec fn acks<D>(bs: Seq<SimulatedBeacon>, kind: Ack, down: Option<IpAddress>) -> Seq<BMResponse<D>>
    decreases bs.len(),
{
    if bs.len() == 0 {
        Seq::empty()
    } else {
        let rest = acks(bs.drop_last(), kind, down);
        if Some(bs.last().ip) == down {
            rest
        } else {
            rest.push(ack_from(kind, bs.last()))
        }
    }
}

/// The kind of acknowledgement a command gets and the beacons it reaches.
pub open spec fn command_ack(cmd: BeaconCommand) -> (Ack, Option<IpAddress>) {
    match cmd {
        BeaconCommand::StartEmergency(t) => (Ack::Start, t),
        BeaconCommand::EndEmergency(t) => (Ack::End, t),
        BeaconCommand::Ping(t) => (Ack::Ping, t),
        BeaconCommand::Reboot(t) => (Ack::Reboot, t),
        BeaconCommand::SetIp(_) => (Ack::SetIp, None),
    }
}

/// The distance reports of one round: each beacon that is up, in order,
/// reports the distance drawn for it, unless the draw takes it down, after
/// which it stays silent (as does every beacon at its address) until it
/// comes back.
pub open spec fn reports<D>(bs: Seq<SimulatedBeacon>, tag: ShortAddress, distances: Seq<D>, goes_down: Seq<bool>, down: Option<IpAddress>, now: i64) -> (Seq<BMResponse<D>>, Option<IpAddress>)
    decreases bs.len(),
{
    if bs.len() == 0 {
        (Seq::empty(), down)
    } else {
        let n = bs.len() - 1;
        let (rest, d) = reports(bs.drop_last(), tag, distances.take(n), goes_down.take(n), down, now);
        let b = bs.last();
        match d {
            Some(ip) => if b.ip == ip {
                (rest, d)
            } else {
                (rest.push(BMResponse::TagData(b.ip, TagData { beacon_mac: b.mac, tag_distance: distances[n], tag_mac: tag, timestamp: now })), d)
            },
            None => if goes_down[n] {
                (rest, Some(b.ip))
            } else {
                (rest.push(BMResponse::TagData(b.ip, TagData { beacon_mac: b.mac, tag_distance: distances[n], tag_mac: tag, timestamp: now })), d)
            },
        }
    }
}

/// The simulated beacons' shared state: the address of the beacon that is
/// down, if any, and the report timers. Each start of an emergency starts
/// a timer, each of which triggers a round of reports every interval; an
/// end stops the timer of the latest start, if it still runs, and no other.
#[derive(Copy, Clone, Debug)]
pub struct SimulatedBeacons {
    pub down: Option<IpAddress>,
    /// How many report timers run (at most `u32::MAX` are counted).
    pub timers: u32,
    /// Whether the timer of the latest start still runs.
    pub latest_running: bool,
}

impl SimulatedBeacons {
    /// All beacons up, no timer.
    pub fn new() -> (s: SimulatedBeacons)
        ensures
            s.down is None,
            s.timers == 0,
            !s.latest_running,
    {
        SimulatedBeacons { down: None, timers: 0, latest_running: false }
    }

    /// Answers a command sent to the beacons `beacons`. A command aimed at
    /// the beacon that is down (or, with none down, at all beacons) first
    /// brings it back where `wakes` (a draw) says so. Each beacon reached
    /// and up answers, in order; a start starts a report timer and an end
    /// stops the latest one.
    pub fn on_command<D>(&mut self, cmd: BeaconCommand, beacons: &Vec<SimulatedBeacon>, wakes: bool) -> (r: Vec<BMResponse<D>>)
        ensures
            ({
                let (kind, target) = command_ack(cmd);
                let down = if target == old(self).down && wakes {
                    None
                } else {
                    old(self).down
                };
                &&& final(self).down == down
                &&& r@ == acks::<D>(reached(beacons@, target), kind, down)
                &&& match kind {
                    Ack::Start => {
                        &&& final(self).timers == if old(self).timers == u32::MAX {
                            u32::MAX
                        } else {
                            (old(self).timers + 1) as u32
                        }
                        &&& final(self).latest_running
                    },
                    Ack::End => {
                        &&& final(self).timers == if old(self).latest_running && old(self).timers > 0 {
                            (old(self).timers - 1) as u32
                        } else {
                            old(self).timers
                        }
                        &&& !final(self).latest_running
                    },
                    _ => final(self).timers == old(self).timers && final(self).latest_running == old(self).latest_running,
                }
            }),
    {
        let (kind, target) = match cmd {
            BeaconCommand::StartEmergency(t) => (Ack::Start, t),
            BeaconCommand::EndEmergency(t) => (Ack::End, t),
            BeaconCommand::Ping(t) => (Ack::Ping, t),
            BeaconCommand::Reboot(t) => (Ack::Reboot, t),
            BeaconCommand::SetIp(_) => (Ack::SetIp, None),
        };
        if target == self.down && wakes {
            self.down = None;
        }
        match kind {
            Ack::Start => {
                self.timers = self.timers.saturating_add(1);
                self.latest_running = true;
            },
            Ack::End => {
                if self.latest_running && self.timers > 0 {
                    self.timers = self.timers - 1;
                }
                self.latest_running = false;
            },
            _ => {},
        }
        let chosen = reach(beacons, target);
        let down = self.down;
        let mut r: Vec<BMResponse<D>> = Vec::new();
        let mut i: usize = 0;
        while i < chosen.len()
            invariant
                i <= chosen@.len(),
                r@ == acks::<D>(chosen@.take(i as int), kind, down),
            decreases chosen.len() - i,
        {
            let b = chosen[i];
            assert(chosen@.take(i as int + 1).drop_last() =~= chosen@.take(i as int));
            if Some(b.ip) != down {
                r.push(make_ack(kind, b));
            }
            i = i + 1;
        }
        assert(chosen@.take(chosen@.len() as int) =~= chosen@);
        r
    }

    /// One round of distance reports to tag `tag` at time `now`, as a
    /// running timer triggers it: `distances[i]` is the distance drawn for
    /// the `i`-th beacon, and `goes_down[i]` whether the draw takes it down.
    pub fn report<D: Copy>(&mut self, beacons: &Vec<SimulatedBeacon>, tag: ShortAddress, distances: &Vec<D>, goes_down: &Vec<bool>, now: i64) -> (r: Vec<BMResponse<D>>)
        requires
            distances@.len() == beacons@.len(),
            goes_down@.len() == beacons@.len(),
        ensures
            r@ == reports(beacons@, tag, distances@, goes_down@, old(self).down, now).0,
            final(self).down == reports(beacons@, tag, distances@, goes_down@, old(self).down, now).1,
            final(self).timers == old(self).timers,
            final(self).latest_running == old(self).latest_running,
    {
        let mut r: Vec<BMResponse<D>> = Vec::new();
        let mut i: usize = 0;
        let ghost timers = self.timers;
        let ghost latest = self.latest_running;
        let ghost start = self.down;
        while i < beacons.len()
            invariant
                i <= beacons@.len(),
                distances@.len() == beacons@.len(),
                goes_down@.len() == beacons@.len(),
                self.timers == timers,
                self.latest_running == latest,
                (r@, self.down) == reports(beacons@.take(i as int), tag, distances@.take(i as int), goes_down@.take(i as int), start, now),
            decreases beacons.len() - i,
        {
            let b = beacons[i];
            proof {
                let k = i as int + 1;
                assert(beacons@.take(k).drop_last() =~= beacons@.take(i as int));
                assert(distances@.take(k).take(i as int) =~= distances@.take(i as int));
                assert(goes_down@.take(k).take(i as int) =~= goes_down@.take(i as int));
                assert(distances@.take(k)[i as int] == distances@[i as int]);
                assert(goes_down@.take(k)[i as int] == goes_down@[i as int]);
            }
            match self.down {
                Some(ip) => {
                    if b.ip != ip {
                        r.push(BMResponse::TagData(b.ip, TagData { beacon_mac: b.mac, tag_distance: distances[i], tag_mac: tag, timestamp: now }));
                    }
                },
                None => {
                    if goes_down[i] {
                        self.down = Some(b.ip);
                    } else {
                        r.push(BMResponse::TagData(b.ip, TagData { beacon_mac: b.mac, tag_distance: distances[i], tag_mac: tag, timestamp: now }));
                    }
                },
            }
            i = i + 1;
        }
        assert(beacons@.take(beacons@.len() as int) =~= beacons@);
        assert(distances@.take(distances@.len() as int) =~= distances@);
        assert(goes_down@.take(goes_down@.len() as int) =~= goes_down@);
        r
    }
}

fn make_ack<D>(kind: Ack, b: SimulatedBeacon) -> (r: BMResponse<D>)
    ensures
        r == ack_from::<D>(kind, b),
{
    match kind {
        Ack::Start => BMResponse::Start(b.ip, b.mac),
        Ack::End => BMResponse::End(b.ip, b.mac),
        Ack::Ping => BMResponse::Ping(b.ip, b.mac),
        Ack::Reboot => BMResponse::Reboot(b.ip, b.mac),
        Ack::SetIp => BMResponse::SetIp(b.ip, b.mac),
    }
}

/// The beacons a command reaches.
fn reach(beacons: &Vec<SimulatedBeacon>, target: Option<IpAddress>) -> (r: Vec<SimulatedBeacon>)
    ensures
        r@ == reached(beacons@, target),
{
    match target {
        None => beacons.clone(),
        Some(ip) => {
            let mut i: usize = 0;
            while i < beacons.len()
                invariant
                    i <= beacons@.len(),
                    target == Some(ip),
                    forall|j: int| 0 <= j < i ==> (#[trigger] beacons@[j]).ip != ip,
                decreases beacons.len() - i,
            {
                proof {
                    lemma_first_at_step(beacons@, ip, i as int);
                }
                if beacons[i].ip == ip {
                    assert(first_at(beacons@, ip) == Some(i as int));
                    let mut r: Vec<SimulatedBeacon> = Vec::new();
                    r.push(beacons[i]);
                    assert(r@ =~= seq![beacons@[i as int]]);
                    return r;
                }
                i = i + 1;
            }
            proof {
                lemma_first_at_none(beacons@, ip);
            }
            Vec::new()
        },
    }
}

/// `r` is the acknowledgement that beacon `b` gives to `cmd`: an emergency
/// start is answered by `Start`, an end by `End`, a ping by `Ping`, a
/// reboot by `Reboot` and a new address by `SetIp`, each with the beacon's
/// address and MAC.
pub open spec fn acknowledges<D>(cmd: BeaconCommand, r: BMResponse<D>, b: SimulatedBeacon) -> bool {
    match cmd {
        BeaconCommand::StartEmergency(_) => r == BMResponse::<D>::Start(b.ip, b.mac),
        BeaconCommand::EndEmergency(_) => r == BMResponse::<D>::End(b.ip, b.mac),
        BeaconCommand::Ping(_) => r == BMResponse::<D>::Ping(b.ip, b.mac),
        BeaconCommand::Reboot(_) => r == BMResponse::<D>::Reboot(b.ip, b.mac),
        BeaconCommand::SetIp(_) => r == BMResponse::<D>::SetIp(b.ip, b.mac),
    }
}

/// `r` is the acknowledgement that one of the beacons `bs` that is not down
/// gives to `cmd`.
pub open spec fn answer_of_one<D>(cmd: BeaconCommand, r: BMResponse<D>, bs: Seq<SimulatedBeacon>, down: Option<IpAddress>) -> bool {
    exists|j: int| 0 <= j < bs.len() && Some(bs[j].ip) != down && #[trigger] acknowledges::<D>(cmd, r, bs[j])
}

/// Every answer the simulated beacons `bs` give to a command is of the
/// command's own kind and comes from one of the beacons, one that is not
/// down: an end of emergency is answered by `End`, a start by `Start`, a
/// ping by `Ping`, a reboot by `Reboot` and a new address by `SetIp`.
pub proof fn lemma_answers_match_command<D>(cmd: BeaconCommand, bs: Seq<SimulatedBeacon>, down: Option<IpAddress>)
    ensures
        forall|i: int| #![trigger acks::<D>(reached(bs, command_ack(cmd).1), command_ack(cmd).0, down)[i]]
            0 <= i < acks::<D>(reached(bs, command_ack(cmd).1), command_ack(cmd).0, down).len()
            ==> answer_of_one::<D>(cmd, acks::<D>(reached(bs, command_ack(cmd).1), command_ack(cmd).0, down)[i], bs, down),
{
    let kind = command_ack(cmd).0;
    let target = command_ack(cmd).1;
    let chosen = reached(bs, target);
    let r = acks::<D>(chosen, kind, down);
    lemma_reached_from(bs, target);
    lemma_acks_from::<D>(chosen, kind, down);
    assert forall|i: int| #![trigger r[i]] 0 <= i < r.len() implies answer_of_one::<D>(cmd, r[i], bs, down) by {
        let k = choose|k: int| 0 <= k < chosen.len() && Some(chosen[k].ip) != down && r[i] == ack_from::<D>(kind, #[trigger] chosen[k]);
        let j = choose|j: int| 0 <= j < bs.len() && chosen[k] == #[trigger] bs[j];
        assert(acknowledges::<D>(cmd, r[i], bs[j]));
    }
}

/// Each acknowledgement in `acks(s, kind, down)` is that of a beacon of `s`
/// that is not down.
proof fn lemma_acks_from<D>(s: Seq<SimulatedBeacon>, kind: Ack, down: Option<IpAddress>)
    ensures
        forall|i: int| #![trigger acks::<D>(s, kind, down)[i]] 0 <= i < acks::<D>(s, kind, down).len() ==> exists|k: int|
            0 <= k < s.len() && Some(s[k].ip) != down && acks::<D>(s, kind, down)[i] == ack_from::<D>(kind, #[trigger] s[k]),
    decreases s.len(),
{
    if s.len() > 0 {
        let p = s.drop_last();
        lemma_acks_from::<D>(p, kind, down);
        let rest = acks::<D>(p, kind, down);
        assert forall|i: int| #![trigger acks::<D>(s, kind, down)[i]] 0 <= i < acks::<D>(s, kind, down).len() implies exists|k: int|
            0 <= k < s.len() && Some(s[k].ip) != down && acks::<D>(s, kind, down)[i] == ack_from::<D>(kind, #[trigger] s[k]) by {
            if i < rest.len() {
                let k = choose|k: int| 0 <= k < p.len() && Some(p[k].ip) != down && rest[i] == ack_from::<D>(kind, #[trigger] p[k]);
                assert(s[k] == p[k]);
            } else {
                assert(s[s.len() - 1] == s.last());
            }
        }
    }
}

/// The beacons a command reaches are beacons of `bs`.
proof fn lemma_reached_from(bs: Seq<SimulatedBeacon>, target: Option<IpAddress>)
    ensures
        forall|k: int| #![trigger reached(bs, target)[k]] 0 <= k < reached(bs, target).len() ==> exists|j: int|
            0 <= j < bs.len() && reached(bs, target)[k] == #[trigger] bs[j],
{
    match target {
        Some(ip) => {
            lemma_first_at_bounds(bs, ip);
            match first_at(bs, ip) {
                Some(i) => {
                    assert forall|k: int| #![trigger reached(bs, target)[k]] 0 <= k < reached(bs, target).len() implies exists|j: int|
                        0 <= j < bs.len() && reached(bs, target)[k] == #[trigger] bs[j] by {
                        assert(reached(bs, target)[k] == bs[i]);
                    }
                },
                None => {},
            }
        },
        None => {
            assert forall|k: int| #![trigger reached(bs, target)[k]] 0 <= k < reached(bs, target).len() implies exists|j: int|
                0 <= j < bs.len() && reached(bs, target)[k] == #[trigger] bs[j] by {
                assert(reached(bs, target)[k] == bs[k]);
            }
        },
    }
}

proof fn lemma_first_at_bounds(s: Seq<SimulatedBeacon>, ip: IpAddress)
    ensures
        first_at(s, ip) matches Some(i) ==> 0 <= i < s.len(),
    decreases s.len(),
{
    if s.len() > 0 {
        lemma_first_at_bounds(s.drop_first(), ip);
    }
}

proof fn lemma_first_at_step(s: Seq<SimulatedBeacon>, ip: IpAddress, i: int)
    requires
        0 <= i < s.len(),
        forall|j: int| 0 <= j < i ==> (#[trigger] s[j]).ip != ip,
    ensures
        s[i].ip == ip ==> first_at(s, ip) == Some(i),
    decreases i,
{
    if i > 0 {
        assert forall|j: int| 0 <= j < i - 1 implies (#[trigger] s.drop_first()[j]).ip != ip by {
            assert(s.drop_first()[j] == s[j + 1]);
        }
        lemma_first_at_step(s.drop_first(), ip, i - 1);
    }
}

proof fn lemma_first_at_none(s: Seq<SimulatedBeacon>, ip: IpAddress)
    requires
        forall|j: int| 0 <= j < s.len() ==> (#[trigger] s[j]).ip != ip,
    ensures
        first_at(s, ip) is None,
    decreases s.len(),
{
    if s.len() > 0 {
        assert forall|j: int| 0 <= j < s.len() - 1 implies (#[trigger] s.drop_first()[j]).ip != ip by {
            assert(s.drop_first()[j] == s[j + 1]);
        }
        lemma_first_at_none(s.drop_first(), ip);
    }
}

} // verus!
