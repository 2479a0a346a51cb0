//! The decisions of the beacon manager: which beacons to address, when to
//! retry, reboot or give up on a beacon, and what to make of the beacons'
//! replies. The caller owns the timers and the connections: it performs the
//! actions handed back and reports the events.

use vstd::prelude::*;
use std::collections::{BTreeMap, BTreeSet};
use crate::address::{MacAddress8, mac_key};
use crate::maps::{map_keys, set_keys};
use crate::model::{RealtimeBeacon, TagData};
use crate::network::IpAddress;
use crate::state::BeaconState;

verus! {

broadcast use {vstd::std_specs::btree::group_btree_axioms, vstd::laws_cmp::group_laws_cmp};

/// How long, in nanoseconds, a beacon has to answer a request before it is
/// retried.
pub const RESPONSE_THRESHOLD_NS: i64 = 2_000_000_000;

/// How long, in milliseconds, the caller waits after a request before it
/// asks for a health check.
pub const RESPONSE_THRESHOLD_MS: u64 = 2000;

/// The ping interval outside an emergency, in milliseconds.
pub const PING_INTERVAL_MS: u64 = 100000;

/// The ping interval during an emergency, in milliseconds.
pub const EMERGENCY_PING_INTERVAL_MS: u64 = 10000;

/// How many unanswered checks a beacon is allowed before it is rebooted,
/// and, once rebooting, before it is given up as unknown.
pub const RETRIES_THRESHOLD: u32 = 4;

/// The oldest time the manager works with: a request sent at that time
/// must still have a representable deadline.
pub open spec fn valid_time(now: i64) -> bool {
    now >= i64::MIN + RESPONSE_THRESHOLD_NS
}

/// A request to a beacon that is waiting for its answer.
#[derive(Copy, Clone, Debug)]
pub struct Retries {
    /// Any activity of the beacon after this time counts as an answer.
    pub expected_response: i64,
    /// How many health checks have found the request open.
    pub retries: u32,
}

/// A request sent at `now`, not checked yet.
pub open spec fn fresh_retries(now: i64) -> Retries {
    Retries { expected_response: (now - RESPONSE_THRESHOLD_NS) as i64, retries: 0 }
}

impl Retries {
    /// A request sent at `now`: activity from a response threshold before
    /// `now` on counts as an answer.
    pub fn new(now: i64) -> (r: Retries)
        requires
            valid_time(now),
        ensures
            r == fresh_retries(now),
    {
        Retries { expected_response: now - RESPONSE_THRESHOLD_NS, retries: 0 }
    }
}

/// A beacon known to the manager, and its open request, if any.
#[derive(Copy, Clone, Debug)]
pub struct BeaconStatus {
    pub realtime: RealtimeBeacon,
    pub retries: Option<Retries>,
}

/// A command to the beacon manager.
#[derive(Copy, Clone, Debug)]
pub enum BMCommand {
    GetEmergency,
    ScanBeacons,
    StartEmergency(Option<MacAddress8>),
    EndEmergency(Option<MacAddress8>),
    Ping(Option<MacAddress8>),
    Reboot(Option<MacAddress8>),
    /// Tells the beacons the server's IPv4 address.
    SetIp(u32),
}

/// A command sent over the beacon connections: to the beacon at an address,
/// or to all beacons where none is given.
#[derive(Copy, Clone, Debug, PartialEq, Eq, Structural)]
pub enum BeaconCommand {
    EndEmergency(Option<IpAddress>),
    StartEmergency(Option<IpAddress>),
    Ping(Option<IpAddress>),
    Reboot(Option<IpAddress>),
    SetIp(u32),
}

/// A message from a beacon, with the address it came from.
#[derive(Copy, Clone, Debug)]
pub enum BMResponse<D> {
    Start(IpAddress, MacAddress8),
    End(IpAddress, MacAddress8),
    Ping(IpAddress, MacAddress8),
    Reboot(IpAddress, MacAddress8),
    TagData(IpAddress, TagData<D>),
    SetIp(IpAddress, MacAddress8),
}

/// The interval of the regular ping.
#[derive(Copy, Clone, Debug, PartialEq, Eq, Structural)]
pub enum PingRate {
    Normal,
    Emergency,
}

impl PingRate {
    /// The interval in milliseconds.
    pub fn interval_ms(&self) -> (ms: u64)
        ensures
            ms == (match *self {
                PingRate::Normal => PING_INTERVAL_MS,
                PingRate::Emergency => EMERGENCY_PING_INTERVAL_MS,
            }),
    {
        match self {
            PingRate::Normal => PING_INTERVAL_MS,
            PingRate::Emergency => EMERGENCY_PING_INTERVAL_MS,
        }
    }
}

/// Work for the caller after a command.
#[derive(Copy, Clone, Debug, PartialEq, Eq, Structural)]
pub enum ManagerAction {
    /// Look for beacon connections and open them.
    ScanBeacons,
    /// Cancel the regular ping and start it again at the given rate.
    RestartPinger(PingRate),
    /// Send the command over every beacon connection.
    MassSend(BeaconCommand),
    /// Ask for a health check after the response threshold.
    ScheduleHealthCheck,
}

/// What the caller is to do with a beacon's message.
#[derive(Copy, Clone, Debug)]
pub enum ResponseAction<D> {
    Nothing,
    /// The beacon is not known: look it up in the database and report the
    /// result through `beacon_found`.
    LookUpBeacon(MacAddress8),
    /// Hand the measurement to the location processor.
    ForwardTagData(TagData<D>),
}

/// The four kinds of request that the manager sends to beacons.
#[derive(Copy, Clone, Debug, PartialEq, Eq, Structural)]
pub enum RequestKind {
    Start,
    End,
    Ping,
    Reboot,
}

/// The command of a kind of request, to one beacon or to all.
pub open spec fn beacon_command(kind: RequestKind, ip: Option<IpAddress>) -> BeaconCommand {
    match kind {
        RequestKind::Start => BeaconCommand::StartEmergency(ip),
        RequestKind::End => BeaconCommand::EndEmergency(ip),
        RequestKind::Ping => BeaconCommand::Ping(ip),
        RequestKind::Reboot => BeaconCommand::Reboot(ip),
    }
}

fn make_beacon_command(kind: RequestKind, ip: Option<IpAddress>) -> (c: BeaconCommand)
    ensures
        c == beacon_command(kind, ip),
{
    match kind {
        RequestKind::Start => BeaconCommand::StartEmergency(ip),
        RequestKind::End => BeaconCommand::EndEmergency(ip),
        RequestKind::Ping => BeaconCommand::Ping(ip),
        RequestKind::Reboot => BeaconCommand::Reboot(ip),
    }
}

/// A beacon with a request just sent at `now`: a beacon already waiting
/// keeps its open request.
pub open spec fn armed(st: BeaconStatus, now: i64) -> BeaconStatus {
    if st.retries is None {
        BeaconStatus { realtime: st.realtime, retries: Some(fresh_retries(now)) }
    } else {
        st
    }
}

/// Every beacon of the table with a request sent at `now`.
pub open spec fn arm_all(m: Map<u64, BeaconStatus>, now: i64) -> Map<u64, BeaconStatus> {
    Map::new(|k: u64| m.contains_key(k), |k: u64| armed(m[k], now))
}

/// The table after a request to one beacon, and the command sent, if any:
/// a beacon that is not in the table gets nothing.
pub open spec fn dispatch_one(m: Map<u64, BeaconStatus>, mac: MacAddress8, kind: RequestKind, now: i64) -> (Map<u64, BeaconStatus>, Seq<ManagerAction>) {
    let k = mac_key(mac);
    if m.contains_key(k) {
        (m.insert(k, armed(m[k], now)), seq![ManagerAction::MassSend(beacon_command(kind, Some(m[k].realtime.ip)))])
    } else {
        (m, Seq::empty())
    }
}

/// The table after a request to one beacon or to all, and the commands sent.
pub open spec fn dispatch(m: Map<u64, BeaconStatus>, target: Option<MacAddress8>, kind: RequestKind, now: i64) -> (Map<u64, BeaconStatus>, Seq<ManagerAction>) {
    match target {
        Some(mac) => dispatch_one(m, mac, kind, now),
        None => (arm_all(m, now), seq![ManagerAction::MassSend(beacon_command(kind, None))]),
    }
}

/// The beacon manager's state: the state it wants the beacons in (idle or
/// active), the beacons it knows keyed by their address, the addresses it
/// heard from but does not know, the measurements of the current state for
/// diagnostics, and whether a health check is pending.
pub struct BeaconManager<D> {
    state: BeaconState,
    beacons: BTreeMap<u64, BeaconStatus>,
    unknown_macs: BTreeSet<u64>,
    diagnostic_data: Vec<TagData<D>>,
    health_check_pending: bool,
}

/// The beacon table is keyed by the address of each beacon.
pub open spec fn keyed(m: Map<u64, BeaconStatus>) -> bool {
    forall|k: u64| #[trigger] m.contains_key(k) ==> mac_key(m[k].realtime.mac_address) == k
}

impl<D> BeaconManager<D> {
    /// The state the manager wants the beacons in.
    pub closed spec fn spec_state(self) -> BeaconState {
        self.state
    }

    /// The beacons known, filed under their addresses read as numbers.
    pub closed spec fn table(self) -> Map<u64, BeaconStatus> {
        self.beacons@
    }

    /// The addresses, read as numbers, of beacons heard from but not found.
    pub closed spec fn unknown(self) -> Set<u64> {
        self.unknown_macs@
    }

    /// The measurements kept for diagnostics, oldest first.
    pub closed spec fn diagnostics(self) -> Seq<TagData<D>> {
        self.diagnostic_data@
    }

    /// Whether a health check is pending.
    pub closed spec fn pending(self) -> bool {
        self.health_check_pending
    }

    /// What every operation keeps: the manager is idle or active, and each
    /// beacon is filed under its own address.
    pub open spec fn consistent(self) -> bool {
        &&& (self.spec_state() == BeaconState::Idle || self.spec_state() == BeaconState::Active)
        &&& keyed(self.table())
    }

    #[verifier::type_invariant]
    closed spec fn inv(self) -> bool {
        self.consistent()
    }
}

impl<D: Copy> BeaconManager<D> {
    /// An idle manager that knows no beacon.
    pub fn new() -> (r: BeaconManager<D>)
        ensures
            r.consistent(),
            r.spec_state() == BeaconState::Idle,
            r.table() == Map::<u64, BeaconStatus>::empty(),
            r.unknown() == Set::<u64>::empty(),
            r.diagnostics() == Seq::<TagData<D>>::empty(),
            !r.pending(),
    {
        BeaconManager {
            state: BeaconState::Idle,
            beacons: BTreeMap::new(),
            unknown_macs: BTreeSet::new(),
            diagnostic_data: Vec::new(),
            health_check_pending: false,
        }
    }

    /// The state the manager wants the beacons in.
    pub fn state(&self) -> (s: BeaconState)
        ensures
            s == self.spec_state(),
            s == BeaconState::Idle || s == BeaconState::Active,
    {
        proof {
            use_type_invariant(self);
        }
        self.state
    }

    /// Whether the system is in an emergency, that is, the manager wants the
    /// beacons active.
    pub fn is_emergency(&self) -> (r: bool)
        ensures
            r == (self.spec_state() == BeaconState::Active),
    {
        match self.state {
            BeaconState::Active => true,
            _ => false,
        }
    }
}


/// Sends a request at `now` to every beacon of the table.
fn arm_table(m: &mut BTreeMap<u64, BeaconStatus>, now: i64)
    requires
        valid_time(now),
    ensures
        final(m)@ == arm_all(old(m)@, now),
{
    let ks = map_keys(m);
    let ghost start = m@;
    let mut i: usize = 0;
    while i < ks.len()
        invariant
            valid_time(now),
            i <= ks@.len(),
            ks@.to_set() == start.dom(),
            ks@.no_duplicates(),
            m@.dom() == start.dom(),
            forall|k: u64| #[trigger] m@.contains_key(k) ==> m@[k] == if ks@.take(i as int).contains(k) { armed(start[k], now) } else { start[k] },
        decreases ks.len() - i,
    {
        let k = ks[i];
        assert(ks@.to_set().contains(k));
        let st = *m.get(&k).unwrap();
        let new_st = match st.retries {
            Some(_) => st,
            None => BeaconStatus { realtime: st.realtime, retries: Some(Retries::new(now)) },
        };
        m.insert(k, new_st);
        proof {
            assert forall|j: u64| #[trigger] m@.contains_key(j) implies m@[j] == if ks@.take(i as int + 1).contains(j) { armed(start[j], now) } else { start[j] } by {
                if j == k {
                    assert(ks@.take(i as int + 1)[i as int] == k);
                    assert(!ks@.take(i as int).contains(k)) by {
                        if ks@.take(i as int).contains(k) {
                            let t = choose|t: int| 0 <= t < i && #[trigger] ks@.take(i as int)[t] == k;
                            assert(ks@[t] == ks@[i as int]);
                        }
                    }
                } else {
                    assert(ks@.take(i as int + 1).contains(j) == ks@.take(i as int).contains(j)) by {
                        if ks@.take(i as int + 1).contains(j) {
                            let t = choose|t: int| 0 <= t < i + 1 && #[trigger] ks@.take(i as int + 1)[t] == j;
                            assert(ks@.take(i as int)[t] == j);
                        }
                        if ks@.take(i as int).contains(j) {
                            let t = choose|t: int| 0 <= t < i && #[trigger] ks@.take(i as int)[t] == j;
                            assert(ks@.take(i as int + 1)[t] == j);
                        }
                    }
                }
            }
            assert(m@.dom() =~= start.dom());
        }
        i = i + 1;
    }
    proof {
        assert(ks@.take(ks@.len() as int) =~= ks@);
        assert forall|k: u64| #[trigger] m@.contains_key(k) implies ks@.contains(k) by {
            assert(ks@.to_set().contains(k));
        }
        assert(m@ =~= arm_all(start, now));
    }
}


/// Sends a request at `now` to one beacon or all, and says what to send.
fn dispatch_request(m: &mut BTreeMap<u64, BeaconStatus>, target: Option<MacAddress8>, kind: RequestKind, now: i64) -> (a: Vec<ManagerAction>)
    requires
        valid_time(now),
    ensures
        final(m)@ == dispatch(old(m)@, target, kind, now).0,
        a@ == dispatch(old(m)@, target, kind, now).1,
{
    match target {
        Some(mac) => {
            let k = mac.key();
            let mut a: Vec<ManagerAction> = Vec::new();
            match m.get(&k) {
                Some(found) => {
                    let st = *found;
                    let new_st = match st.retries {
                        Some(_) => st,
                        None => BeaconStatus { realtime: st.realtime, retries: Some(Retries::new(now)) },
                    };
                    m.insert(k, new_st);
                    a.push(ManagerAction::MassSend(make_beacon_command(kind, Some(st.realtime.ip))));
                    assert(a@ =~= seq![ManagerAction::MassSend(beacon_command(kind, Some(st.realtime.ip)))]);
                },
                None => {
                    assert(a@ =~= Seq::<ManagerAction>::empty());
                },
            }
            a
        },
        None => {
            let mut a: Vec<ManagerAction> = Vec::new();
            a.push(ManagerAction::MassSend(make_beacon_command(kind, None)));
            arm_table(m, now);
            assert(a@ =~= seq![ManagerAction::MassSend(beacon_command(kind, None))]);
            a
        },
    }
}

/// Sending a request to every beacon keeps the same beacons, each filed
/// under its own address.
pub proof fn lemma_arm_all_keyed(m: Map<u64, BeaconStatus>, now: i64)
    requires
        keyed(m),
    ensures
        keyed(arm_all(m, now)),
        arm_all(m, now).dom() == m.dom(),
{
    assert(arm_all(m, now).dom() =~= m.dom());
}

/// Sending a request to one beacon or to all keeps the same beacons, each
/// filed under its own address.
pub proof fn lemma_dispatch_keyed(m: Map<u64, BeaconStatus>, target: Option<MacAddress8>, kind: RequestKind, now: i64)
    requires
        keyed(m),
    ensures
        keyed(dispatch(m, target, kind, now).0),
        dispatch(m, target, kind, now).0.dom() == m.dom(),
{
    lemma_arm_all_keyed(m, now);
    if let Some(mac) = target {
        let k = mac_key(mac);
        if m.contains_key(k) {
            assert(m.insert(k, armed(m[k], now)).dom() =~= m.dom());
        }
    }
}

/// A request to one beacon of the table that has no open request opens
/// one made at `now`: activity from a response threshold before `now` on
/// counts as its answer, and no check has found it open yet. The beacon's
/// run-time record stays, as does every other beacon, and the command is
/// sent to the beacon's address.
pub proof fn lemma_single_request_opens(state: BeaconState, m: Map<u64, BeaconStatus>, cmd: BMCommand, mac: MacAddress8, now: i64)
    requires
        cmd == BMCommand::StartEmergency(Some(mac)) || cmd == BMCommand::EndEmergency(Some(mac)) || cmd
            == BMCommand::Ping(Some(mac)) || cmd == BMCommand::Reboot(Some(mac)),
        m.contains_key(mac_key(mac)),
        m[mac_key(mac)].retries is None,
    ensures
        ({
            let k = mac_key(mac);
            let t = command_outcome(state, m, cmd, now).1;
            &&& t.dom() == m.dom()
            &&& t[k].retries == Some(Retries { expected_response: (now - RESPONSE_THRESHOLD_NS) as i64, retries: 0 })
            &&& t[k].realtime == m[k].realtime
            &&& forall|j: u64| #[trigger] m.contains_key(j) && j != k ==> t[j] == m[j]
            &&& command_outcome(state, m, cmd, now).2.last() == ManagerAction::MassSend(match cmd {
                BMCommand::StartEmergency(_) => BeaconCommand::StartEmergency(Some(m[k].realtime.ip)),
                BMCommand::EndEmergency(_) => BeaconCommand::EndEmergency(Some(m[k].realtime.ip)),
                BMCommand::Ping(_) => BeaconCommand::Ping(Some(m[k].realtime.ip)),
                _ => BeaconCommand::Reboot(Some(m[k].realtime.ip)),
            })
        }),
{
    let k = mac_key(mac);
    assert(command_outcome(state, m, cmd, now).1.dom() =~= m.dom());
}

/// The manager's state, beacon table and first actions after a command.
pub open spec fn command_outcome(state: BeaconState, m: Map<u64, BeaconStatus>, cmd: BMCommand, now: i64) -> (BeaconState, Map<u64, BeaconStatus>, Seq<ManagerAction>) {
    match cmd {
        BMCommand::GetEmergency => (state, m, Seq::empty()),
        BMCommand::ScanBeacons => (state, m, seq![ManagerAction::ScanBeacons]),
        BMCommand::StartEmergency(t) => {
            let d = dispatch(m, t, RequestKind::Start, now);
            if state != BeaconState::Active {
                (BeaconState::Active, d.0, seq![ManagerAction::RestartPinger(PingRate::Emergency)] + d.1)
            } else {
                (state, d.0, d.1)
            }
        },
        BMCommand::EndEmergency(t) => {
            let d = dispatch(m, t, RequestKind::End, now);
            if state != BeaconState::Idle {
                (BeaconState::Idle, d.0, seq![ManagerAction::RestartPinger(PingRate::Normal)] + d.1)
            } else {
                (state, d.0, d.1)
            }
        },
        BMCommand::Ping(t) => {
            let d = dispatch(m, t, RequestKind::Ping, now);
            (state, d.0, d.1)
        },
        BMCommand::Reboot(t) => {
            let d = dispatch(m, t, RequestKind::Reboot, now);
            (state, d.0, d.1)
        },
        BMCommand::SetIp(ip) => (state, arm_all(m, now), seq![ManagerAction::MassSend(BeaconCommand::SetIp(ip))]),
    }
}

/// Whether a command moves the manager to another state, which starts a
/// new collection of diagnostic measurements.
pub open spec fn changes_state(state: BeaconState, cmd: BMCommand) -> bool {
    ||| (cmd is StartEmergency && state != BeaconState::Active)
    ||| (cmd is EndEmergency && state != BeaconState::Idle)
}

/// All the actions after a command: those of the command, then a health
/// check where none is pending.
pub open spec fn command_actions(state: BeaconState, m: Map<u64, BeaconStatus>, cmd: BMCommand, now: i64, pending: bool) -> Seq<ManagerAction> {
    command_outcome(state, m, cmd, now).2 + if pending { Seq::empty() } else { seq![ManagerAction::ScheduleHealthCheck] }
}

/// A manager that is idle or in an emergency stays so under any command:
/// starting an emergency makes it active, ending one makes it idle, every
/// other command keeps its state, and it changes state exactly when the
/// command starts a new collection of diagnostic measurements. With the
/// contract of `handle_command`, the answer then says whether the manager
/// is in an emergency, and a health check is pending afterwards.
pub proof fn lemma_command_state(state: BeaconState, m: Map<u64, BeaconStatus>, cmd: BMCommand, now: i64)
    requires
        state == BeaconState::Idle || state == BeaconState::Active,
    ensures
        command_outcome(state, m, cmd, now).0 == BeaconState::Idle || command_outcome(state, m, cmd, now).0
            == BeaconState::Active,
        cmd is StartEmergency ==> command_outcome(state, m, cmd, now).0 == BeaconState::Active,
        cmd is EndEmergency ==> command_outcome(state, m, cmd, now).0 == BeaconState::Idle,
        !(cmd is StartEmergency || cmd is EndEmergency) ==> command_outcome(state, m, cmd, now).0 == state,
        changes_state(state, cmd) <==> command_outcome(state, m, cmd, now).0 != state,
{
}

impl<D: Copy> BeaconManager<D> {
    /// Handles a command at time `now`: moves to the emergency state or out
    /// of it, sends the request to the beacon named (where the table has
    /// it) or to all, marks the beacons addressed as waiting for an answer
    /// (a beacon already waiting keeps its request), and asks for a health
    /// check where none is pending. Returns the actions and whether the
    /// system is now in an emergency.
    pub fn handle_command(&mut self, cmd: BMCommand, now: i64) -> (r: (Vec<ManagerAction>, bool))
        requires
            valid_time(now),
        ensures
            final(self).consistent(),
            final(self).spec_state() == command_outcome(old(self).spec_state(), old(self).table(), cmd, now).0,
            final(self).table() == command_outcome(old(self).spec_state(), old(self).table(), cmd, now).1,
            r.0@ == command_actions(old(self).spec_state(), old(self).table(), cmd, now, old(self).pending()),
            r.1 == (final(self).spec_state() == BeaconState::Active),
            final(self).unknown() == old(self).unknown(),
            final(self).diagnostics() == if changes_state(old(self).spec_state(), cmd) { Seq::<TagData<D>>::empty() } else { old(self).diagnostics() },
            final(self).pending(),
    {
        proof {
            use_type_invariant(&*self);
        }
        let ghost old_table = self.beacons@;
        let mut table: BTreeMap<u64, BeaconStatus> = BTreeMap::new();
        std::mem::swap(&mut table, &mut self.beacons);
        let mut actions: Vec<ManagerAction> = Vec::new();
        let mut new_state = self.state;
        let mut reset = false;
        match cmd {
            BMCommand::GetEmergency => {},
            BMCommand::ScanBeacons => {
                actions.push(ManagerAction::ScanBeacons);
            },
            BMCommand::StartEmergency(t) => {
                if !self.is_emergency() {
                    new_state = BeaconState::Active;
                    reset = true;
                    actions.push(ManagerAction::RestartPinger(PingRate::Emergency));
                }
                let mut a = dispatch_request(&mut table, t, RequestKind::Start, now);
                actions.append(&mut a);
            },
            BMCommand::EndEmergency(t) => {
                if self.is_emergency() {
                    new_state = BeaconState::Idle;
                    reset = true;
                    actions.push(ManagerAction::RestartPinger(PingRate::Normal));
                }
                let mut a = dispatch_request(&mut table, t, RequestKind::End, now);
                actions.append(&mut a);
            },
            BMCommand::Ping(t) => {
                let mut a = dispatch_request(&mut table, t, RequestKind::Ping, now);
                actions.append(&mut a);
            },
            BMCommand::Reboot(t) => {
                let mut a = dispatch_request(&mut table, t, RequestKind::Reboot, now);
                actions.append(&mut a);
            },
            BMCommand::SetIp(ip) => {
                actions.push(ManagerAction::MassSend(BeaconCommand::SetIp(ip)));
                arm_table(&mut table, now);
            },
        }
        proof {
            match cmd {
                BMCommand::StartEmergency(t) => lemma_dispatch_keyed(old_table, t, RequestKind::Start, now),
                BMCommand::EndEmergency(t) => lemma_dispatch_keyed(old_table, t, RequestKind::End, now),
                BMCommand::Ping(t) => lemma_dispatch_keyed(old_table, t, RequestKind::Ping, now),
                BMCommand::Reboot(t) => lemma_dispatch_keyed(old_table, t, RequestKind::Reboot, now),
                BMCommand::SetIp(_) => lemma_arm_all_keyed(old_table, now),
                _ => {},
            }
        }
        if reset {
            self.diagnostic_data = Vec::new();
        }
        self.state = new_state;
        self.beacons = table;
        let ghost first = actions@;
        if !self.health_check_pending {
            self.health_check_pending = true;
            actions.push(ManagerAction::ScheduleHealthCheck);
        }
        assert(actions@ =~= command_actions(old(self).spec_state(), old_table, cmd, now, old(self).pending()));
        let e = self.is_emergency();
        (actions, e)
    }
}

/// The command that moves a beacon to the manager's state.
pub open spec fn switch_command(state: BeaconState, mac: MacAddress8) -> BMCommand {
    if state == BeaconState::Active {
        BMCommand::StartEmergency(Some(mac))
    } else {
        BMCommand::EndEmergency(Some(mac))
    }
}

/// A retry counter advanced by one check (wrapping at the top of `u32`).
pub open spec fn next_count(n: u32) -> u32 {
    if n == u32::MAX {
        0
    } else {
        (n + 1) as u32
    }
}

/// The health check of one beacon while the manager is in `state`: the
/// beacon's new status, the command to issue for it, if any, and whether it
/// is still waiting for an answer.
///
/// A beacon with no open request is left alone. Otherwise its counter
/// advances. A beacon that was active since the request answered: it is
/// done if it is in the manager's state, else it is told to switch. A
/// beacon that did not answer is rebooted once its counter passes the
/// threshold, and given up as unknown if it was already rebooting; below
/// the threshold it is pinged again if it is in the manager's state, left
/// alone while it reboots, and told to switch otherwise.
pub open spec fn health_step(state: BeaconState, st: BeaconStatus) -> (BeaconStatus, Option<BMCommand>, bool) {
    match st.retries {
        None => (st, None, false),
        Some(r) => {
            let advanced = Retries { expected_response: r.expected_response, retries: next_count(r.retries) };
            let mac = st.realtime.mac_address;
            if st.realtime.last_active > r.expected_response {
                if state == st.realtime.state {
                    (BeaconStatus { realtime: st.realtime, retries: None }, None, false)
                } else {
                    (BeaconStatus { realtime: st.realtime, retries: Some(advanced) }, Some(switch_command(state, mac)), false)
                }
            } else if advanced.retries > RETRIES_THRESHOLD {
                if st.realtime.state == BeaconState::Rebooting {
                    (BeaconStatus { realtime: RealtimeBeacon { state: BeaconState::Unknown, ..st.realtime }, retries: None }, None, true)
                } else {
                    (BeaconStatus {
                        realtime: RealtimeBeacon { state: BeaconState::Rebooting, ..st.realtime },
                        retries: Some(Retries { expected_response: r.expected_response, retries: 0 }),
                    }, Some(BMCommand::Reboot(Some(mac))), true)
                }
            } else if st.realtime.state == state {
                (BeaconStatus { realtime: st.realtime, retries: Some(advanced) }, Some(BMCommand::Ping(Some(mac))), true)
            } else if st.realtime.state == BeaconState::Rebooting {
                (BeaconStatus { realtime: st.realtime, retries: Some(advanced) }, None, true)
            } else {
                (BeaconStatus { realtime: st.realtime, retries: Some(advanced) }, Some(switch_command(state, mac)), true)
            }
        },
    }
}

/// A beacon that has not answered its open request, whose check count is
/// below the reboot threshold, and that is neither in the manager's state
/// nor rebooting, is told to switch to the manager's state: to start the
/// emergency when the manager is active, to end it when idle. It stays
/// waiting, with its count advanced by one and the same deadline.
pub proof fn lemma_silent_beacon_told_to_switch(state: BeaconState, st: BeaconStatus)
    requires
        state == BeaconState::Idle || state == BeaconState::Active,
        st.retries matches Some(r) && st.realtime.last_active <= r.expected_response && r.retries < RETRIES_THRESHOLD,
        st.realtime.state != state,
        st.realtime.state != BeaconState::Rebooting,
    ensures
        health_step(state, st).1 == Some(
            if state == BeaconState::Active {
                BMCommand::StartEmergency(Some(st.realtime.mac_address))
            } else {
                BMCommand::EndEmergency(Some(st.realtime.mac_address))
            },
        ),
        health_step(state, st).2,
        health_step(state, st).0.realtime == st.realtime,
        health_step(state, st).0.retries matches Some(q) && q.retries == st.retries->0.retries + 1
            && q.expected_response == st.retries->0.expected_response,
{
}

fn same_state(a: BeaconState, b: BeaconState) -> (r: bool)
    ensures
        r == (a == b),
{
    match (a, b) {
        (BeaconState::Unknown, BeaconState::Unknown) => true,
        (BeaconState::Idle, BeaconState::Idle) => true,
        (BeaconState::Rebooting, BeaconState::Rebooting) => true,
        (BeaconState::Active, BeaconState::Active) => true,
        _ => false,
    }
}

fn check_one(state: BeaconState, st: BeaconStatus) -> (r: (BeaconStatus, Option<BMCommand>, bool))
    requires
        state == BeaconState::Idle || state == BeaconState::Active,
    ensures
        r == health_step(state, st),
{
    match st.retries {
        None => (st, None, false),
        Some(r) => {
            let advanced = Retries { expected_response: r.expected_response, retries: r.retries.wrapping_add(1) };
            let mac = st.realtime.mac_address;
            let switch = if same_state(state, BeaconState::Active) {
                BMCommand::StartEmergency(Some(mac))
            } else {
                BMCommand::EndEmergency(Some(mac))
            };
            if st.realtime.last_active > r.expected_response {
                if same_state(state, st.realtime.state) {
                    (BeaconStatus { realtime: st.realtime, retries: None }, None, false)
                } else {
                    (BeaconStatus { realtime: st.realtime, retries: Some(advanced) }, Some(switch), false)
                }
            } else if advanced.retries > RETRIES_THRESHOLD {
                if same_state(st.realtime.state, BeaconState::Rebooting) {
                    let mut rt = st.realtime;
                    rt.state = BeaconState::Unknown;
                    (BeaconStatus { realtime: rt, retries: None }, None, true)
                } else {
                    let mut rt = st.realtime;
                    rt.state = BeaconState::Rebooting;
                    (BeaconStatus { realtime: rt, retries: Some(Retries { expected_response: r.expected_response, retries: 0 }) },
                        Some(BMCommand::Reboot(Some(mac))), true)
                }
            } else if same_state(st.realtime.state, state) {
                (BeaconStatus { realtime: st.realtime, retries: Some(advanced) }, Some(BMCommand::Ping(Some(mac))), true)
            } else if same_state(st.realtime.state, BeaconState::Rebooting) {
                (BeaconStatus { realtime: st.realtime, retries: Some(advanced) }, None, true)
            } else {
                (BeaconStatus { realtime: st.realtime, retries: Some(advanced) }, Some(switch), true)
            }
        },
    }
}

/// The beacon table after a health check.
pub open spec fn checked_table(state: BeaconState, m: Map<u64, BeaconStatus>) -> Map<u64, BeaconStatus> {
    Map::new(|k: u64| m.contains_key(k), |k: u64| health_step(state, m[k]).0)
}

/// Whether some beacon is still waiting for an answer after a health check.
pub open spec fn any_waiting(state: BeaconState, m: Map<u64, BeaconStatus>) -> bool {
    exists|k: u64| m.contains_key(k) && #[trigger] health_step(state, m[k]).2
}

/// The result of a health check: for each beacon of the table, once and
/// in increasing order of its key, the key and the command to issue for
/// it, if any; and whether another check is to follow.
pub struct HealthReport {
    pub commands: Vec<(u64, Option<BMCommand>)>,
    pub reschedule: bool,
}

impl<D: Copy> BeaconManager<D> {
    /// Checks every beacon that waits for an answer (see `health_step`).
    /// Another check is pending afterwards exactly when some beacon is still
    /// waiting; the caller schedules it when `reschedule` is set.
    pub fn check_health(&mut self) -> (r: HealthReport)
        ensures
            final(self).consistent(),
            final(self).spec_state() == old(self).spec_state(),
            final(self).table() == checked_table(old(self).spec_state(), old(self).table()),
            r.commands@.len() == old(self).table().dom().len(),
            r.commands@.map_values(|c: (u64, Option<BMCommand>)| c.0).to_set() == old(self).table().dom(),
            r.commands@.map_values(|c: (u64, Option<BMCommand>)| c.0).no_duplicates(),
            forall|i: int, j: int| 0 <= i < j < r.commands@.len() ==> r.commands@[i].0 < r.commands@[j].0,
            forall|i: int| 0 <= i < r.commands@.len() ==> (#[trigger] r.commands@[i]).1 == health_step(old(self).spec_state(), old(self).table()[r.commands@[i].0]).1,
            r.reschedule == any_waiting(old(self).spec_state(), old(self).table()),
            final(self).pending() == r.reschedule,
            final(self).unknown() == old(self).unknown(),
            final(self).diagnostics() == old(self).diagnostics(),
    {
        proof {
            use_type_invariant(&*self);
        }
        let state = self.state;
        let mut table: BTreeMap<u64, BeaconStatus> = BTreeMap::new();
        std::mem::swap(&mut table, &mut self.beacons);
        let ghost start = table@;
        let ks = map_keys(&table);
        let mut commands: Vec<(u64, Option<BMCommand>)> = Vec::new();
        let mut waiting = false;
        let mut i: usize = 0;
        while i < ks.len()
            invariant
                state == BeaconState::Idle || state == BeaconState::Active,
                keyed(start),
                i <= ks@.len(),
                ks@.to_set() == start.dom(),
                ks@.no_duplicates(),
                table@.dom() == start.dom(),
                forall|k: u64| #[trigger] table@.contains_key(k) ==> table@[k] == if ks@.take(i as int).contains(k) { health_step(state, start[k]).0 } else { start[k] },
                commands@.len() == i,
                forall|j: int| 0 <= j < i ==> (#[trigger] commands@[j]).0 == ks@[j] && commands@[j].1 == health_step(state, start[ks@[j]]).1,
                waiting == exists|j: int| 0 <= j < i && #[trigger] health_step(state, start[ks@[j]]).2,
            decreases ks.len() - i,
        {
            let k = ks[i];
            assert(ks@.to_set().contains(k));
            let st = *table.get(&k).unwrap();
            assert(!ks@.take(i as int).contains(k)) by {
                if ks@.take(i as int).contains(k) {
                    let t = choose|t: int| 0 <= t < i && #[trigger] ks@.take(i as int)[t] == k;
                    assert(ks@[t] == ks@[i as int]);
                }
            }
            let (new_st, cmd, still) = check_one(state, st);
            table.insert(k, new_st);
            commands.push((k, cmd));
            let ghost was = waiting;
            waiting = waiting || still;
            proof {
                assert(waiting == exists|j: int| 0 <= j < i + 1 && #[trigger] health_step(state, start[ks@[j]]).2) by {
                    if still {
                        assert(health_step(state, start[ks@[i as int]]).2);
                    }
                    if exists|j: int| 0 <= j < i + 1 && #[trigger] health_step(state, start[ks@[j]]).2 {
                        let j = choose|j: int| 0 <= j < i + 1 && #[trigger] health_step(state, start[ks@[j]]).2;
                        if j < i {
                            assert(was);
                        }
                    }
                }
                assert forall|j: u64| #[trigger] table@.contains_key(j) implies table@[j] == if ks@.take(i as int + 1).contains(j) { health_step(state, start[j]).0 } else { start[j] } by {
                    if j == k {
                        assert(ks@.take(i as int + 1)[i as int] == k);
                    } else {
                        assert(ks@.take(i as int + 1).contains(j) == ks@.take(i as int).contains(j)) by {
                            if ks@.take(i as int + 1).contains(j) {
                                let t = choose|t: int| 0 <= t < i + 1 && #[trigger] ks@.take(i as int + 1)[t] == j;
                                assert(ks@.take(i as int)[t] == j);
                            }
                            if ks@.take(i as int).contains(j) {
                                let t = choose|t: int| 0 <= t < i && #[trigger] ks@.take(i as int)[t] == j;
                                assert(ks@.take(i as int + 1)[t] == j);
                            }
                        }
                    }
                }
                assert(table@.dom() =~= start.dom());
            }
            i = i + 1;
        }
        proof {
            assert(ks@.take(ks@.len() as int) =~= ks@);
            assert forall|k: u64| #[trigger] table@.contains_key(k) implies ks@.contains(k) by {
                assert(ks@.to_set().contains(k));
            }
            assert(table@ =~= checked_table(state, start));
            assert(commands@.map_values(|c: (u64, Option<BMCommand>)| c.0) =~= ks@);
            assert forall|a: int, b: int| 0 <= a < b < commands@.len() implies commands@[a].0 < commands@[b].0 by {
                assert(ks@[a] < ks@[b]);
            }
            ks@.unique_seq_to_set();
            assert(waiting == any_waiting(state, start)) by {
                if waiting {
                    let j = choose|j: int| 0 <= j < ks@.len() && #[trigger] health_step(state, start[ks@[j]]).2;
                    assert(start.contains_key(ks@[j])) by {
                        assert(ks@.to_set().contains(ks@[j]));
                    }
                }
                if any_waiting(state, start) {
                    let k = choose|k: u64| start.contains_key(k) && #[trigger] health_step(state, start[k]).2;
                    assert(ks@.to_set().contains(k));
                    let j = choose|j: int| 0 <= j < ks@.len() && ks@[j] == k;
                    assert(health_step(state, start[ks@[j]]).2);
                }
            }
            assert forall|k: u64| #[trigger] table@.contains_key(k) implies mac_key(table@[k].realtime.mac_address) == k by {
                assert(start.contains_key(k));
            }
        }
        self.beacons = table;
        self.health_check_pending = waiting;
        HealthReport { commands, reschedule: waiting }
    }
}

/// A beacon heard from at `now` from address `ip`, now in `new_state` where
/// the message tells it.
pub open spec fn heard(st: BeaconStatus, ip: IpAddress, now: i64, new_state: Option<BeaconState>) -> BeaconStatus {
    BeaconStatus {
        realtime: RealtimeBeacon {
            ip,
            last_active: now,
            state: match new_state {
                Some(s) => s,
                None => st.realtime.state,
            },
            ..st.realtime
        },
        retries: st.retries,
    }
}

/// The sender, its address and the state it reports for a message other
/// than a measurement.
pub open spec fn reply_parts<D>(msg: BMResponse<D>) -> (IpAddress, MacAddress8, Option<BeaconState>) {
    match msg {
        BMResponse::Start(ip, mac) => (ip, mac, Some(BeaconState::Active)),
        BMResponse::End(ip, mac) => (ip, mac, Some(BeaconState::Idle)),
        BMResponse::Ping(ip, mac) => (ip, mac, None),
        BMResponse::Reboot(ip, mac) => (ip, mac, Some(BeaconState::Rebooting)),
        BMResponse::SetIp(ip, mac) => (ip, mac, None),
        BMResponse::TagData(ip, t) => (ip, t.beacon_mac, None),
    }
}

/// The table after a reply (other than a measurement) from a beacon of the
/// table `m`, received at `now`.
pub open spec fn answered<D>(m: Map<u64, BeaconStatus>, msg: BMResponse<D>, now: i64) -> Map<u64, BeaconStatus> {
    let (ip, mac, new_state) = reply_parts(msg);
    let k = mac_key(mac);
    m.insert(k, heard(m[k], ip, now, new_state))
}

/// `msg` is a reply, other than a measurement, from the beacon with address
/// `mac` sent from `ip`.
pub open spec fn reply_from<D>(msg: BMResponse<D>, ip: IpAddress, mac: MacAddress8) -> bool {
    match msg {
        BMResponse::Start(i, a) => i == ip && a == mac,
        BMResponse::End(i, a) => i == ip && a == mac,
        BMResponse::Ping(i, a) => i == ip && a == mac,
        BMResponse::Reboot(i, a) => i == ip && a == mac,
        BMResponse::SetIp(i, a) => i == ip && a == mac,
        BMResponse::TagData(_, _) => false,
    }
}

/// A reply from a beacon of the table records the address it came from
/// and the time it arrived, and leaves the beacon in the state the reply
/// reports: active after a start, idle after an end, rebooting after a
/// reboot; a ping or an address reply keeps its state. Its address, key
/// and open request stay, and every other beacon stays as it was.
pub proof fn lemma_reply_state<D>(m: Map<u64, BeaconStatus>, msg: BMResponse<D>, ip: IpAddress, mac: MacAddress8, now: i64)
    requires
        reply_from(msg, ip, mac),
        m.contains_key(mac_key(mac)),
    ensures
        ({
            let k = mac_key(mac);
            let t = answered(m, msg, now);
            &&& t.dom() == m.dom()
            &&& t[k].realtime.ip == ip
            &&& t[k].realtime.last_active == now
            &&& t[k].realtime.mac_address == m[k].realtime.mac_address
            &&& t[k].realtime.id == m[k].realtime.id
            &&& t[k].retries == m[k].retries
            &&& t[k].realtime.state == match msg {
                BMResponse::Start(_, _) => BeaconState::Active,
                BMResponse::End(_, _) => BeaconState::Idle,
                BMResponse::Reboot(_, _) => BeaconState::Rebooting,
                _ => m[k].realtime.state,
            }
            &&& forall|j: u64| #[trigger] m.contains_key(j) && j != k ==> t[j] == m[j]
        }),
{
    let k = mac_key(mac);
    assert(answered(m, msg, now).dom() =~= m.dom());
}

fn record_heard(st: BeaconStatus, ip: IpAddress, now: i64, new_state: Option<BeaconState>) -> (r: BeaconStatus)
    ensures
        r == heard(st, ip, now, new_state),
{
    let mut rt = st.realtime;
    rt.ip = ip;
    rt.last_active = now;
    match new_state {
        Some(s) => {
            rt.state = s;
        },
        None => {},
    }
    BeaconStatus { realtime: rt, retries: st.retries }
}

impl<D: Copy> BeaconManager<D> {
    /// Handles a message from a beacon received at `now`.
    ///
    /// A reply from a beacon in the table records the address it came from
    /// and the time, and the state it reports (active after a start, idle
    /// after an end, rebooting after a reboot); a reply from a beacon not in
    /// the table asks the caller to look it up. A measurement through a
    /// beacon in the table is kept for diagnostics and forwarded, and counts
    /// as activity, when `distance_plausible` says its distance is below
    /// the plausibility limit (50 m; the comparison is the caller's, on the
    /// floating-point distance); otherwise it is dropped. A measurement
    /// through a beacon not in the table files the beacon's address as
    /// unknown.
    pub fn handle_response(&mut self, msg: BMResponse<D>, now: i64, distance_plausible: bool) -> (r: ResponseAction<D>)
        ensures
            final(self).consistent(),
            final(self).spec_state() == old(self).spec_state(),
            final(self).pending() == old(self).pending(),
            ({
                let (ip, mac, new_state) = reply_parts(msg);
                let k = mac_key(mac);
                let m = old(self).table();
                match msg {
                    BMResponse::TagData(_, t) => if m.contains_key(k) {
                        if distance_plausible {
                            &&& final(self).table() == m.insert(k, heard(m[k], ip, now, None))
                            &&& final(self).diagnostics() == old(self).diagnostics().push(t)
                            &&& final(self).unknown() == old(self).unknown()
                            &&& r == ResponseAction::ForwardTagData(t)
                        } else {
                            &&& final(self).table() == m
                            &&& final(self).diagnostics() == old(self).diagnostics()
                            &&& final(self).unknown() == old(self).unknown()
                            &&& r == ResponseAction::<D>::Nothing
                        }
                    } else {
                        &&& final(self).table() == m
                        &&& final(self).diagnostics() == old(self).diagnostics()
                        &&& final(self).unknown() == old(self).unknown().insert(k)
                        &&& r == ResponseAction::<D>::Nothing
                    },
                    _ => if m.contains_key(k) {
                        &&& final(self).table() == answered(m, msg, now)
                        &&& final(self).diagnostics() == old(self).diagnostics()
                        &&& final(self).unknown() == old(self).unknown()
                        &&& r == ResponseAction::<D>::Nothing
                    } else {
                        &&& final(self).table() == m
                        &&& final(self).diagnostics() == old(self).diagnostics()
                        &&& final(self).unknown() == old(self).unknown()
                        &&& r == ResponseAction::<D>::LookUpBeacon(mac)
                    },
                }
            }),
    {
        proof {
            use_type_invariant(&*self);
        }
        let (ip, mac, new_state, data) = match msg {
            BMResponse::Start(ip, mac) => (ip, mac, Some(BeaconState::Active), None),
            BMResponse::End(ip, mac) => (ip, mac, Some(BeaconState::Idle), None),
            BMResponse::Ping(ip, mac) => (ip, mac, None, None),
            BMResponse::Reboot(ip, mac) => (ip, mac, Some(BeaconState::Rebooting), None),
            BMResponse::SetIp(ip, mac) => (ip, mac, None, None),
            BMResponse::TagData(ip, t) => (ip, t.beacon_mac, None, Some(t)),
        };
        let k = mac.key();
        let found = match self.beacons.get(&k) {
            Some(st) => Some(*st),
            None => None,
        };
        match (found, data) {
            (Some(st), None) => {
                let new_st = record_heard(st, ip, now, new_state);
                let mut table: BTreeMap<u64, BeaconStatus> = BTreeMap::new();
                std::mem::swap(&mut table, &mut self.beacons);
                let ghost m = table@;
                table.insert(k, new_st);
                proof {
                    assert forall|j: u64| #[trigger] table@.contains_key(j) implies mac_key(table@[j].realtime.mac_address) == j by {
                        if j != k {
                            assert(m.contains_key(j));
                        }
                    }
                }
                self.beacons = table;
                ResponseAction::Nothing
            },
            (None, None) => ResponseAction::LookUpBeacon(mac),
            (Some(st), Some(t)) => {
                if distance_plausible {
                    let mut diag: Vec<TagData<D>> = Vec::new();
                    std::mem::swap(&mut diag, &mut self.diagnostic_data);
                    diag.push(t);
                    self.diagnostic_data = diag;
                    let new_st = record_heard(st, ip, now, None);
                    let mut table: BTreeMap<u64, BeaconStatus> = BTreeMap::new();
                    std::mem::swap(&mut table, &mut self.beacons);
                    let ghost m = table@;
                    table.insert(k, new_st);
                    proof {
                        assert forall|j: u64| #[trigger] table@.contains_key(j) implies mac_key(table@[j].realtime.mac_address) == j by {
                            if j != k {
                                assert(m.contains_key(j));
                            }
                        }
                    }
                    self.beacons = table;
                    ResponseAction::ForwardTagData(t)
                } else {
                    ResponseAction::Nothing
                }
            },
            (None, Some(_)) => {
                let mut unknown: BTreeSet<u64> = BTreeSet::new();
                std::mem::swap(&mut unknown, &mut self.unknown_macs);
                unknown.insert(k);
                self.unknown_macs = unknown;
                ResponseAction::Nothing
            },
        }
    }
}

/// The table after storing beacons read from the database, in order; a
/// later beacon with the same address replaces an earlier one. Each starts
/// with no open request.
pub open spec fn loaded(m: Map<u64, BeaconStatus>, s: Seq<RealtimeBeacon>) -> Map<u64, BeaconStatus>
    decreases s.len(),
{
    if s.len() == 0 {
        m
    } else {
        loaded(m, s.drop_last()).insert(mac_key(s.last().mac_address), BeaconStatus { realtime: s.last(), retries: None })
    }
}

proof fn lemma_loaded_keyed(m: Map<u64, BeaconStatus>, s: Seq<RealtimeBeacon>)
    requires
        keyed(m),
    ensures
        keyed(loaded(m, s)),
    decreases s.len(),
{
    if s.len() > 0 {
        lemma_loaded_keyed(m, s.drop_last());
        let p = loaded(m, s.drop_last());
        let k = mac_key(s.last().mac_address);
        assert forall|j: u64| #[trigger] loaded(m, s).contains_key(j) implies mac_key(loaded(m, s)[j].realtime.mac_address) == j by {
            if j != k {
                assert(p.contains_key(j));
            }
        }
    }
}

impl<D: Copy> BeaconManager<D> {
    /// Stores the beacons read from the database at start-up, each with no
    /// open request, and returns the command that pings them all.
    pub fn load_beacons(&mut self, beacons: Vec<RealtimeBeacon>) -> (c: BMCommand)
        ensures
            final(self).consistent(),
            final(self).table() == loaded(old(self).table(), beacons@),
            final(self).spec_state() == old(self).spec_state(),
            final(self).unknown() == old(self).unknown(),
            final(self).diagnostics() == old(self).diagnostics(),
            final(self).pending() == old(self).pending(),
            c == BMCommand::Ping(None),
    {
        proof {
            use_type_invariant(&*self);
        }
        let mut table: BTreeMap<u64, BeaconStatus> = BTreeMap::new();
        std::mem::swap(&mut table, &mut self.beacons);
        let ghost start = table@;
        let mut i: usize = 0;
        while i < beacons.len()
            invariant
                i <= beacons@.len(),
                keyed(start),
                table@ == loaded(start, beacons@.take(i as int)),
            decreases beacons.len() - i,
        {
            let b = beacons[i];
            let k = b.mac_address.key();
            table.insert(k, BeaconStatus { realtime: b, retries: None });
            assert(beacons@.take(i as int + 1).drop_last() =~= beacons@.take(i as int));
            i = i + 1;
        }
        assert(beacons@.take(beacons@.len() as int) =~= beacons@);
        proof {
            lemma_loaded_keyed(start, beacons@);
        }
        self.beacons = table;
        BMCommand::Ping(None)
    }

    /// Takes in the result of looking up a beacon that sent a message while
    /// not in the table: a beacon found is stored, with no open request,
    /// and pinged; otherwise (not found, or the lookup failed) its address
    /// is filed as unknown.
    pub fn beacon_found(&mut self, mac: MacAddress8, found: Option<RealtimeBeacon>) -> (c: Option<BMCommand>)
        ensures
            final(self).consistent(),
            final(self).spec_state() == old(self).spec_state(),
            final(self).diagnostics() == old(self).diagnostics(),
            final(self).pending() == old(self).pending(),
            match found {
                Some(b) => {
                    &&& final(self).table() == old(self).table().insert(mac_key(b.mac_address), BeaconStatus { realtime: b, retries: None })
                    &&& final(self).unknown() == old(self).unknown()
                    &&& c == Some(BMCommand::Ping(Some(mac)))
                },
                None => {
                    &&& final(self).table() == old(self).table()
                    &&& final(self).unknown() == old(self).unknown().insert(mac_key(mac))
                    &&& c is None
                },
            },
    {
        proof {
            use_type_invariant(&*self);
        }
        match found {
            Some(b) => {
                let mut table: BTreeMap<u64, BeaconStatus> = BTreeMap::new();
                std::mem::swap(&mut table, &mut self.beacons);
                let ghost m = table@;
                let k = b.mac_address.key();
                table.insert(k, BeaconStatus { realtime: b, retries: None });
                proof {
                    assert forall|j: u64| #[trigger] table@.contains_key(j) implies mac_key(table@[j].realtime.mac_address) == j by {
                        if j != k {
                            assert(m.contains_key(j));
                        }
                    }
                }
                self.beacons = table;
                Some(BMCommand::Ping(Some(mac)))
            },
            None => {
                let mut unknown: BTreeSet<u64> = BTreeSet::new();
                std::mem::swap(&mut unknown, &mut self.unknown_macs);
                unknown.insert(mac.key());
                self.unknown_macs = unknown;
                None
            },
        }
    }

    /// Hands out the measurements kept for diagnostics since the last call
    /// and forgets them.
    pub fn take_diagnostics(&mut self) -> (r: Vec<TagData<D>>)
        ensures
            r@ == old(self).diagnostics(),
            final(self).diagnostics() == Seq::<TagData<D>>::empty(),
            final(self).consistent(),
            final(self).spec_state() == old(self).spec_state(),
            final(self).table() == old(self).table(),
            final(self).unknown() == old(self).unknown(),
            final(self).pending() == old(self).pending(),
    {
        proof {
            use_type_invariant(&*self);
        }
        let mut r: Vec<TagData<D>> = Vec::new();
        std::mem::swap(&mut r, &mut self.diagnostic_data);
        r
    }

    /// What the manager knows of each beacon: one entry per beacon of the
    /// table, in the increasing order of the beacons' numbers.
    pub fn realtime_beacons(&self) -> (r: Vec<RealtimeBeacon>)
        ensures
            r@.map_values(|b: RealtimeBeacon| mac_key(b.mac_address)).to_set() == self.table().dom(),
            r@.map_values(|b: RealtimeBeacon| mac_key(b.mac_address)).no_duplicates(),
            r@.len() == self.table().dom().len(),
            forall|i: int| 0 <= i < r@.len() ==> #[trigger] r@[i] == self.table()[mac_key(r@[i].mac_address)].realtime,
            forall|i: int, j: int| 0 <= i < j < r@.len() ==> mac_key(r@[i].mac_address) < mac_key(r@[j].mac_address),
    {
        proof {
            use_type_invariant(self);
        }
        let ks = map_keys(&self.beacons);
        let mut r: Vec<RealtimeBeacon> = Vec::new();
        let mut i: usize = 0;
        while i < ks.len()
            invariant
                i <= ks@.len(),
                ks@.to_set() == self.beacons@.dom(),
                keyed(self.beacons@),
                r@.len() == i,
                forall|j: int| 0 <= j < i ==> #[trigger] r@[j] == self.beacons@[ks@[j]].realtime,
                forall|j: int| 0 <= j < i ==> mac_key((#[trigger] r@[j]).mac_address) == ks@[j],
            decreases ks.len() - i,
        {
            let k = ks[i];
            assert(ks@.to_set().contains(k));
            let st = self.beacons.get(&k).unwrap();
            r.push(st.realtime);
            i = i + 1;
        }
        proof {
            assert(r@.map_values(|b: RealtimeBeacon| mac_key(b.mac_address)) =~= ks@);
            ks@.unique_seq_to_set();
            assert forall|a: int, b: int| 0 <= a < b < r@.len() implies mac_key(r@[a].mac_address) < mac_key(r@[b].mac_address) by {
                assert(ks@[a] < ks@[b]);
            }
        }
        r
    }

    /// The addresses of beacons heard from but not found in the database,
    /// read as numbers, in increasing order.
    pub fn unknown_beacons(&self) -> (r: Vec<u64>)
        ensures
            r@.to_set() == self.unknown(),
            r@.no_duplicates(),
            forall|i: int, j: int| 0 <= i < j < r@.len() ==> r@[i] < r@[j],
    {
        set_keys(&self.unknown_macs)
    }
}

/// A beacon's status after `n` health checks while the manager is in
/// `state`.
pub open spec fn checked_times(state: BeaconState, st: BeaconStatus, n: nat) -> BeaconStatus
    decreases n,
{
    if n == 0 {
        st
    } else {
        checked_times(state, health_step(state, st).0, (n - 1) as nat)
    }
}

/// A beacon that answers a request, by any message received after the
/// request's deadline that leaves it in the manager's state, has the
/// request closed by the next health check, with no command for it.
pub proof fn lemma_answer_closes_request(state: BeaconState, st: BeaconStatus, ip: IpAddress, now: i64, new_state: Option<BeaconState>)
    requires
        st.retries matches Some(r) && now > r.expected_response,
        heard(st, ip, now, new_state).realtime.state == state,
    ensures
        health_step(state, heard(st, ip, now, new_state)).0.retries is None,
        health_step(state, heard(st, ip, now, new_state)).1 is None,
        !health_step(state, heard(st, ip, now, new_state)).2,
{
}

/// A command never replaces a request that is still open: every beacon
/// that waits for an answer keeps its status.
pub proof fn lemma_command_keeps_open_requests(state: BeaconState, m: Map<u64, BeaconStatus>, cmd: BMCommand, now: i64, k: u64)
    requires
        m.contains_key(k),
        m[k].retries is Some,
    ensures
        command_outcome(state, m, cmd, now).1.contains_key(k),
        command_outcome(state, m, cmd, now).1[k] == m[k],
{
}

/// Starting an emergency and then ending it leaves the manager idle, with
/// the normal ping rate restored.
pub proof fn lemma_end_undoes_start(state: BeaconState, m: Map<u64, BeaconStatus>, t1: Option<MacAddress8>, t2: Option<MacAddress8>, now1: i64, now2: i64)
    requires
        state == BeaconState::Idle || state == BeaconState::Active,
    ensures
        ({
            let started = command_outcome(state, m, BMCommand::StartEmergency(t1), now1);
            let ended = command_outcome(started.0, started.1, BMCommand::EndEmergency(t2), now2);
            &&& started.0 == BeaconState::Active
            &&& ended.0 == BeaconState::Idle
            &&& ended.2[0] == ManagerAction::RestartPinger(PingRate::Normal)
        }),
{
}

/// A beacon that stays silent after a request, while in the manager's
/// state, is pinged at each of the next four health checks, rebooted at
/// the fifth and, still silent, given up as unknown at the fifth check
/// after that.
pub proof fn lemma_silent_beacon(state: BeaconState, st: BeaconStatus, e: i64)
    requires
        state == BeaconState::Idle || state == BeaconState::Active,
        st.retries == Some(Retries { expected_response: e, retries: 0 }),
        st.realtime.last_active <= e,
        st.realtime.state == state,
    ensures
        forall|n: nat| 0 <= n < 4 ==> {
            &&& (#[trigger] checked_times(state, st, n)).realtime.state == state
            &&& health_step(state, checked_times(state, st, n)).1 == Some(BMCommand::Ping(Some(st.realtime.mac_address)))
        },
        health_step(state, checked_times(state, st, 4)).1 == Some(BMCommand::Reboot(Some(st.realtime.mac_address))),
        checked_times(state, st, 5).realtime.state == BeaconState::Rebooting,
        checked_times(state, st, 9).realtime.state == BeaconState::Rebooting,
        checked_times(state, st, 10).realtime.state == BeaconState::Unknown,
        checked_times(state, st, 10).retries is None,
{
    let mac = st.realtime.mac_address;
    let s1 = health_step(state, st).0;
    let s2 = health_step(state, s1).0;
    let s3 = health_step(state, s2).0;
    let s4 = health_step(state, s3).0;
    let s5 = health_step(state, s4).0;
    let s6 = health_step(state, s5).0;
    let s7 = health_step(state, s6).0;
    let s8 = health_step(state, s7).0;
    let s9 = health_step(state, s8).0;
    let s10 = health_step(state, s9).0;
    assert(s4.retries == Some(Retries { expected_response: e, retries: 4 }) && s4.realtime.state == state);
    assert(s5.retries == Some(Retries { expected_response: e, retries: 0 }) && s5.realtime.state == BeaconState::Rebooting);
    assert(s9.retries == Some(Retries { expected_response: e, retries: 4 }) && s9.realtime.state == BeaconState::Rebooting);
    assert(s10.realtime.state == BeaconState::Unknown && s10.retries is None);
    assert(checked_times(state, st, 10) == s10) by {
        reveal_with_fuel(checked_times, 11);
    }
    assert(checked_times(state, st, 9) == s9) by {
        reveal_with_fuel(checked_times, 10);
    }
    assert(checked_times(state, st, 5) == s5) by {
        reveal_with_fuel(checked_times, 6);
    }
    assert(checked_times(state, st, 4) == s4) by {
        reveal_with_fuel(checked_times, 5);
    }
    assert forall|n: nat| 0 <= n < 4 implies {
        &&& (#[trigger] checked_times(state, st, n)).realtime.state == state
        &&& health_step(state, checked_times(state, st, n)).1 == Some(BMCommand::Ping(Some(mac)))
    } by {
        reveal_with_fuel(checked_times, 5);
        if n == 0 {
            assert(checked_times(state, st, 0) == st);
        } else if n == 1 {
            assert(checked_times(state, st, 1) == s1);
        } else if n == 2 {
            assert(checked_times(state, st, 2) == s2);
        } else {
            assert(checked_times(state, st, 3) == s3);
        }
    }
}

} // verus!
