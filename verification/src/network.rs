use vstd::prelude::*;

verus! {

/// An IP address: version 4 as a 32-bit number, version 6 as a 128-bit
/// number (both in network order, most significant byte first).
#[derive(Copy, Clone, Debug, PartialEq, Eq, Structural)]
pub enum IpAddress {
    V4(u32),
    V6(u128),
}

/// The host bits of an IPv4 network with the given prefix length.
pub open spec fn host_mask(prefix_len: u8) -> u32 {
    if prefix_len < 32 {
        u32::MAX >> prefix_len
    } else {
        0
    }
}

/// Checks an IPv4 network through `ipnet::Ipv4Net::new`, which accepts a
/// prefix length of at most 32 and refuses any other.
#[verifier::external_body]
fn ipv4_net_accepts(addr: u32, prefix_len: u8) -> (r: bool)
    ensures
        r == (prefix_len <= 32),
{
    ipnet::Ipv4Net::new(addr.into(), prefix_len).is_ok()
}

/// The broadcast address of the IPv4 network `addr/prefix_len`, from
/// `ipnet::Ipv4Net::broadcast`, which sets every host bit of the address:
/// `addr | (u32::MAX >> prefix_len)`, with no host bits for a /32.
#[verifier::external_body]
fn ipv4_broadcast(addr: u32, prefix_len: u8) -> (r: u32)
    requires
        prefix_len <= 32,
    ensures
        r == addr | host_mask(prefix_len),
{
    u32::from(ipnet::Ipv4Net::new(addr.into(), prefix_len).unwrap().broadcast())
}

/// An IPv4 network: an address and a prefix length of at most 32.
#[derive(Copy, Clone, Debug)]
pub struct Ipv4Network {
    addr: u32,
    prefix_len: u8,
}

impl Ipv4Network {
    #[verifier::type_invariant]
    spec fn wf(self) -> bool {
        self.prefix_len <= 32
    }

    /// The network's address.
    pub closed spec fn spec_addr(self) -> u32 {
        self.addr
    }

    /// The network's prefix length.
    pub closed spec fn spec_prefix_len(self) -> u8 {
        self.prefix_len
    }

    /// The network `addr/prefix_len`, or `None` where the prefix length is
    /// over 32.
    pub fn new(addr: u32, prefix_len: u8) -> (r: Option<Ipv4Network>)
        ensures
            r is Some <==> prefix_len <= 32,
            r matches Some(n) ==> n.spec_addr() == addr && n.spec_prefix_len() == prefix_len,
    {
        if ipv4_net_accepts(addr, prefix_len) {
            Some(Ipv4Network { addr, prefix_len })
        } else {
            None
        }
    }

    /// The single-host network `0.0.0.0/32`.
    pub fn unspecified() -> (r: Ipv4Network)
        ensures
            r.spec_addr() == 0 && r.spec_prefix_len() == 32,
    {
        Ipv4Network { addr: 0, prefix_len: 32 }
    }

    pub fn addr(&self) -> (r: u32)
        ensures
            r == self.spec_addr(),
    {
        self.addr
    }

    pub fn prefix_len(&self) -> (r: u8)
        ensures
            r == self.spec_prefix_len(),
            r <= 32,
    {
        proof {
            use_type_invariant(self);
        }
        self.prefix_len
    }

    /// The address with every host bit set.
    pub fn broadcast(&self) -> (r: u32)
        ensures
            r == self.spec_addr() | host_mask(self.spec_prefix_len()),
    {
        proof {
            use_type_invariant(self);
        }
        ipv4_broadcast(self.addr, self.prefix_len)
    }
}

/// A network interface of the server, on which beacons may be reached.
pub struct NetworkInterface {
    /// The database key, `-1` before the interface is stored.
    pub id: i32,
    pub beacon_port: Option<i16>,
    pub ip: Ipv4Network,
    pub mac: [u8; 6],
    pub name: String,
    pub webserver_port: Option<i16>,
}

impl NetworkInterface {
    /// An interface not yet stored: no ports, the address `0.0.0.0/32`, the
    /// all-zero hardware address and no name.
    pub fn new() -> (r: NetworkInterface)
        ensures
            r.id == -1,
            r.beacon_port is None,
            r.webserver_port is None,
            r.ip.spec_addr() == 0 && r.ip.spec_prefix_len() == 32,
            forall|i: int| 0 <= i < 6 ==> r.mac@[i] == 0,
            r.name@ == Seq::<char>::empty(),
    {
        NetworkInterface {
            id: -1,
            beacon_port: None,
            ip: Ipv4Network::unspecified(),
            mac: [0u8; 6],
            name: String::new(),
            webserver_port: None,
        }
    }
}

/// The interfaces on which a beacon connection is to be opened, with the
/// port of each: those that have a beacon port, in order. The port is read
/// as the unsigned 16-bit number of the same bits.
pub open spec fn endpoints(s: Seq<NetworkInterface>) -> Seq<(Ipv4Network, u16)>
    decreases s.len(),
{
    if s.len() == 0 {
        Seq::empty()
    } else {
        match s.last().beacon_port {
            Some(p) => endpoints(s.drop_last()).push((s.last().ip, #[verifier::truncate] (p as u16))),
            None => endpoints(s.drop_last()),
        }
    }
}

/// Picks the interfaces to open beacon connections on.
pub fn beacon_endpoints(ifaces: &Vec<NetworkInterface>) -> (r: Vec<(Ipv4Network, u16)>)
    ensures
        r@ == endpoints(ifaces@),
{
    let mut r: Vec<(Ipv4Network, u16)> = Vec::new();
    let mut i: usize = 0;
    while i < ifaces.len()
        invariant
            i <= ifaces@.len(),
            r@ == endpoints(ifaces@.take(i as int)),
        decreases ifaces.len() - i,
    {
        assert(ifaces@.take(i as int + 1).drop_last() =~= ifaces@.take(i as int));
        match ifaces[i].beacon_port {
            Some(port) => {
                r.push((ifaces[i].ip, #[verifier::truncate] (port as u16)));
            },
            None => {},
        }
        i = i + 1;
    }
    assert(ifaces@.take(ifaces@.len() as int) =~= ifaces@);
    r
}

} // verus!
