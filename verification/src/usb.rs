//! Finding the endpoint to read a USB receiver from: the descriptors of a
//! device, as read from it, and the first endpoint that can be read.

use vstd::prelude::*;

verus! {

/// The direction of an endpoint, seen from the host.
#[derive(Copy, Clone, Debug, PartialEq, Eq, Structural)]
pub enum Direction {
    In,
    Out,
}

/// How an endpoint transfers data.
#[derive(Copy, Clone, Debug, PartialEq, Eq, Structural)]
pub enum TransferType {
    Control,
    Isochronous,
    Bulk,
    Interrupt,
}

/// The speed of a device.
#[derive(Copy, Clone, Debug, PartialEq, Eq, Structural)]
pub enum Speed {
    Unknown,
    Low,
    Full,
    High,
    Super,
}

/// An endpoint as its descriptor gives it.
#[derive(Copy, Clone, Debug, PartialEq, Eq, Structural)]
pub struct EndpointDescriptor {
    pub address: u8,
    pub direction: Direction,
    pub transfer_type: TransferType,
}

/// One alternate setting of an interface, with its endpoints.
pub struct InterfaceDescriptor {
    pub interface_number: u8,
    pub setting_number: u8,
    pub endpoints: Vec<EndpointDescriptor>,
}

/// An interface, with its alternate settings.
pub struct Interface {
    pub descriptors: Vec<InterfaceDescriptor>,
}

/// A configuration, with its interfaces.
pub struct ConfigDescriptor {
    pub number: u8,
    pub interfaces: Vec<Interface>,
}

/// Where to read from: the configuration, interface and setting to select,
/// and the endpoint's address and transfer type.
#[derive(Copy, Clone, Debug, PartialEq, Eq, Structural)]
pub struct Endpoint {
    pub config: u8,
    pub iface: u8,
    pub setting: u8,
    pub address: u8,
    pub transfer_type: TransferType,
}

/// An endpoint of the device with where it is found.
#[derive(Copy, Clone, Debug, PartialEq, Eq, Structural)]
pub struct Candidate {
    pub endpoint: Endpoint,
    pub direction: Direction,
}

/// The endpoints of a setting of configuration `config`, in order.
pub open spec fn setting_candidates(config: u8, d: InterfaceDescriptor) -> Seq<Candidate> {
    Seq::new(
        d.endpoints@.len(),
        |i: int|
            Candidate {
                endpoint: Endpoint {
                    config,
                    iface: d.interface_number,
                    setting: d.setting_number,
                    address: d.endpoints@[i].address,
                    transfer_type: d.endpoints@[i].transfer_type,
                },
                direction: d.endpoints@[i].direction,
            },
    )
}

/// The endpoints of the settings `ds`, in order.
pub open spec fn settings_candidates(config: u8, ds: Seq<InterfaceDescriptor>) -> Seq<Candidate>
    decreases ds.len(),
{
    if ds.len() == 0 {
        Seq::empty()
    } else {
        settings_candidates(config, ds.drop_last()) + setting_candidates(config, ds.last())
    }
}

/// The endpoints of the interfaces `is`, in order.
pub open spec fn interfaces_candidates(config: u8, is: Seq<Interface>) -> Seq<Candidate>
    decreases is.len(),
{
    if is.len() == 0 {
        Seq::empty()
    } else {
        interfaces_candidates(config, is.drop_last()) + settings_candidates(config, is.last().descriptors@)
    }
}

/// The endpoints of the configurations `cs`, in order; a configuration
/// whose descriptor could not be read (`None`) has none.
pub open spec fn configs_candidates(cs: Seq<Option<ConfigDescriptor>>) -> Seq<Candidate>
    decreases cs.len(),
{
    if cs.len() == 0 {
        Seq::empty()
    } else {
        configs_candidates(cs.drop_last()) + match cs.last() {
            Some(c) => interfaces_candidates(c.number, c.interfaces@),
            None => Seq::empty(),
        }
    }
}

/// An endpoint the host can read from: an input endpoint of interrupt or
/// bulk transfers.
pub open spec fn readable(c: Candidate) -> bool {
    c.direction == Direction::In && (c.endpoint.transfer_type == TransferType::Interrupt
        || c.endpoint.transfer_type == TransferType::Bulk)
}

/// The first readable endpoint of `s`, if any.
pub open spec fn first_readable(s: Seq<Candidate>) -> Option<Endpoint>
    decreases s.len(),
{
    if s.len() == 0 {
        None
    } else if readable(s[0]) {
        Some(s[0].endpoint)
    } else {
        first_readable(s.drop_first())
    }
}

fn push_setting(config: u8, d: &InterfaceDescriptor, out: &mut Vec<Candidate>)
    ensures
        final(out)@ == old(out)@ + setting_candidates(config, *d),
{
    let ghost start = out@;
    let mut i: usize = 0;
    while i < d.endpoints.len()
        invariant
            i <= d.endpoints.len(),
            out@ == start + setting_candidates(config, *d).take(i as int),
        decreases d.endpoints.len() - i,
    {
        let e = d.endpoints[i];
        out.push(
            Candidate {
                endpoint: Endpoint {
                    config,
                    iface: d.interface_number,
                    setting: d.setting_number,
                    address: e.address,
                    transfer_type: e.transfer_type,
                },
                direction: e.direction,
            },
        );
        i = i + 1;
        assert(out@ =~= start + setting_candidates(config, *d).take(i as int));
    }
    assert(setting_candidates(config, *d).take(i as int) =~= setting_candidates(config, *d));
}

fn push_interface(config: u8, it: &Interface, out: &mut Vec<Candidate>)
    ensures
        final(out)@ == old(out)@ + settings_candidates(config, it.descriptors@),
{
    let ghost start = out@;
    let mut i: usize = 0;
    assert(it.descriptors@.take(0) =~= Seq::<InterfaceDescriptor>::empty());
    assert(out@ =~= start + settings_candidates(config, it.descriptors@.take(0)));
    while i < it.descriptors.len()
        invariant
            i <= it.descriptors.len(),
            out@ == start + settings_candidates(config, it.descriptors@.take(i as int)),
        decreases it.descriptors.len() - i,
    {
        push_setting(config, &it.descriptors[i], out);
        assert(it.descriptors@.take(i as int + 1).drop_last() =~= it.descriptors@.take(i as int));
        i = i + 1;
        assert(out@ =~= start + settings_candidates(config, it.descriptors@.take(i as int)));
    }
    assert(it.descriptors@.take(i as int) =~= it.descriptors@);
}

fn push_config(c: &ConfigDescriptor, out: &mut Vec<Candidate>)
    ensures
        final(out)@ == old(out)@ + interfaces_candidates(c.number, c.interfaces@),
{
    let ghost start = out@;
    let mut i: usize = 0;
    assert(c.interfaces@.take(0) =~= Seq::<Interface>::empty());
    assert(out@ =~= start + interfaces_candidates(c.number, c.interfaces@.take(0)));
    while i < c.interfaces.len()
        invariant
            i <= c.interfaces.len(),
            out@ == start + interfaces_candidates(c.number, c.interfaces@.take(i as int)),
        decreases c.interfaces.len() - i,
    {
        push_interface(c.number, &c.interfaces[i], out);
        assert(c.interfaces@.take(i as int + 1).drop_last() =~= c.interfaces@.take(i as int));
        i = i + 1;
        assert(out@ =~= start + interfaces_candidates(c.number, c.interfaces@.take(i as int)));
    }
    assert(c.interfaces@.take(i as int) =~= c.interfaces@);
}

/// Every endpoint of the device, configuration by configuration,
/// interface by interface, setting by setting.
pub fn candidates(configs: &Vec<Option<ConfigDescriptor>>) -> (r: Vec<Candidate>)
    ensures
        r@ == configs_candidates(configs@),
{
    let mut out: Vec<Candidate> = Vec::new();
    let mut i: usize = 0;
    assert(configs@.take(0) =~= Seq::<Option<ConfigDescriptor>>::empty());
    while i < configs.len()
        invariant
            i <= configs.len(),
            out@ == configs_candidates(configs@.take(i as int)),
        decreases configs.len() - i,
    {
        match &configs[i] {
            Some(c) => push_config(c, &mut out),
            None => {},
        }
        assert(configs@.take(i as int + 1).drop_last() =~= configs@.take(i as int));
        i = i + 1;
        assert(out@ =~= configs_candidates(configs@.take(i as int)));
    }
    assert(configs@.take(i as int) =~= configs@);
    out
}

/// The endpoint to read from: the first input endpoint of interrupt or
/// bulk transfers, if the device has one.
pub fn find_readable_endpoint(configs: &Vec<Option<ConfigDescriptor>>) -> (r: Option<Endpoint>)
    ensures
        r == first_readable(configs_candidates(configs@)),
{
    let all = candidates(configs);
    let mut i: usize = 0;
    assert(all@.skip(0) =~= all@);
    while i < all.len()
        invariant
            i <= all.len(),
            all@ == configs_candidates(configs@),
            first_readable(all@) == first_readable(all@.skip(i as int)),
        decreases all.len() - i,
    {
        let c = all[i];
        let readable_now = match c.direction {
            Direction::In => match c.endpoint.transfer_type {
                TransferType::Interrupt | TransferType::Bulk => true,
                _ => false,
            },
            Direction::Out => false,
        };
        assert(all@.skip(i as int)[0] == c);
        assert(readable_now == readable(c));
        if readable_now {
            assert(first_readable(all@.skip(i as int)) == Some(c.endpoint));
            return Some(c.endpoint);
        }
        assert(all@.skip(i as int).drop_first() =~= all@.skip(i as int + 1));
        i = i + 1;
    }
    None
}

/// How the speed of a device is printed.
pub fn get_speed(speed: Speed) -> (s: &'static str)
    ensures
        s@ == match speed {
            Speed::Super => "5000 Mbps"@,
            Speed::High => " 480 Mbps"@,
            Speed::Full => "  12 Mbps"@,
            Speed::Low => " 1.5 Mbps"@,
            Speed::Unknown => "(unknown)"@,
        },
{
    match speed {
        Speed::Super => "5000 Mbps",
        Speed::High => " 480 Mbps",
        Speed::Full => "  12 Mbps",
        Speed::Low => " 1.5 Mbps",
        Speed::Unknown => "(unknown)",
    }
}

} // verus!
