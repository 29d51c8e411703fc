//! A plain-value picture of what USB enumeration reports, and the two
//! selections a print job makes on it: which device, and which endpoint.

use vstd::prelude::*;

verus! {

/// Vendor and product id of a USB device, as found in its device descriptor.
#[derive(Clone, Copy, Debug, PartialEq, Eq, Structural)]
pub struct DeviceId {
    pub vid: u16,
    pub pid: u16,
}

/// Direction of an endpoint, seen from the host.
#[derive(Clone, Copy, Debug, PartialEq, Eq, Structural)]
pub enum Direction {
    In,
    Out,
}

/// Transfer type of an endpoint.
#[derive(Clone, Copy, Debug, PartialEq, Eq, Structural)]
pub enum TransferType {
    Control,
    Isochronous,
    Bulk,
    Interrupt,
}

/// One endpoint descriptor.
#[derive(Clone, Copy, Debug, PartialEq, Eq, Structural)]
pub struct Endpoint {
    pub address: u8,
    pub direction: Direction,
    pub transfer_type: TransferType,
}

/// One alternate setting of an interface, with its endpoints in descriptor
/// order.
#[derive(Debug, PartialEq, Eq)]
pub struct AltSetting {
    pub endpoints: Vec<Endpoint>,
}

/// One interface, with its alternate settings in descriptor order.
#[derive(Debug, PartialEq, Eq)]
pub struct Interface {
    pub settings: Vec<AltSetting>,
}

/// The active configuration of a device, with its interfaces in descriptor
/// order.
#[derive(Debug, PartialEq, Eq)]
pub struct Configuration {
    pub interfaces: Vec<Interface>,
}

/// The position of the first device in `devices` that equals `target`, if
/// there is one.
pub open spec fn first_device(devices: Seq<DeviceId>, target: DeviceId) -> Option<int>
    decreases devices.len(),
{
    if devices.len() == 0 {
        None
    } else if first_device(devices.drop_last(), target) is Some {
        first_device(devices.drop_last(), target)
    } else if devices.last() == target {
        Some(devices.len() - 1)
    } else {
        None
    }
}

/// `first_device` finds nothing exactly when no device matches, and otherwise
/// names a matching position that no matching position precedes.
pub proof fn first_device_is_first(devices: Seq<DeviceId>, target: DeviceId)
    ensures
        match first_device(devices, target) {
            Some(i) => {
                &&& 0 <= i < devices.len()
                &&& devices[i] == target
                &&& forall|j: int| 0 <= j < i ==> devices[j] != target
            },
            None => forall|j: int| 0 <= j < devices.len() ==> devices[j] != target,
        },
    decreases devices.len(),
{
    if devices.len() > 0 {
        let front = devices.drop_last();
        first_device_is_first(front, target);
        assert(forall|j: int| 0 <= j < front.len() ==> front[j] == devices[j]);
    }
}

/// Selects the first enumerated device whose vendor and product id equal the
/// requested pair.
pub fn find_device(devices: &Vec<DeviceId>, vid: u16, pid: u16) -> (found: Option<usize>)
    ensures
        match found {
            Some(i) => first_device(devices@, DeviceId { vid, pid }) == Some(i as int),
            None => first_device(devices@, DeviceId { vid, pid }) is None,
        },
{
    let ghost target = DeviceId { vid, pid };
    let mut i: usize = 0;
    while i < devices.len()
        invariant
            i <= devices.len(),
            target == (DeviceId { vid, pid }),
            first_device(devices@.take(i as int), target) is None,
        decreases devices.len() - i,
    {
        proof {
            assert(devices@.take(i + 1).drop_last() =~= devices@.take(i as int));
        }
        if devices[i].vid == vid && devices[i].pid == pid {
            proof {
                first_device_extends(devices@, target, i + 1);
            }
            return Some(i);
        }
        i += 1;
    }
    proof {
        assert(devices@.take(i as int) =~= devices@);
    }
    None
}

/// A match found in a prefix is the match found in the whole list.
proof fn first_device_extends(devices: Seq<DeviceId>, target: DeviceId, n: int)
    requires
        0 <= n <= devices.len(),
        first_device(devices.take(n), target) is Some,
    ensures
        first_device(devices, target) == first_device(devices.take(n), target),
    decreases devices.len(),
{
    if n < devices.len() {
        assert(devices.drop_last().take(n) =~= devices.take(n));
        first_device_extends(devices.drop_last(), target, n);
    } else {
        assert(devices.take(n) =~= devices);
    }
}

/// Whether data can be streamed to the printer through this endpoint.
pub open spec fn is_bulk_out(endpoint: Endpoint) -> bool {
    endpoint.direction == Direction::Out && endpoint.transfer_type == TransferType::Bulk
}

/// The address of the first bulk OUT endpoint in `endpoints`, if there is one.
pub open spec fn first_bulk_out(endpoints: Seq<Endpoint>) -> Option<u8>
    decreases endpoints.len(),
{
    if endpoints.len() == 0 {
        None
    } else if is_bulk_out(endpoints[0]) {
        Some(endpoints[0].address)
    } else {
        first_bulk_out(endpoints.drop_first())
    }
}

/// The endpoints of a run of alternate settings, in descriptor order.
pub open spec fn settings_endpoints(settings: Seq<AltSetting>) -> Seq<Endpoint>
    decreases settings.len(),
{
    if settings.len() == 0 {
        Seq::empty()
    } else {
        settings[0].endpoints@ + settings_endpoints(settings.drop_first())
    }
}

/// The endpoints of a run of interfaces, in descriptor order: interface by
/// interface, and within each, alternate setting by alternate setting.
pub open spec fn interfaces_endpoints(interfaces: Seq<Interface>) -> Seq<Endpoint>
    decreases interfaces.len(),
{
    if interfaces.len() == 0 {
        Seq::empty()
    } else {
        settings_endpoints(interfaces[0].settings@) + interfaces_endpoints(
            interfaces.drop_first(),
        )
    }
}

/// The search through two runs of endpoints takes the hit in the first run,
/// and looks in the second only when the first has none.
pub proof fn first_bulk_out_concat(a: Seq<Endpoint>, b: Seq<Endpoint>)
    ensures
        first_bulk_out(a + b) == if first_bulk_out(a) is Some {
            first_bulk_out(a)
        } else {
            first_bulk_out(b)
        },
    decreases a.len(),
{
    if a.len() == 0 {
        assert(a + b =~= b);
    } else {
        assert((a + b).drop_first() =~= a.drop_first() + b);
        first_bulk_out_concat(a.drop_first(), b);
    }
}

/// `first_bulk_out` finds nothing exactly when no endpoint is bulk OUT, and
/// otherwise gives the address of a bulk OUT endpoint that no bulk OUT
/// endpoint precedes.
pub proof fn first_bulk_out_is_first(endpoints: Seq<Endpoint>)
    ensures
        match first_bulk_out(endpoints) {
            Some(address) => exists|i: int|
                {
                    &&& 0 <= i < endpoints.len()
                    &&& is_bulk_out(#[trigger] endpoints[i])
                    &&& endpoints[i].address == address
                    &&& forall|j: int| 0 <= j < i ==> !is_bulk_out(endpoints[j])
                },
            None => forall|i: int| 0 <= i < endpoints.len() ==> !is_bulk_out(endpoints[i]),
        },
    decreases endpoints.len(),
{
    if endpoints.len() > 0 {
        let rest = endpoints.drop_first();
        first_bulk_out_is_first(rest);
        assert(forall|i: int| 0 <= i < rest.len() ==> rest[i] == endpoints[i + 1]);
        if is_bulk_out(endpoints[0]) {
        } else {
            match first_bulk_out(rest) {
                Some(address) => {
                    let i = choose|i: int|
                        {
                            &&& 0 <= i < rest.len()
                            &&& is_bulk_out(#[trigger] rest[i])
                            &&& rest[i].address == address
                            &&& forall|j: int| 0 <= j < i ==> !is_bulk_out(rest[j])
                        };
                    assert forall|j: int| 0 <= j < i + 1 implies !is_bulk_out(endpoints[j]) by {
                        if j > 0 {
                            assert(rest[j - 1] == endpoints[j]);
                        }
                    }
                    assert(is_bulk_out(endpoints[i + 1]));
                },
                None => {
                    assert forall|i: int| 0 <= i < endpoints.len() implies !is_bulk_out(
                        endpoints[i],
                    ) by {
                        if i > 0 {
                            assert(rest[i - 1] == endpoints[i]);
                        }
                    }
                },
            }
        }
    }
}

/// The first bulk OUT endpoint of one alternate setting.
fn bulk_out_in_endpoints(endpoints: &Vec<Endpoint>) -> (found: Option<u8>)
    ensures
        found == first_bulk_out(endpoints@),
{
    let mut k: usize = 0;
    assert(endpoints@.skip(0) =~= endpoints@);
    while k < endpoints.len()
        invariant
            k <= endpoints.len(),
            first_bulk_out(endpoints@) == first_bulk_out(endpoints@.skip(k as int)),
        decreases endpoints.len() - k,
    {
        let endpoint = endpoints[k];
        proof {
            assert(endpoints@.skip(k as int).drop_first() =~= endpoints@.skip(k + 1));
        }
        if matches!(endpoint.direction, Direction::Out) && matches!(
            endpoint.transfer_type,
            TransferType::Bulk
        ) {
            return Some(endpoint.address);
        }
        k += 1;
    }
    None
}

/// The first bulk OUT endpoint among the alternate settings of one interface.
fn bulk_out_in_settings(settings: &Vec<AltSetting>) -> (found: Option<u8>)
    ensures
        found == first_bulk_out(settings_endpoints(settings@)),
{
    let mut j: usize = 0;
    assert(settings@.skip(0) =~= settings@);
    while j < settings.len()
        invariant
            j <= settings.len(),
            first_bulk_out(settings_endpoints(settings@)) == first_bulk_out(
                settings_endpoints(settings@.skip(j as int)),
            ),
        decreases settings.len() - j,
    {
        let found = bulk_out_in_endpoints(&settings[j].endpoints);
        proof {
            let rest = settings@.skip(j as int);
            assert(rest.drop_first() =~= settings@.skip(j + 1));
            first_bulk_out_concat(rest[0].endpoints@, settings_endpoints(rest.drop_first()));
        }
        if found.is_some() {
            return found;
        }
        j += 1;
    }
    None
}

/// Scans the interfaces of the active configuration and their alternate
/// settings, in descriptor order, for the first endpoint whose direction is
/// OUT and whose transfer type is bulk.
pub fn find_bulk_out_endpoint(config: &Configuration) -> (found: Option<u8>)
    ensures
        found == first_bulk_out(interfaces_endpoints(config.interfaces@)),
{
    let mut i: usize = 0;
    assert(config.interfaces@.skip(0) =~= config.interfaces@);
    while i < config.interfaces.len()
        invariant
            i <= config.interfaces.len(),
            first_bulk_out(interfaces_endpoints(config.interfaces@)) == first_bulk_out(
                interfaces_endpoints(config.interfaces@.skip(i as int)),
            ),
        decreases config.interfaces.len() - i,
    {
        let found = bulk_out_in_settings(&config.interfaces[i].settings);
        proof {
            let rest = config.interfaces@.skip(i as int);
            assert(rest.drop_first() =~= config.interfaces@.skip(i + 1));
            first_bulk_out_concat(
                settings_endpoints(rest[0].settings@),
                interfaces_endpoints(rest.drop_first()),
            );
        }
        if found.is_some() {
            return found;
        }
        i += 1;
    }
    None
}

} // verus!
