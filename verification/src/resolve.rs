use vstd::prelude::*;

use crate::parse::{first_service_line, service_for_device};
use crate::system::{args_view, NetInterface, System};
use crate::text::str_eq;
use crate::Error;

verus! {

/// Whether the interface `i` owns the address `ip`.
pub open spec fn iface_owns(i: NetInterface, ip: Seq<char>) -> bool {
    exists|j: int| 0 <= j < i.addresses@.len() && i.addresses@[j]@ == ip
}

/// Whether `i` owns the address `ip`.
fn iface_has_addr(i: &NetInterface, ip: &str) -> (r: bool)
    ensures
        r == iface_owns(*i, ip@),
{
    let n = i.addresses.len();
    let mut j: usize = 0;
    while j < n
        invariant
            j <= n,
            n == i.addresses@.len(),
            forall|k: int| 0 <= k < j ==> i.addresses@[k]@ != ip@,
        decreases n - j,
    {
        if str_eq(i.addresses[j].as_str(), ip) {
            return true;
        }
        j = j + 1;
    }
    false
}

/// The device identifier of the first interface in `ifaces` that owns the
/// address `ip`.
pub fn find_interface_name(ifaces: &Vec<NetInterface>, ip: &str) -> (r: Option<String>)
    ensures
        match r {
            Some(name) => exists|k: int|
                0 <= k < ifaces@.len() && #[trigger] iface_owns(ifaces@[k], ip@) && name@
                    == ifaces@[k].name@ && (forall|k2: int|
                    0 <= k2 < k ==> !iface_owns(ifaces@[k2], ip@)),
            None => forall|k: int| 0 <= k < ifaces@.len() ==> !iface_owns(ifaces@[k], ip@),
        },
{
    let n = ifaces.len();
    let mut k: usize = 0;
    while k < n
        invariant
            k <= n,
            n == ifaces@.len(),
            forall|k2: int| 0 <= k2 < k ==> !iface_owns(ifaces@[k2], ip@),
        decreases n - k,
    {
        if iface_has_addr(&ifaces[k], ip) {
            return Some(ifaces[k].name.clone());
        }
        k = k + 1;
    }
    None
}

/// The outcome of the interface search: a found device identifier carries
/// resolution on, and no owner of the probed address is the absence of an
/// active interface.
pub fn device_or_error(found: Option<String>) -> (r: Result<String, Error>)
    ensures
        match r {
            Ok(d) => found matches Some(n) && n == d,
            Err(e) => found is None && e == Error::NetworkInterface,
        },
{
    match found {
        Some(d) => Ok(d),
        None => Err(Error::NetworkInterface),
    }
}

/// The invocation that lists all hardware ports.
pub open spec fn list_hardware_ports_args() -> Seq<Seq<char>> {
    seq!["-listallhardwareports"@]
}

/// Build the invocation that lists all hardware ports.
pub fn build_list_hardware_ports_args() -> (r: Vec<String>)
    ensures
        args_view(r) == list_hardware_ports_args(),
{
    let args = vec!["-listallhardwareports".to_owned()];
    proof {
        assert(args_view(args) =~= list_hardware_ports_args());
    }
    args
}

/// The invocation that lists all network services.
pub open spec fn list_network_services_args() -> Seq<Seq<char>> {
    seq!["-listallnetworkservices"@]
}

/// Build the invocation that lists all network services.
pub fn build_list_network_services_args() -> (r: Vec<String>)
    ensures
        args_view(r) == list_network_services_args(),
{
    let args = vec!["-listallnetworkservices".to_owned()];
    proof {
        assert(args_view(args) =~= list_network_services_args());
    }
    args
}

/// Map `device` to its service name through the tool's hardware-ports
/// listing. Whatever listing the tool hands back, a returned service name is
/// exactly the one that listing assigns to `device`, and an unlisted device
/// is reported as the absence of an active interface.
pub fn get_service_by_device<S: System>(sys: &mut S, device: &str) -> (r: Result<String, Error>)
{
    let args = build_list_hardware_ports_args();
    let out = match sys.invoke(&args) {
        Ok(o) => o,
        Err(e) => return Err(e),
    };
    service_for_device(out.stdout.as_str(), device)
}

/// Resolve the active service from the ground truth of the routing table:
/// probe the outbound route, find the interface owning the probed address,
/// and map its device identifier through the hardware-ports listing.
pub fn default_network_service<S: System>(sys: &mut S) -> (r: Result<String, Error>)
{
    let ip = match sys.local_route_ip() {
        Ok(ip) => ip,
        Err(e) => return Err(e),
    };
    let ifaces = match sys.interfaces() {
        Ok(v) => v,
        Err(e) => return Err(e),
    };
    let device = match device_or_error(find_interface_name(&ifaces, ip.as_str())) {
        Ok(d) => d,
        Err(e) => return Err(e),
    };
    get_service_by_device(sys, device.as_str())
}

/// Resolve the active service from the tool's services listing: its first
/// entry after the advisory header, in the tool's own priority order. An
/// empty listing — no entry line, or a blank one — is reported as the
/// absence of an active interface.
pub fn default_network_service_by_ns<S: System>(sys: &mut S) -> (r: Result<String, Error>)
{
    let args = build_list_network_services_args();
    let out = match sys.invoke(&args) {
        Ok(o) => o,
        Err(e) => return Err(e),
    };
    first_service_line(out.stdout.as_str())
}

} // verus!
