//! The filter engine: each filter kind is evaluated at the one layer it is
//! bound to.
use vstd::prelude::*;

use crate::{ParameterView, Parameters};

verus! {

/// A decoded network-layer header that carries a source and a destination
/// address in canonical text form.
pub trait NetworkLayer {
    /// The canonical text of the source address.
    spec fn source_text(&self) -> Seq<char>;

    /// The canonical text of the destination address.
    spec fn destination_text(&self) -> Seq<char>;

    /// Getting the source and destination of the packet.
    fn get_source_dest(&self) -> (r: (String, String))
        ensures
            r.0@ == self.source_text(),
            r.1@ == self.destination_text(),
    ;
}

/// An address filter accepts when it is empty, or when it holds the source
/// or the destination address.
pub open spec fn ip_filter_accepts(ips: Seq<Seq<char>>, source: Seq<char>, dest: Seq<char>) -> bool {
    ips.len() == 0 || ips.contains(source) || ips.contains(dest)
}

/// A port filter accepts when it is empty, or when it holds the source or
/// the destination port.
pub open spec fn port_filter_accepts(ports: Seq<u16>, source: u16, dest: u16) -> bool {
    ports.len() == 0 || ports.contains(source) || ports.contains(dest)
}

/// An ARP operation filter accepts when it is unset, or when it names the
/// observed operation code.
pub open spec fn arp_filter_accepts(op: Option<u16>, code: u16) -> bool {
    match op {
        None => true,
        Some(wanted) => wanted == code,
    }
}

/// Whether `p` is a filter that may be applied at the network layer.
pub open spec fn is_network_filter(p: Parameters) -> bool {
    p is IpAddress || p is NoParameter
}

/// Whether `p` is a filter that may be applied at the transport layer.
pub open spec fn is_transport_filter(p: Parameters) -> bool {
    p is Port || p is NoParameter
}

/// Whether `p` is a filter that may be applied at the network access layer.
pub open spec fn is_access_filter(p: Parameters) -> bool {
    p is ArpOperation || p is NoParameter
}

/// What an address-level parameter decides for a pair of addresses.
pub open spec fn network_filter_accepts(p: ParameterView, source: Seq<char>, dest: Seq<char>) -> bool {
    match p {
        ParameterView::IpAddress(ips) => ip_filter_accepts(ips, source, dest),
        _ => true,
    }
}

/// What a port-level parameter decides for a pair of ports.
pub open spec fn transport_filter_accepts(p: ParameterView, source: u16, dest: u16) -> bool {
    match p {
        ParameterView::Port(ports) => port_filter_accepts(ports, source, dest),
        _ => true,
    }
}

/// What an ARP-level parameter decides for an operation code.
pub open spec fn access_filter_accepts(p: ParameterView, code: u16) -> bool {
    match p {
        ParameterView::ArpOperation(op) => arp_filter_accepts(op, code),
        _ => true,
    }
}

/// Whether the text `t` is one of the strings of `v`.
pub(crate) fn contains_text(v: &Vec<String>, t: &String) -> (r: bool)
    ensures
        r == crate::texts(v@).contains(t@),
{
    let mut i: usize = 0;
    while i < v.len()
        invariant
            0 <= i <= v.len(),
            forall|j: int| 0 <= j < i ==> v@[j]@ != t@,
        decreases v.len() - i,
    {
        if v[i] == *t {
            assert(crate::texts(v@)[i as int] == t@);
            return true;
        }
        i += 1;
    }
    proof {
        if crate::texts(v@).contains(t@) {
            let k = choose|k: int| 0 <= k < crate::texts(v@).len() && crate::texts(v@)[k] == t@;
            assert(v@[k]@ == t@);
        }
    }
    false
}

/// Whether the port `p` is one of `v`.
fn contains_port(v: &Vec<u16>, p: u16) -> (r: bool)
    ensures
        r == v@.contains(p),
{
    let mut i: usize = 0;
    while i < v.len()
        invariant
            0 <= i <= v.len(),
            forall|j: int| 0 <= j < i ==> v@[j] != p,
        decreases v.len() - i,
    {
        if v[i] == p {
            assert(v@[i as int] == p);
            return true;
        }
        i += 1;
    }
    false
}

/// Applies an address filter to a network-layer header. Applying any other
/// kind of filter here is a programming error, excluded by the precondition.
pub fn check_ips<T>(packet: &T, ips: Parameters) -> (r: bool) where T: NetworkLayer
    requires
        is_network_filter(ips),
    ensures
        r == network_filter_accepts(ips@, packet.source_text(), packet.destination_text()),
{
    match ips {
        Parameters::IpAddress(ips) => {
            if ips.len() == 0 {
                return true;
            }
            let (source, dest) = packet.get_source_dest();
            contains_text(&ips, &source) || contains_text(&ips, &dest)
        },
        _ => true,
    }
}

/// Applies a port filter to the ports of a transport-layer header. Applying
/// any other kind of filter here is a programming error, excluded by the
/// precondition.
pub fn check_ports(source: u16, dest: u16, p: Parameters) -> (r: bool)
    requires
        is_transport_filter(p),
    ensures
        r == transport_filter_accepts(p@, source, dest),
{
    match p {
        Parameters::Port(needed_ports) => {
            if needed_ports.len() == 0 {
                return true;
            }
            contains_port(&needed_ports, source) || contains_port(&needed_ports, dest)
        },
        _ => true,
    }
}

/// Applies an ARP operation filter to an observed operation code. Applying
/// any other kind of filter here is a programming error, excluded by the
/// precondition.
pub fn check_arp_operation(current_op_code: u16, p: Parameters) -> (r: bool)
    requires
        is_access_filter(p),
    ensures
        r == access_filter_accepts(p@, current_op_code),
{
    match p {
        Parameters::ArpOperation(op) => match op {
            None => true,
            Some(wanted) => current_op_code == wanted,
        },
        _ => true,
    }
}

} // verus!
