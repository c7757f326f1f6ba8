//! The protocols that the classifier recognises, one decoder module each.
use vstd::prelude::*;

pub mod arp;
pub mod ethernet;
pub mod ipv4;
pub mod ipv6;
pub mod tcp;
pub mod udp;

use crate::{texts, ParameterView, Parameters};

verus! {

/// The closed set of protocol tags that a layer of a chain can carry.
#[allow(non_camel_case_types)]
#[derive(Clone, Copy, PartialEq, Eq, Structural, Debug)]
pub enum Protocol {
    ETHERNET,
    IPv4,
    IPv6,
    ARP,
    TCP,
    UDP,
    APPLICATION,
}

/// The 16-bit big-endian integer stored at `b[i]`, `b[i + 1]`.
pub open spec fn be16(b: Seq<u8>, i: int) -> u16 {
    (b[i] as int * 256 + b[i + 1] as int) as u16
}

/// The high four bits of a byte.
pub open spec fn high_nibble(b: u8) -> u8 {
    (b as int / 16) as u8
}

} // verus!

verus! {

/// The address list of the last address parameter, or an empty list.
pub open spec fn last_ips(ps: Seq<ParameterView>) -> Seq<Seq<char>>
    decreases ps.len(),
{
    if ps.len() == 0 {
        Seq::empty()
    } else {
        match ps.last() {
            ParameterView::IpAddress(v) => v,
            _ => last_ips(ps.drop_last()),
        }
    }
}

/// The port list of the last port parameter, or an empty list.
pub open spec fn last_ports(ps: Seq<ParameterView>) -> Seq<u16>
    decreases ps.len(),
{
    if ps.len() == 0 {
        Seq::empty()
    } else {
        match ps.last() {
            ParameterView::Port(v) => v,
            _ => last_ports(ps.drop_last()),
        }
    }
}

/// The protocol list of the last protocol parameter, or an empty list.
pub open spec fn last_protocols(ps: Seq<ParameterView>) -> Seq<Protocol>
    decreases ps.len(),
{
    if ps.len() == 0 {
        Seq::empty()
    } else {
        match ps.last() {
            ParameterView::Protocol(v) => v,
            _ => last_protocols(ps.drop_last()),
        }
    }
}

/// The interfaces, in their order, whose names are in `names`.
pub open spec fn named_interfaces(interfaces: Seq<Seq<char>>, names: Seq<Seq<char>>) -> Seq<Seq<char>>
    decreases interfaces.len(),
{
    if interfaces.len() == 0 {
        Seq::empty()
    } else {
        let before = named_interfaces(interfaces.drop_last(), names);
        if names.contains(interfaces.last()) {
            before.push(interfaces.last())
        } else {
            before
        }
    }
}

/// The interfaces that the last interface parameter names, or none.
pub open spec fn last_named_interfaces(interfaces: Seq<Seq<char>>, ps: Seq<ParameterView>) -> Seq<Seq<char>>
    decreases ps.len(),
{
    if ps.len() == 0 {
        Seq::empty()
    } else {
        match ps.last() {
            ParameterView::Interface(names) => named_interfaces(interfaces, names),
            _ => last_named_interfaces(interfaces, ps.drop_last()),
        }
    }
}

/// The interfaces to open: those that the parameters name, or all of them
/// when that selection is empty.
pub open spec fn selected_interfaces(interfaces: Seq<Seq<char>>, ps: Seq<ParameterView>) -> Seq<Seq<char>> {
    if last_named_interfaces(interfaces, ps).len() == 0 {
        interfaces
    } else {
        last_named_interfaces(interfaces, ps)
    }
}

/// The views of a list of parameters.
pub open spec fn parameter_views(ps: Seq<Parameters>) -> Seq<ParameterView> {
    ps.map_values(|p: Parameters| p@)
}

/// A copy of a list of strings.
fn copy_texts(v: &Vec<String>) -> (r: Vec<String>)
    ensures
        texts(r@) == texts(v@),
{
    let r = v.clone();
    assert(texts(r@) =~= texts(v@));
    r
}

/// The interfaces of `interfaces`, in order, whose names are in `names`.
fn select_named(interfaces: &Vec<String>, names: &Vec<String>) -> (r: Vec<String>)
    ensures
        texts(r@) == named_interfaces(texts(interfaces@), texts(names@)),
{
    let mut r: Vec<String> = Vec::new();
    let mut i: usize = 0;
    while i < interfaces.len()
        invariant
            0 <= i <= interfaces.len(),
            texts(r@) == named_interfaces(texts(interfaces@).subrange(0, i as int), texts(names@)),
        decreases interfaces.len() - i,
    {
        let ghost prefix = texts(interfaces@).subrange(0, i as int + 1);
        assert(prefix.drop_last() =~= texts(interfaces@).subrange(0, i as int));
        let ghost before = r@;
        if crate::filtering::contains_text(names, &interfaces[i]) {
            r.push(interfaces[i].clone());
            assert(texts(r@) =~= texts(before).push(interfaces@[i as int]@));
        }
        i += 1;
    }
    assert(texts(interfaces@).subrange(0, interfaces.len() as int) =~= texts(interfaces@));
    r
}

/// Resolves the parameters into the interfaces to open and the port,
/// address and protocol filters. For each kind the last parameter wins; no
/// interface selection, or one that matches nothing, opens every interface.
pub fn consider_parameters(interfaces: Vec<String>, params: Vec<Parameters>) -> (r: (
    Vec<String>,
    Vec<u16>,
    Vec<String>,
    Vec<Protocol>,
))
    ensures
        texts(r.0@) == selected_interfaces(texts(interfaces@), parameter_views(params@)),
        r.1@ == last_ports(parameter_views(params@)),
        texts(r.2@) == last_ips(parameter_views(params@)),
        r.3@ == last_protocols(parameter_views(params@)),
{
    let ghost ps = parameter_views(params@);
    let mut working_interfaces: Vec<String> = Vec::new();
    let mut working_ports: Vec<u16> = Vec::new();
    let mut working_ips: Vec<String> = Vec::new();
    let mut specified_protocols: Vec<Protocol> = Vec::new();
    let mut i: usize = 0;
    while i < params.len()
        invariant
            0 <= i <= params.len(),
            ps == parameter_views(params@),
            texts(working_interfaces@) == last_named_interfaces(texts(interfaces@), ps.subrange(0, i as int)),
            working_ports@ == last_ports(ps.subrange(0, i as int)),
            texts(working_ips@) == last_ips(ps.subrange(0, i as int)),
            specified_protocols@ == last_protocols(ps.subrange(0, i as int)),
        decreases params.len() - i,
    {
        let ghost prefix = ps.subrange(0, i as int + 1);
        assert(prefix.drop_last() =~= ps.subrange(0, i as int));
        assert(prefix.last() == params@[i as int]@);
        match &params[i] {
            Parameters::IpAddress(ips) => {
                working_ips = copy_texts(ips);
            },
            Parameters::Port(ports) => {
                working_ports = ports.clone();
                assert(working_ports@ =~= ports@);
            },
            Parameters::Interface(names) => {
                working_interfaces = select_named(&interfaces, names);
            },
            Parameters::Protocol(protocols) => {
                specified_protocols = protocols.clone();
                assert(specified_protocols@ =~= protocols@);
            },
            _ => {},
        }
        i += 1;
    }
    assert(ps.subrange(0, params.len() as int) =~= ps);
    if working_interfaces.len() == 0 {
        working_interfaces = interfaces;
    }
    (working_interfaces, working_ports, working_ips, specified_protocols)
}

} // verus!
