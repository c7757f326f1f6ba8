//! The layers of the TCP/IP stack and the classifier that descends through
//! them.
use vstd::prelude::*;

use crate::protocols::ethernet::{self, ETHERTYPE_IPV4, ETHERTYPE_IPV6};
use crate::protocols::{ipv4, ipv6, tcp, udp, Protocol};
use crate::{texts, ParameterView, Parameters};

verus! {

/// The next-protocol value that one layer declares for the layer above it.
#[derive(Clone, Copy, PartialEq, Eq, Structural, Debug)]
pub enum UpperProtocol {
    /// An ethertype, declared by the network access layer.
    Layer1(u16),
    /// An IP protocol number, declared by the network layer.
    Layer2(u8),
    /// The (destination, source) ports, declared by the transport layer.
    Layer3(u16, u16),
}

/// The content of a decoder's result: the next-protocol value and the bytes
/// handed to the layer above.
pub open spec fn step_view(r: Option<(UpperProtocol, Vec<u8>)>) -> Option<(UpperProtocol, Seq<u8>)> {
    match r {
        None => None,
        Some((up, rest)) => Some((up, rest@)),
    }
}

} // verus!

verus! {

/// The number of layers of the stack: network access, network, transport
/// and application.
pub const LAYER_COUNT: usize = 4;

/// The IP protocol number of TCP.
pub const IP_PROTOCOL_TCP: u8 = 6;

/// The IP protocol number of UDP.
pub const IP_PROTOCOL_UDP: u8 = 17;

/// What the network access layer yields for a frame.
pub open spec fn access_spec(b: Seq<u8>) -> Option<(Protocol, UpperProtocol, Seq<u8>)> {
    match ethernet::decode(b) {
        None => None,
        Some((up, rest)) => Some((Protocol::ETHERNET, up, rest)),
    }
}

/// What the network layer yields for the bytes `b` that the link layer
/// declared as `up`, under the address filter `ips`.
pub open spec fn network_spec(b: Seq<u8>, up: UpperProtocol, ips: Seq<Seq<char>>) -> Option<
    (Protocol, UpperProtocol, Seq<u8>),
> {
    match up {
        UpperProtocol::Layer1(t) => if t == ETHERTYPE_IPV4 {
            match ipv4::decode(b, ParameterView::IpAddress(ips)) {
                None => None,
                Some((next, rest)) => Some((Protocol::IPv4, next, rest)),
            }
        } else if t == ETHERTYPE_IPV6 {
            match ipv6::decode(b, ParameterView::IpAddress(ips)) {
                None => None,
                Some((next, rest)) => Some((Protocol::IPv6, next, rest)),
            }
        } else {
            None
        },
        _ => None,
    }
}

/// What the transport layer yields for the bytes `b` that the network layer
/// declared as `up`, under the port filter `ports`.
pub open spec fn transport_spec(b: Seq<u8>, up: UpperProtocol, ports: Seq<u16>) -> Option<
    (Protocol, UpperProtocol, Seq<u8>),
> {
    match up {
        UpperProtocol::Layer2(n) => if n == IP_PROTOCOL_TCP {
            match tcp::decode(b, ParameterView::Port(ports)) {
                None => None,
                Some((next, rest)) => Some((Protocol::TCP, next, rest)),
            }
        } else if n == IP_PROTOCOL_UDP {
            match udp::decode(b, ParameterView::Port(ports)) {
                None => None,
                Some((next, rest)) => Some((Protocol::UDP, next, rest)),
            }
        } else {
            None
        },
        _ => None,
    }
}

/// The layer at `depth` (0 for network access, 1 for network, 2 for
/// transport, 3 for application) over the bytes `b` that the layer below
/// declared as `up`. The application layer is never recognised.
pub open spec fn layer_spec(depth: nat, b: Seq<u8>, up: UpperProtocol, ips: Seq<Seq<char>>, ports: Seq<u16>) -> Option<
    (Protocol, UpperProtocol, Seq<u8>),
> {
    if depth == 0 {
        access_spec(b)
    } else if depth == 1 {
        network_spec(b, up, ips)
    } else if depth == 2 {
        transport_spec(b, up, ports)
    } else {
        None
    }
}

/// The layers recognised from `depth` on, each with the bytes it covers,
/// up to the first layer that is not recognised or that a filter rejects.
pub open spec fn chain_from(depth: nat, b: Seq<u8>, up: UpperProtocol, ips: Seq<Seq<char>>, ports: Seq<u16>) -> Seq<
    (Protocol, Seq<u8>),
>
    decreases LAYER_COUNT - depth,
{
    if depth >= LAYER_COUNT {
        Seq::empty()
    } else {
        match layer_spec(depth, b, up, ips, ports) {
            None => Seq::empty(),
            Some((p, next, rest)) => seq![(p, b)] + chain_from(depth + 1, rest, next, ips, ports),
        }
    }
}

/// The classification chain of a frame, outermost layer first.
pub open spec fn chain_spec(frame: Seq<u8>, ips: Seq<Seq<char>>, ports: Seq<u16>) -> Seq<(Protocol, Seq<u8>)> {
    chain_from(0, frame, UpperProtocol::Layer1(0), ips, ports)
}

/// The view of a decoder result of this module.
pub open spec fn layer_result_view(r: Option<(Protocol, UpperProtocol, Vec<u8>)>) -> Option<
    (Protocol, UpperProtocol, Seq<u8>),
> {
    match r {
        None => None,
        Some((p, up, rest)) => Some((p, up, rest@)),
    }
}

/// Decodes the network access layer of a frame.
pub fn check_network_access_layer(packet: Vec<u8>) -> (r: Option<(Protocol, UpperProtocol, Vec<u8>)>)
    ensures
        layer_result_view(r) == access_spec(packet@),
{
    match ethernet::check_and_get_next_layer(packet.as_slice()) {
        Some((up, rest)) => Some((Protocol::ETHERNET, up, rest)),
        None => None,
    }
}

/// Decodes the network layer that the link layer declared as
/// `current_protocol`, under the address filter `ips`.
pub fn check_network_layer(packet: Vec<u8>, current_protocol: UpperProtocol, ips: &Vec<String>) -> (r: Option<
    (Protocol, UpperProtocol, Vec<u8>),
>)
    ensures
        layer_result_view(r) == network_spec(packet@, current_protocol, texts(ips@)),
{
    let filter = Parameters::IpAddress(ips.clone());
    assert(texts(ips@) =~= texts(filter->IpAddress_0@));
    match current_protocol {
        UpperProtocol::Layer1(t) => if t == ETHERTYPE_IPV4 {
            match ipv4::check_and_get_next_layer(packet.as_slice(), filter) {
                Some((up, rest)) => Some((Protocol::IPv4, up, rest)),
                None => None,
            }
        } else if t == ETHERTYPE_IPV6 {
            match ipv6::check_and_get_next_layer(packet.as_slice(), filter) {
                Some((up, rest)) => Some((Protocol::IPv6, up, rest)),
                None => None,
            }
        } else {
            None
        },
        _ => None,
    }
}

/// Decodes the transport layer that the network layer declared as
/// `current_protocol`, under the port filter `ports`.
pub fn check_transport_layer(packet: Vec<u8>, current_protocol: UpperProtocol, ports: &Vec<u16>) -> (r: Option<
    (Protocol, UpperProtocol, Vec<u8>),
>)
    ensures
        layer_result_view(r) == transport_spec(packet@, current_protocol, ports@),
{
    let filter = Parameters::Port(ports.clone());
    assert(ports@ =~= filter->Port_0@);
    match current_protocol {
        UpperProtocol::Layer2(n) => if n == IP_PROTOCOL_TCP {
            match tcp::check_and_get_next_layer(packet.as_slice(), filter) {
                Some((up, rest)) => Some((Protocol::TCP, up, rest)),
                None => None,
            }
        } else if n == IP_PROTOCOL_UDP {
            match udp::check_and_get_next_layer(packet.as_slice(), filter) {
                Some((up, rest)) => Some((Protocol::UDP, up, rest)),
                None => None,
            }
        } else {
            None
        },
        _ => None,
    }
}

/// The application layer: a declared extension point that recognises no
/// protocol yet.
pub fn check_application_layer(packet: Vec<u8>, _current_protocol: UpperProtocol) -> (r: Option<
    (Protocol, UpperProtocol, Vec<u8>),
>)
    ensures
        r is None,
{
    None
}

} // verus!

verus! {

/// One recognised layer of a packet: its protocol and the bytes of its
/// header and payload. Its position is its index in the chain.
#[derive(Debug)]
pub struct Layer {
    pub protocol: Protocol,
    pub data: Vec<u8>,
}

/// The protocols and bytes of a chain of layers.
pub open spec fn layers_view(chain: Seq<Layer>) -> Seq<(Protocol, Seq<u8>)> {
    chain.map_values(|l: Layer| (l.protocol, l.data@))
}

impl Layer {
    pub fn create(protocol: Protocol, data: Vec<u8>) -> (r: Layer)
        ensures
            r.protocol == protocol,
            r.data@ == data@,
    {
        Layer { protocol, data }
    }

    pub fn contains(&self, protocol: Protocol) -> (r: bool)
        ensures
            r == (self.protocol == protocol),
    {
        self.protocol == protocol
    }
}

/// Decodes the layer at `depth` over `packet`, which the layer below
/// declared as `up`.
fn next_layer(depth: usize, packet: Vec<u8>, up: UpperProtocol, ips: &Vec<String>, ports: &Vec<u16>) -> (r: Option<
    (Protocol, UpperProtocol, Vec<u8>),
>)
    ensures
        layer_result_view(r) == layer_spec(depth as nat, packet@, up, texts(ips@), ports@),
{
    if depth == 0 {
        check_network_access_layer(packet)
    } else if depth == 1 {
        check_network_layer(packet, up, ips)
    } else if depth == 2 {
        check_transport_layer(packet, up, ports)
    } else {
        check_application_layer(packet, up)
    }
}

/// Classifies a frame into its chain of layers, outermost first. Each layer
/// decides which decoder reads the next one; the chain ends at the first
/// layer that is unrecognised, malformed, or rejected by its filter.
pub fn classify(frame: &[u8], ips: &Vec<String>, ports: &Vec<u16>) -> (chain: Vec<Layer>)
    ensures
        layers_view(chain@) == chain_spec(frame@, texts(ips@), ports@),
{
    let ghost target = chain_spec(frame@, texts(ips@), ports@);
    let mut chain: Vec<Layer> = Vec::new();
    let mut bytes: Vec<u8> = vstd::slice::slice_to_vec(frame);
    let mut up = UpperProtocol::Layer1(0);
    let mut depth: usize = 0;
    loop
        invariant
            depth <= LAYER_COUNT,
            target == chain_spec(frame@, texts(ips@), ports@),
            layers_view(chain@) + chain_from(depth as nat, bytes@, up, texts(ips@), ports@) == target,
        decreases LAYER_COUNT - depth,
    {
        if depth == LAYER_COUNT {
            assert(layers_view(chain@) =~= target);
            return chain;
        }
        match next_layer(depth, bytes.clone(), up, ips, ports) {
            None => {
                assert(layers_view(chain@) =~= target);
                return chain;
            },
            Some((p, next, rest)) => {
                let ghost before = chain@;
                let ghost tail = chain_from((depth + 1) as nat, rest@, next, texts(ips@), ports@);
                chain.push(Layer::create(p, bytes));
                assert(layers_view(chain@) =~= layers_view(before).push((p, chain@.last().data@)));
                assert(layers_view(chain@) + tail =~= target);
                bytes = rest;
                up = next;
                depth += 1;
            },
        }
    }
}

/// The protocol filter accepts a chain when it is empty, or when it names
/// the protocol of some layer of the chain.
pub open spec fn protocol_filter_accepts(chain: Seq<(Protocol, Seq<u8>)>, protocols: Seq<Protocol>) -> bool {
    protocols.len() == 0 || exists|i: int| 0 <= i < chain.len() && protocols.contains(#[trigger] chain[i].0)
}

/// A non-empty address filter needs a network layer, and a non-empty port
/// filter a transport layer: a packet that never reached the layer of a
/// filter is rejected.
pub open spec fn depth_accepts(chain_len: nat, ips: Seq<Seq<char>>, ports: Seq<u16>) -> bool {
    &&& !(chain_len < 2 && ips.len() > 0)
    &&& !(chain_len < 3 && ports.len() > 0)
}

/// Whether a packet with the chain `chain` is reported.
pub open spec fn packet_accepted_spec(
    chain: Seq<(Protocol, Seq<u8>)>,
    protocols: Seq<Protocol>,
    ips: Seq<Seq<char>>,
    ports: Seq<u16>,
) -> bool {
    &&& chain.len() > 0
    &&& depth_accepts(chain.len(), ips, ports)
    &&& protocol_filter_accepts(chain, protocols)
}

/// Whether the protocol `p` is one of `protocols`.
fn has_protocol(layer: &Layer, protocols: &Vec<Protocol>) -> (r: bool)
    ensures
        r == protocols@.contains(layer.protocol),
{
    let mut i: usize = 0;
    while i < protocols.len()
        invariant
            0 <= i <= protocols.len(),
            forall|j: int| 0 <= j < i ==> protocols@[j] != layer.protocol,
        decreases protocols.len() - i,
    {
        if layer.contains(protocols[i]) {
            assert(protocols@[i as int] == layer.protocol);
            return true;
        }
        i += 1;
    }
    false
}

/// The final acceptance gate of a classified packet.
pub fn packet_accepted(chain: &Vec<Layer>, protocols: &Vec<Protocol>, ips: &Vec<String>, ports: &Vec<u16>) -> (r: bool)
    ensures
        r == packet_accepted_spec(layers_view(chain@), protocols@, texts(ips@), ports@),
{
    let ghost view = layers_view(chain@);
    if chain.len() == 0 {
        return false;
    }
    if (chain.len() < 2 && ips.len() > 0) || (chain.len() < 3 && ports.len() > 0) {
        return false;
    }
    assert(view.len() == chain@.len());
    if protocols.len() == 0 {
        return true;
    }
    let mut i: usize = 0;
    while i < chain.len()
        invariant
            0 <= i <= chain.len(),
            view == layers_view(chain@),
            view.len() > 0,
            depth_accepts(view.len(), texts(ips@), ports@),
            forall|j: int| 0 <= j < i ==> !protocols@.contains(#[trigger] view[j].0),
        decreases chain.len() - i,
    {
        if has_protocol(&chain[i], protocols) {
            assert(protocols@.contains(view[i as int].0));
            return true;
        }
        i += 1;
    }
    false
}

/// Classifies a frame and applies every filter to it: the chain when the
/// packet is to be reported, else `None`.
pub fn check_all_layers(packet: &[u8], protocols: &Vec<Protocol>, ips: &Vec<String>, ports: &Vec<u16>) -> (r: Option<Vec<Layer>>)
    ensures
        match r {
            None => !packet_accepted_spec(chain_spec(packet@, texts(ips@), ports@), protocols@, texts(ips@), ports@),
            Some(chain) => {
                &&& layers_view(chain@) == chain_spec(packet@, texts(ips@), ports@)
                &&& packet_accepted_spec(layers_view(chain@), protocols@, texts(ips@), ports@)
            },
        },
{
    let chain = classify(packet, ips, ports);
    if packet_accepted(&chain, protocols, ips, ports) {
        Some(chain)
    } else {
        None
    }
}

} // verus!

verus! {

/// A frame shorter than an Ethernet header yields an empty chain.
pub proof fn lemma_short_frame_empty_chain(frame: Seq<u8>, ips: Seq<Seq<char>>, ports: Seq<u16>)
    requires
        frame.len() < ethernet::ETHERNET_HEADER_LEN,
    ensures
        chain_spec(frame, ips, ports).len() == 0,
{
}

/// A well-formed Ethernet frame whose ethertype is neither IPv4 nor IPv6
/// yields a chain of exactly one layer, the link layer.
pub proof fn lemma_other_ethertype_single_layer(frame: Seq<u8>, ips: Seq<Seq<char>>, ports: Seq<u16>)
    requires
        frame.len() >= ethernet::ETHERNET_HEADER_LEN,
        crate::protocols::be16(frame, 12) != ETHERTYPE_IPV4,
        crate::protocols::be16(frame, 12) != ETHERTYPE_IPV6,
    ensures
        chain_spec(frame, ips, ports).len() == 1,
        chain_spec(frame, ips, ports)[0] == (Protocol::ETHERNET, frame),
{
    let rest = frame.subrange(ethernet::ETHERNET_HEADER_LEN as int, frame.len() as int);
    let up = UpperProtocol::Layer1(crate::protocols::be16(frame, 12));
    assert(chain_from(1, rest, up, ips, ports) == Seq::<(Protocol, Seq<u8>)>::empty());
}

/// An empty protocol filter rejects no chain that classification produced:
/// with it, a non-empty chain is reported exactly when the address and
/// port filters reached their layers.
pub proof fn lemma_empty_protocol_filter_rejects_nothing(frame: Seq<u8>, ips: Seq<Seq<char>>, ports: Seq<u16>)
    requires
        chain_spec(frame, ips, ports).len() > 0,
    ensures
        protocol_filter_accepts(chain_spec(frame, ips, ports), Seq::empty()),
        packet_accepted_spec(chain_spec(frame, ips, ports), Seq::empty(), ips, ports)
            == depth_accepts(chain_spec(frame, ips, ports).len(), ips, ports),
{
}

/// A non-empty address filter rejects every packet whose chain never
/// reached a network layer, whatever the other filters are.
pub proof fn lemma_ip_filter_without_network_layer_rejects(
    frame: Seq<u8>,
    protocols: Seq<Protocol>,
    ips: Seq<Seq<char>>,
    ports: Seq<u16>,
)
    requires
        ips.len() > 0,
        chain_spec(frame, ips, ports).len() < 2,
    ensures
        !packet_accepted_spec(chain_spec(frame, ips, ports), protocols, ips, ports),
{
}

/// From `depth` on, a chain holds at most one layer for each of the
/// network access, network and transport layers that remain.
proof fn lemma_chain_from_len(depth: nat, b: Seq<u8>, up: UpperProtocol, ips: Seq<Seq<char>>, ports: Seq<u16>)
    requires
        depth <= 3,
    ensures
        chain_from(depth, b, up, ips, ports).len() <= 3 - depth,
    decreases 3 - depth,
{
    if depth < 3 {
        match layer_spec(depth, b, up, ips, ports) {
            None => {},
            Some((p, next, rest)) => lemma_chain_from_len(depth + 1, rest, next, ips, ports),
        }
    }
}

/// The application layer is never recognised, so a chain has at most three
/// layers: network access, network and transport.
pub proof fn lemma_chain_at_most_three_layers(frame: Seq<u8>, ips: Seq<Seq<char>>, ports: Seq<u16>)
    ensures
        chain_spec(frame, ips, ports).len() <= 3,
{
    lemma_chain_from_len(0, frame, UpperProtocol::Layer1(0), ips, ports);
}

/// A port filter that lets a transport layer through decodes it as no
/// filter would.
proof fn lemma_transport_without_port_filter(b: Seq<u8>, up: UpperProtocol, ports: Seq<u16>)
    requires
        transport_spec(b, up, ports) is Some,
    ensures
        transport_spec(b, up, Seq::empty()) == transport_spec(b, up, ports),
{
}

/// An address filter that lets a network layer through decodes it as no
/// filter would.
proof fn lemma_network_without_ip_filter(b: Seq<u8>, up: UpperProtocol, ips: Seq<Seq<char>>)
    requires
        network_spec(b, up, ips) is Some,
    ensures
        network_spec(b, up, Seq::empty()) == network_spec(b, up, ips),
{
}

/// Adding a port filter only narrows what is reported: a packet reported
/// with it is reported without it.
pub proof fn lemma_port_filter_only_narrows(
    frame: Seq<u8>,
    protocols: Seq<Protocol>,
    ips: Seq<Seq<char>>,
    ports: Seq<u16>,
)
    requires
        packet_accepted_spec(chain_spec(frame, ips, ports), protocols, ips, ports),
    ensures
        packet_accepted_spec(chain_spec(frame, ips, Seq::empty()), protocols, ips, Seq::empty()),
{
    let none = Seq::<u16>::empty();
    if ports.len() == 0 {
        assert(ports =~= none);
    } else {
        assert(layer_spec(0, frame, UpperProtocol::Layer1(0), ips, ports) is Some);
        let (_, up0, rest0) = access_spec(frame).unwrap();
        assert(chain_from(1, rest0, up0, ips, ports).len() >= 2);
        assert(layer_spec(1, rest0, up0, ips, ports) is Some);
        let (_, up1, rest1) = network_spec(rest0, up0, ips).unwrap();
        assert(chain_from(2, rest1, up1, ips, ports).len() >= 1);
        assert(layer_spec(2, rest1, up1, ips, ports) is Some);
        lemma_transport_without_port_filter(rest1, up1, ports);
        let (_, up2, rest2) = transport_spec(rest1, up1, ports).unwrap();
        assert(chain_from(3, rest2, up2, ips, ports) == chain_from(3, rest2, up2, ips, none));
        assert(chain_from(2, rest1, up1, ips, ports) == chain_from(2, rest1, up1, ips, none));
        assert(chain_from(1, rest0, up0, ips, ports) == chain_from(1, rest0, up0, ips, none));
        assert(chain_spec(frame, ips, ports) == chain_spec(frame, ips, none));
    }
}

/// Adding an address filter only narrows what is reported: a packet
/// reported with it is reported without it.
pub proof fn lemma_ip_filter_only_narrows(
    frame: Seq<u8>,
    protocols: Seq<Protocol>,
    ips: Seq<Seq<char>>,
    ports: Seq<u16>,
)
    requires
        packet_accepted_spec(chain_spec(frame, ips, ports), protocols, ips, ports),
    ensures
        packet_accepted_spec(chain_spec(frame, Seq::empty(), ports), protocols, Seq::empty(), ports),
{
    let none = Seq::<Seq<char>>::empty();
    if ips.len() == 0 {
        assert(ips =~= none);
    } else {
        assert(layer_spec(0, frame, UpperProtocol::Layer1(0), ips, ports) is Some);
        let (_, up0, rest0) = access_spec(frame).unwrap();
        assert(chain_from(1, rest0, up0, ips, ports).len() >= 1);
        assert(layer_spec(1, rest0, up0, ips, ports) is Some);
        lemma_network_without_ip_filter(rest0, up0, ips);
        let (_, up1, rest1) = network_spec(rest0, up0, ips).unwrap();
        assert(chain_from(3, rest1, up1, ips, ports) == chain_from(3, rest1, up1, none, ports));
        match transport_spec(rest1, up1, ports) {
            None => {},
            Some((_, up2, rest2)) => {
                assert(chain_from(3, rest2, up2, ips, ports) == chain_from(3, rest2, up2, none, ports));
            },
        }
        assert(chain_from(2, rest1, up1, ips, ports) == chain_from(2, rest1, up1, none, ports));
        assert(chain_from(1, rest0, up0, ips, ports) == chain_from(1, rest0, up0, none, ports));
        assert(chain_spec(frame, ips, ports) == chain_spec(frame, none, ports));
    }
}

} // verus!
