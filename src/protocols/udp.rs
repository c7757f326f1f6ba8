//! The UDP transport layer.
use vstd::prelude::*;

use pnet::packet::udp::UdpPacket;
use pnet::packet::Packet;

use crate::filtering::{check_ports, is_transport_filter, transport_filter_accepts};
use crate::layers::UpperProtocol;
use crate::protocols::be16;
use crate::Parameters;

verus! {

/// The size of a UDP header.
pub const UDP_HEADER_LEN: usize = 8;

/// Relies on pnet's `UdpPacket::new` (`None` below the 8 bytes of the
/// header), `get_source` and `get_destination` (bytes 0-1 and 2-3,
/// big-endian) and `payload` (every byte after the header).
#[verifier::external_body]
fn parse_udp(packet: &[u8]) -> (r: Option<(u16, u16, Vec<u8>)>)
    ensures
        match r {
            None => packet@.len() < UDP_HEADER_LEN,
            Some((source, dest, rest)) => {
                &&& packet@.len() >= UDP_HEADER_LEN
                &&& source == be16(packet@, 0)
                &&& dest == be16(packet@, 2)
                &&& rest@ == packet@.subrange(UDP_HEADER_LEN as int, packet@.len() as int)
            },
        },
{
    match UdpPacket::new(packet) {
        Some(p) => Some((p.get_source(), p.get_destination(), p.payload().to_vec())),
        None => None,
    }
}

/// What the UDP decoder yields for `b` under the filter `ports`: the
/// (destination, source) ports and the payload of a datagram that the
/// filter accepts, else nothing.
pub open spec fn decode(b: Seq<u8>, ports: crate::ParameterView) -> Option<(UpperProtocol, Seq<u8>)> {
    if b.len() < UDP_HEADER_LEN || !transport_filter_accepts(ports, be16(b, 0), be16(b, 2)) {
        None
    } else {
        Some((UpperProtocol::Layer3(be16(b, 2), be16(b, 0)), b.subrange(UDP_HEADER_LEN as int, b.len() as int)))
    }
}

/// Decodes a UDP header and applies the port filter to its source and
/// destination ports.
pub fn check_and_get_next_layer(packet: &[u8], p: Parameters) -> (r: Option<(UpperProtocol, Vec<u8>)>)
    requires
        is_transport_filter(p),
    ensures
        crate::layers::step_view(r) == decode(packet@, p@),
{
    match parse_udp(packet) {
        Some((source, dest, rest)) => {
            if check_ports(source, dest, p) {
                Some((UpperProtocol::Layer3(dest, source), rest))
            } else {
                None
            }
        },
        None => None,
    }
}

} // verus!
