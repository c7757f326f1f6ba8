//! The TCP transport layer.
use vstd::prelude::*;

use pnet::packet::tcp::TcpPacket;
use pnet::packet::Packet;

use crate::filtering::{check_ports, is_transport_filter, transport_filter_accepts};
use crate::layers::UpperProtocol;
use crate::protocols::{be16, high_nibble};
use crate::Parameters;

verus! {

/// The size of a TCP header without options.
pub const TCP_HEADER_LEN: usize = 20;

/// Where the payload starts: after the header and its options, as the data
/// offset field declares them.
pub open spec fn payload_start(b: Seq<u8>) -> int {
    let offset = high_nibble(b[12]) as int;
    if offset > 5 {
        offset * 4
    } else {
        20
    }
}

/// The payload of a TCP segment: every byte after the options.
pub open spec fn payload(b: Seq<u8>) -> Seq<u8> {
    if b.len() <= payload_start(b) {
        Seq::empty()
    } else {
        b.subrange(payload_start(b), b.len() as int)
    }
}

/// Relies on pnet's `TcpPacket::new` (`None` below the 20 bytes of the
/// header), `get_source` and `get_destination` (bytes 0-1 and 2-3,
/// big-endian) and `payload` (every byte after the options that the data
/// offset declares).
#[verifier::external_body]
fn parse_tcp(packet: &[u8]) -> (r: Option<(u16, u16, Vec<u8>)>)
    ensures
        match r {
            None => packet@.len() < TCP_HEADER_LEN,
            Some((source, dest, rest)) => {
                &&& packet@.len() >= TCP_HEADER_LEN
                &&& source == be16(packet@, 0)
                &&& dest == be16(packet@, 2)
                &&& rest@ == payload(packet@)
            },
        },
{
    match TcpPacket::new(packet) {
        Some(p) => Some((p.get_source(), p.get_destination(), p.payload().to_vec())),
        None => None,
    }
}

/// What the TCP decoder yields for `b` under the filter `ports`: the
/// (destination, source) ports and the payload of a segment that the filter
/// accepts, else nothing.
pub open spec fn decode(b: Seq<u8>, ports: crate::ParameterView) -> Option<(UpperProtocol, Seq<u8>)> {
    if b.len() < TCP_HEADER_LEN || !transport_filter_accepts(ports, be16(b, 0), be16(b, 2)) {
        None
    } else {
        Some((UpperProtocol::Layer3(be16(b, 2), be16(b, 0)), payload(b)))
    }
}

/// Decodes a TCP header and applies the port filter to its source and
/// destination ports.
pub fn check_and_get_next_layer(packet: &[u8], p: Parameters) -> (r: Option<(UpperProtocol, Vec<u8>)>)
    requires
        is_transport_filter(p),
    ensures
        crate::layers::step_view(r) == decode(packet@, p@),
{
    match parse_tcp(packet) {
        Some((source, dest, rest)) => {
            if check_ports(source, dest, p) {
                Some((UpperProtocol::Layer3(dest, source), rest))
            } else {
                None
            }
        },
        None => None,
    }
}

} // verus!
