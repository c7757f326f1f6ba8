//! ARP, read at the network access layer.
use vstd::prelude::*;

use pnet::packet::arp::ArpPacket;

use crate::filtering::{access_filter_accepts, check_arp_operation, is_access_filter};
use crate::layers::UpperProtocol;
use crate::protocols::be16;
use crate::Parameters;

verus! {

/// The size of an ARP packet for IPv4 over Ethernet.
pub const ARP_PACKET_LEN: usize = 28;

/// Relies on pnet's `ArpPacket::new` (`None` below its 28 bytes) and
/// `get_operation` (bytes 6 and 7, big-endian).
#[verifier::external_body]
fn arp_operation(packet: &[u8]) -> (r: Option<u16>)
    ensures
        match r {
            None => packet@.len() < ARP_PACKET_LEN,
            Some(op) => packet@.len() >= ARP_PACKET_LEN && op == be16(packet@, 6),
        },
{
    match ArpPacket::new(packet) {
        Some(p) => Some(p.get_operation().0),
        None => None,
    }
}

/// What the ARP decoder yields for `b` under the filter `op`: an ARP packet
/// whose operation the filter accepts ends the chain, with nothing above it.
pub open spec fn decode(b: Seq<u8>, op: crate::ParameterView) -> Option<(UpperProtocol, Seq<u8>)> {
    if b.len() < ARP_PACKET_LEN || !access_filter_accepts(op, be16(b, 6)) {
        None
    } else {
        Some((UpperProtocol::Layer2(0), Seq::empty()))
    }
}

/// Decodes an ARP packet and applies the operation filter to it.
pub fn check_and_get_next_layer(packet: &[u8], params: Parameters) -> (r: Option<(UpperProtocol, Vec<u8>)>)
    requires
        is_access_filter(params),
    ensures
        crate::layers::step_view(r) == decode(packet@, params@),
{
    match arp_operation(packet) {
        Some(op) => {
            if check_arp_operation(op, params) {
                Some((UpperProtocol::Layer2(0), Vec::new()))
            } else {
                None
            }
        },
        None => None,
    }
}

} // verus!
