//! The Ethernet II link layer.
use vstd::prelude::*;

use pnet::packet::ethernet::EthernetPacket;
use pnet::packet::Packet;

use crate::layers::UpperProtocol;
use crate::protocols::be16;

verus! {

/// The size of an Ethernet II header.
pub const ETHERNET_HEADER_LEN: usize = 14;

/// The ethertype of IPv4.
pub const ETHERTYPE_IPV4: u16 = 0x0800;

/// The ethertype of IPv6.
pub const ETHERTYPE_IPV6: u16 = 0x86dd;

/// The ethertype and the payload of a frame, or `None` when the frame is
/// shorter than an Ethernet header.
pub open spec fn decode(b: Seq<u8>) -> Option<(UpperProtocol, Seq<u8>)> {
    if b.len() < ETHERNET_HEADER_LEN {
        None
    } else {
        Some((UpperProtocol::Layer1(be16(b, 12)), b.subrange(ETHERNET_HEADER_LEN as int, b.len() as int)))
    }
}

/// Relies on pnet's `EthernetPacket::new` (`None` below the 14 bytes of the
/// header), `get_ethertype` (bytes 12 and 13, big-endian) and `payload`
/// (every byte after the header).
#[verifier::external_body]
fn parse_ethernet(frame: &[u8]) -> (r: Option<(u16, Vec<u8>)>)
    ensures
        match r {
            None => frame@.len() < ETHERNET_HEADER_LEN,
            Some((ethertype, payload)) => {
                &&& frame@.len() >= ETHERNET_HEADER_LEN
                &&& ethertype == be16(frame@, 12)
                &&& payload@ == frame@.subrange(ETHERNET_HEADER_LEN as int, frame@.len() as int)
            },
        },
{
    match EthernetPacket::new(frame) {
        Some(p) => Some((p.get_ethertype().0, p.payload().to_vec())),
        None => None,
    }
}

/// Decodes the Ethernet header of a frame: the declared ethertype and the
/// bytes that follow the header.
pub fn check_and_get_next_layer(packet: &[u8]) -> (r: Option<(UpperProtocol, Vec<u8>)>)
    ensures
        crate::layers::step_view(r) == decode(packet@),
{
    match parse_ethernet(packet) {
        Some((ethertype, payload)) => Some((UpperProtocol::Layer1(ethertype), payload)),
        None => None,
    }
}

} // verus!
