//! The IPv6 network layer.
use vstd::prelude::*;

use pnet::packet::ipv6::Ipv6Packet;
use pnet::packet::Packet;

use crate::filtering::{check_ips, is_network_filter, network_filter_accepts, NetworkLayer};
use crate::layers::UpperProtocol;
use crate::protocols::{be16, high_nibble};
use crate::Parameters;

verus! {

/// The size of the fixed IPv6 header.
pub const IPV6_HEADER_LEN: usize = 40;

/// The canonical text of the IPv6 address made of the sixteen bytes `a`, as
/// `Ipv6Addr` displays it.
pub uninterp spec fn ipv6_text(a: Seq<u8>) -> Seq<char>;

/// The payload of an IPv6 packet: the bytes after the fixed header, up to
/// the payload length field, cut at the end of the buffer.
pub open spec fn payload(b: Seq<u8>) -> Seq<u8> {
    let end = if IPV6_HEADER_LEN + be16(b, 4) < b.len() {
        IPV6_HEADER_LEN + be16(b, 4)
    } else {
        b.len() as int
    };
    if b.len() <= IPV6_HEADER_LEN {
        Seq::empty()
    } else {
        b.subrange(IPV6_HEADER_LEN as int, end)
    }
}

/// The fields of an IPv6 header that the classifier reads.
pub struct Ipv6Header {
    pub version: u8,
    pub next_header: u8,
    pub source: String,
    pub destination: String,
    pub payload: Vec<u8>,
}

impl NetworkLayer for Ipv6Header {
    open spec fn source_text(&self) -> Seq<char> {
        self.source@
    }

    open spec fn destination_text(&self) -> Seq<char> {
        self.destination@
    }

    fn get_source_dest(&self) -> (r: (String, String)) {
        (self.source.clone(), self.destination.clone())
    }
}

/// Relies on pnet's `Ipv6Packet::new` (`None` below the 40 bytes of the
/// fixed header), its getters for the version, next header and addresses,
/// and `payload` (from byte 40 up to the payload length, cut at the end of
/// the buffer); and on the text of `Ipv6Addr`, a function of its bytes.
#[verifier::external_body]
fn parse_ipv6(packet: &[u8]) -> (r: Option<Ipv6Header>)
    ensures
        match r {
            None => packet@.len() < IPV6_HEADER_LEN,
            Some(h) => {
                &&& packet@.len() >= IPV6_HEADER_LEN
                &&& h.version == high_nibble(packet@[0])
                &&& h.next_header == packet@[6]
                &&& h.source@ == ipv6_text(packet@.subrange(8, 24))
                &&& h.destination@ == ipv6_text(packet@.subrange(24, 40))
                &&& h.payload@ == payload(packet@)
            },
        },
{
    match Ipv6Packet::new(packet) {
        Some(p) => Some(Ipv6Header {
            version: p.get_version(),
            next_header: p.get_next_header().0,
            source: p.get_source().to_string(),
            destination: p.get_destination().to_string(),
            payload: p.payload().to_vec(),
        }),
        None => None,
    }
}

/// What the IPv6 decoder yields for `b` under the filter `ips`: the next
/// header and the payload of a version 6 packet that the filter accepts,
/// else nothing.
pub open spec fn decode(b: Seq<u8>, ips: crate::ParameterView) -> Option<(UpperProtocol, Seq<u8>)> {
    if b.len() < IPV6_HEADER_LEN || high_nibble(b[0]) != 6 || !network_filter_accepts(
        ips,
        ipv6_text(b.subrange(8, 24)),
        ipv6_text(b.subrange(24, 40)),
    ) {
        None
    } else {
        Some((UpperProtocol::Layer2(b[6]), payload(b)))
    }
}

/// Decodes an IPv6 header, checks its version and applies the address
/// filter; yields the next header and the payload.
pub fn check_and_get_next_layer(packet: &[u8], ips: Parameters) -> (r: Option<(UpperProtocol, Vec<u8>)>)
    requires
        is_network_filter(ips),
    ensures
        crate::layers::step_view(r) == decode(packet@, ips@),
{
    match parse_ipv6(packet) {
        Some(h) => {
            if h.version != 6 {
                return None;
            }
            if check_ips(&h, ips) {
                Some((UpperProtocol::Layer2(h.next_header), h.payload))
            } else {
                None
            }
        },
        None => None,
    }
}

} // verus!
