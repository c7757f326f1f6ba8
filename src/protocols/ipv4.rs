//! The IPv4 network layer.
use vstd::prelude::*;

use pnet::packet::ipv4::Ipv4Packet;
use pnet::packet::Packet;

use crate::filtering::{check_ips, is_network_filter, network_filter_accepts, NetworkLayer};
use crate::layers::UpperProtocol;
use crate::protocols::{be16, high_nibble};
use crate::Parameters;

verus! {

/// The size of an IPv4 header without options.
pub const IPV4_HEADER_LEN: usize = 20;

/// The decimal digit `d`, for `d < 10`.
pub open spec fn digit_char(d: nat) -> char {
    seq!['0', '1', '2', '3', '4', '5', '6', '7', '8', '9'][d as int]
}

/// The decimal text of `n`, without leading zeros.
pub open spec fn decimal_text(n: nat) -> Seq<char>
    decreases n,
{
    if n < 10 {
        seq![digit_char(n)]
    } else {
        decimal_text(n / 10).push(digit_char(n % 10))
    }
}

/// The dot-decimal text of the four bytes of an IPv4 address.
pub open spec fn dotted_quad(a: Seq<u8>) -> Seq<char> {
    decimal_text(a[0] as nat) + seq!['.'] + decimal_text(a[1] as nat) + seq!['.']
        + decimal_text(a[2] as nat) + seq!['.'] + decimal_text(a[3] as nat)
}

/// The header length field, in 32-bit words.
pub open spec fn header_words(b: Seq<u8>) -> int {
    (b[0] % 16) as int
}

/// Where the payload starts: after the fixed header and the options.
pub open spec fn payload_start(b: Seq<u8>) -> int {
    if header_words(b) * 4 > 20 {
        header_words(b) * 4
    } else {
        20
    }
}

/// How many payload bytes the total length field declares.
pub open spec fn declared_payload_len(b: Seq<u8>) -> int {
    if be16(b, 2) as int > header_words(b) * 4 {
        be16(b, 2) as int - header_words(b) * 4
    } else {
        0
    }
}

/// The payload of an IPv4 packet: the declared payload bytes that the
/// buffer holds.
pub open spec fn payload(b: Seq<u8>) -> Seq<u8> {
    let start = payload_start(b);
    let end = if start + declared_payload_len(b) < b.len() {
        start + declared_payload_len(b)
    } else {
        b.len() as int
    };
    if b.len() <= start {
        Seq::empty()
    } else {
        b.subrange(start, end)
    }
}

/// The fields of an IPv4 header that the classifier reads.
pub struct Ipv4Header {
    pub version: u8,
    pub next_level_protocol: u8,
    pub source: String,
    pub destination: String,
    pub payload: Vec<u8>,
}

impl NetworkLayer for Ipv4Header {
    open spec fn source_text(&self) -> Seq<char> {
        self.source@
    }

    open spec fn destination_text(&self) -> Seq<char> {
        self.destination@
    }

    fn get_source_dest(&self) -> (r: (String, String)) {
        (self.source.clone(), self.destination.clone())
    }
}

/// Relies on pnet's `Ipv4Packet::new` (`None` below the 20 bytes of the
/// fixed header), its getters for the version, protocol and addresses, and
/// `payload` (from the end of the options up to the total length, cut at
/// the end of the buffer); and on the dot-decimal text of `Ipv4Addr`.
#[verifier::external_body]
fn parse_ipv4(packet: &[u8]) -> (r: Option<Ipv4Header>)
    ensures
        match r {
            None => packet@.len() < IPV4_HEADER_LEN,
            Some(h) => {
                &&& packet@.len() >= IPV4_HEADER_LEN
                &&& h.version == high_nibble(packet@[0])
                &&& h.next_level_protocol == packet@[9]
                &&& h.source@ == dotted_quad(packet@.subrange(12, 16))
                &&& h.destination@ == dotted_quad(packet@.subrange(16, 20))
                &&& h.payload@ == payload(packet@)
            },
        },
{
    match Ipv4Packet::new(packet) {
        Some(p) => Some(Ipv4Header {
            version: p.get_version(),
            next_level_protocol: p.get_next_level_protocol().0,
            source: p.get_source().to_string(),
            destination: p.get_destination().to_string(),
            payload: p.payload().to_vec(),
        }),
        None => None,
    }
}

/// What the IPv4 decoder yields for `b` under the filter `ips`: the
/// protocol number and the payload of a version 4 packet that the filter
/// accepts, else nothing.
pub open spec fn decode(b: Seq<u8>, ips: crate::ParameterView) -> Option<(UpperProtocol, Seq<u8>)> {
    if b.len() < IPV4_HEADER_LEN || high_nibble(b[0]) != 4 || !network_filter_accepts(
        ips,
        dotted_quad(b.subrange(12, 16)),
        dotted_quad(b.subrange(16, 20)),
    ) {
        None
    } else {
        Some((UpperProtocol::Layer2(b[9]), payload(b)))
    }
}

/// Decodes an IPv4 header, checks its version and applies the address
/// filter; yields the protocol number and the payload.
pub fn check_and_get_next_layer(packet: &[u8], ips: Parameters) -> (r: Option<(UpperProtocol, Vec<u8>)>)
    requires
        is_network_filter(ips),
    ensures
        crate::layers::step_view(r) == decode(packet@, ips@),
{
    match parse_ipv4(packet) {
        Some(h) => {
            if h.version != 4 {
                return None;
            }
            if check_ips(&h, ips) {
                Some((UpperProtocol::Layer2(h.next_level_protocol), h.payload))
            } else {
                None
            }
        },
        None => None,
    }
}

} // verus!
