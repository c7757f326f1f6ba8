//! Classification of captured network frames into a layered protocol chain,
//! and the filters that decide which packets are reported.
use vstd::prelude::*;

pub mod capture;
pub mod filtering;
pub mod io;
pub mod layers;
pub mod protocols;

use crate::protocols::Protocol;

verus! {

/// A filter criterion given by the user. Each kind is meaningful at one
/// layer only: addresses at the network layer, ports at the transport layer,
/// the ARP operation at the network access layer.
#[derive(Debug)]
pub enum Parameters {
    IpAddress(Vec<String>),
    Port(Vec<u16>),
    Interface(Vec<String>),
    Protocol(Vec<Protocol>),
    ArpOperation(Option<u16>),
    NoParameter,
}

/// The mathematical content of a [`Parameters`] value.
pub enum ParameterView {
    IpAddress(Seq<Seq<char>>),
    Port(Seq<u16>),
    Interface(Seq<Seq<char>>),
    Protocol(Seq<Protocol>),
    ArpOperation(Option<u16>),
    NoParameter,
}

/// The characters of each string of a list.
pub open spec fn texts(v: Seq<String>) -> Seq<Seq<char>> {
    v.map_values(|s: String| s@)
}

impl View for Parameters {
    type V = ParameterView;

    open spec fn view(&self) -> ParameterView {
        match self {
            Parameters::IpAddress(v) => ParameterView::IpAddress(texts(v@)),
            Parameters::Port(v) => ParameterView::Port(v@),
            Parameters::Interface(v) => ParameterView::Interface(texts(v@)),
            Parameters::Protocol(v) => ParameterView::Protocol(v@),
            Parameters::ArpOperation(op) => ParameterView::ArpOperation(*op),
            Parameters::NoParameter => ParameterView::NoParameter,
        }
    }
}

} // verus!
