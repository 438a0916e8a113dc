//! Which frames concern the engine, and which connection a segment is for.

use vstd::prelude::*;
use crate::connection::Connection;
use crate::frame::LINK_PREFIX_LEN;
use crate::header::{Ipv4Header, TcpHeader, IP_PROTOCOL_TCP};

verus! {

/// Protocol identifier of IPv4 in the link-layer prefix.
pub const LINK_PROTOCOL_IPV4: u16 = 0x0800;

/// The protocol identifier of a frame: the third and fourth byte of its
/// prefix, in big-endian order. A frame shorter than the prefix has none.
pub open spec fn link_protocol_of(frame: Seq<u8>) -> Option<u16> {
    if frame.len() < LINK_PREFIX_LEN {
        None
    } else {
        Some((frame[2] * 256 + frame[3]) as u16)
    }
}

/// Reads the protocol identifier of a frame.
pub fn link_protocol(frame: &[u8]) -> (protocol: Option<u16>)
    ensures
        protocol == link_protocol_of(frame@),
{
    if frame.len() < LINK_PREFIX_LEN {
        None
    } else {
        let high: u16 = frame[2] as u16;
        let low: u16 = frame[3] as u16;
        Some(high * 256 + low)
    }
}

/// Tells whether a frame holds an IPv4 packet: frames of any other protocol
/// are not for the engine.
pub fn carries_ipv4(frame: &[u8]) -> (ipv4: bool)
    ensures
        ipv4 == (link_protocol_of(frame@) == Some(LINK_PROTOCOL_IPV4)),
{
    match link_protocol(frame) {
        Some(protocol) => protocol == LINK_PROTOCOL_IPV4,
        None => false,
    }
}

/// Tells whether an IPv4 packet holds a TCP segment: packets of any other
/// protocol are not for the engine.
pub fn carries_tcp(iph: &Ipv4Header) -> (tcp: bool)
    ensures
        tcp == (iph.protocol == IP_PROTOCOL_TCP),
{
    iph.protocol == IP_PROTOCOL_TCP
}

/// Identifier of a flow: address and port of the peer (`src`) and of this
/// side (`dst`), as they stand in the segments that the peer sends.
#[derive(Clone, Copy, Debug, Hash, PartialEq, Eq)]
pub struct Quad {
    pub src: ([u8; 4], u16),
    pub dst: ([u8; 4], u16),
}

impl Quad {
    /// The flow that an inbound segment with these headers belongs to.
    pub open spec fn of_segment(iph: Ipv4Header, tcph: TcpHeader) -> Quad {
        Quad {
            src: (iph.source, tcph.source_port),
            dst: (iph.destination, tcph.destination_port),
        }
    }

    /// The flow that a connection serves, read from the templates of what
    /// it sends: there the peer is the destination.
    pub open spec fn of_connection(c: Connection) -> Quad {
        Quad {
            src: (c.ip_header.destination, c.tcp_header.destination_port),
            dst: (c.ip_header.source, c.tcp_header.source_port),
        }
    }

    /// Finds the flow of an inbound segment.
    pub fn new(iph: &Ipv4Header, tcph: &TcpHeader) -> (quad: Quad)
        ensures
            quad == Self::of_segment(*iph, *tcph),
    {
        Quad {
            src: (iph.source, tcph.source_port),
            dst: (iph.destination, tcph.destination_port),
        }
    }
}

/// A connection serves the flow of the SYN that opened it, and no segment
/// and no write moves it to another flow.
pub proof fn lemma_connection_keeps_its_flow(
    iph: Ipv4Header,
    syn: TcpHeader,
    eth_header: [u8; 4],
    c: Connection,
    tcph: TcpHeader,
    payload_len: nat,
)
    ensures
        Quad::of_connection(Connection::accepted(iph, syn, eth_header)) == Quad::of_segment(
            iph,
            syn,
        ),
        Quad::of_connection(c.on_segment(tcph, payload_len).0) == Quad::of_connection(c),
        Quad::of_connection(c.after_write(payload_len)) == Quad::of_connection(c),
        Quad::of_connection(c.resetting()) == Quad::of_connection(c),
{
}

} // verus!
