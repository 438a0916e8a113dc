//! Header values as the engine reads and writes them.
//!
//! The same two records describe an inbound segment, as handed over by
//! whoever parsed the packet, and the templates from which a connection
//! builds its replies.

use vstd::prelude::*;

verus! {

/// IP protocol number of TCP.
pub const IP_PROTOCOL_TCP: u8 = 6;

/// Bytes of an IPv4 header without options.
pub const IPV4_HEADER_LEN: usize = 20;

/// Bytes of a TCP header without options.
pub const TCP_HEADER_LEN: usize = 20;

/// Largest payload an IPv4 header without options can announce.
pub const IPV4_MAX_PAYLOAD_LEN: u16 = 65515;

/// The fields of an IPv4 header that matter to the engine. Everything else
/// (no options, no fragmentation, identification zero) is fixed.
#[derive(Clone, Copy, Debug, PartialEq, Eq)]
pub struct Ipv4Header {
    pub source: [u8; 4],
    pub destination: [u8; 4],
    pub time_to_live: u8,
    pub protocol: u8,
}

/// The fields of a TCP header that matter to the engine. The header carries
/// no options; the remaining flags and the urgent pointer are zero.
#[derive(Clone, Copy, Debug, PartialEq, Eq)]
pub struct TcpHeader {
    pub source_port: u16,
    pub destination_port: u16,
    pub sequence_number: u32,
    pub acknowledgment_number: u32,
    pub window_size: u16,
    pub syn: bool,
    pub ack: bool,
    pub fin: bool,
    pub rst: bool,
}

impl TcpHeader {
    /// Sequence numbers that the control flags of this header occupy: one
    /// for SYN and one for FIN.
    pub open spec fn control_len(self) -> int {
        (if self.syn { 1int } else { 0 }) + (if self.fin { 1int } else { 0 })
    }
}

} // verus!
