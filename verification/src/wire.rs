//! Serialisation of headers, done by the `etherparse` crate.
//!
//! Nothing here is proved. Each function below hands plain header values to
//! `etherparse` and returns what it produced; the contract gives that result
//! a name and states the few facts about it that the frame builder relies on.

use vstd::prelude::*;
use crate::header::{Ipv4Header, TcpHeader};
use crate::header::{IPV4_HEADER_LEN, IPV4_MAX_PAYLOAD_LEN, TCP_HEADER_LEN};

verus! {

/// The bytes `etherparse::Ipv4Header::write` emits for an option-less header
/// with the given fields and payload length, header checksum included.
pub uninterp spec fn ipv4_header_wire(header: Ipv4Header, payload_len: u16) -> Seq<u8>;

/// The bytes `etherparse::TcpHeader::write` emits for an option-less header
/// with the given fields and checksum.
pub uninterp spec fn tcp_header_wire(header: TcpHeader, checksum: u16) -> Seq<u8>;

/// The checksum `etherparse::TcpHeader::calc_checksum_ipv4_raw` computes over
/// the IPv4 pseudo header, the TCP header and the payload.
pub uninterp spec fn tcp_checksum_ipv4(
    header: TcpHeader,
    source: Seq<u8>,
    destination: Seq<u8>,
    payload: Seq<u8>,
) -> u16;

/// Calls `etherparse::Ipv4Header::write` on a header without options that
/// holds the given fields; all other fields are those of
/// `etherparse::Ipv4Header::default()` (don't-fragment set, the rest zero).
///
/// Trusted: the call fails exactly when the payload length does not fit the
/// total-length field beside the 20 header bytes, and otherwise writes 20
/// bytes, which are a function of the fields alone.
#[verifier::external_body]
pub(crate) fn write_ipv4_header(header: &Ipv4Header, payload_len: u16) -> (bytes: Option<Vec<u8>>)
    ensures
        bytes is Some <==> payload_len <= IPV4_MAX_PAYLOAD_LEN,
        bytes matches Some(b) ==> b@ == ipv4_header_wire(*header, payload_len),
        bytes matches Some(b) ==> b@.len() == IPV4_HEADER_LEN,
{
    let mut outside = etherparse::Ipv4Header::default();
    outside.payload_len = payload_len;
    outside.time_to_live = header.time_to_live;
    outside.protocol = header.protocol;
    outside.source = header.source;
    outside.destination = header.destination;
    let mut bytes = Vec::new();
    match outside.write(&mut bytes) {
        Ok(()) => Some(bytes),
        Err(_) => None,
    }
}

/// Calls `etherparse::TcpHeader::calc_checksum_ipv4_raw` on a header without
/// options that holds the given fields; all other fields are those of
/// `etherparse::TcpHeader::new`.
///
/// Trusted: the call fails exactly when header and payload together exceed
/// 65535 bytes, and otherwise returns a value that is a function of the
/// header fields, the two addresses and the payload.
#[verifier::external_body]
pub(crate) fn calc_tcp_checksum(
    header: &TcpHeader,
    ip: &Ipv4Header,
    payload: &[u8],
) -> (sum: Option<u16>)
    ensures
        sum is Some <==> TCP_HEADER_LEN + payload@.len() <= 65535,
        sum matches Some(s) ==> s == tcp_checksum_ipv4(
            *header,
            ip.source@,
            ip.destination@,
            payload@,
        ),
{
    let (from, to, seq) = (header.source_port, header.destination_port, header.sequence_number);
    let mut outside = etherparse::TcpHeader::new(from, to, seq, header.window_size);
    outside.acknowledgment_number = header.acknowledgment_number;
    outside.syn = header.syn;
    outside.ack = header.ack;
    outside.fin = header.fin;
    outside.rst = header.rst;
    outside.calc_checksum_ipv4_raw(ip.source, ip.destination, payload).ok()
}

/// Calls `etherparse::TcpHeader::write` on a header without options that
/// holds the given fields and checksum; all other fields are those of
/// `etherparse::TcpHeader::new`.
///
/// Trusted: writing into a vector does not fail, and the call writes 20
/// bytes, which are a function of the fields alone.
#[verifier::external_body]
pub(crate) fn write_tcp_header(header: &TcpHeader, checksum: u16) -> (bytes: Option<Vec<u8>>)
    ensures
        bytes is Some,
        bytes matches Some(b) ==> b@ == tcp_header_wire(*header, checksum),
        bytes matches Some(b) ==> b@.len() == TCP_HEADER_LEN,
{
    let (from, to, seq) = (header.source_port, header.destination_port, header.sequence_number);
    let mut outside = etherparse::TcpHeader::new(from, to, seq, header.window_size);
    outside.acknowledgment_number = header.acknowledgment_number;
    outside.syn = header.syn;
    outside.ack = header.ack;
    outside.fin = header.fin;
    outside.rst = header.rst;
    outside.checksum = checksum;
    let mut bytes = Vec::new();
    match outside.write(&mut bytes) {
        Ok(()) => Some(bytes),
        Err(_) => None,
    }
}

} // verus!
