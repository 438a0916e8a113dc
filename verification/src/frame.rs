//! Assembly of the bytes that go to the device.

use vstd::prelude::*;

verus! {

/// Bytes of the link-layer prefix that starts every frame: two bytes of
/// flags, then the protocol identifier in big-endian order.
pub const LINK_PREFIX_LEN: usize = 4;

/// Largest IP packet that is put into one frame.
pub const MAX_PACKET_LEN: usize = 1500;

/// Largest payload that fits into one frame behind an IPv4 and a TCP header
/// without options.
pub const MAX_PAYLOAD_LEN: usize = 1460;

/// Payload bytes of a write that actually go out: the payload is cut off at
/// the largest length that fits.
pub open spec fn written_len(payload_len: nat) -> nat {
    if payload_len > MAX_PAYLOAD_LEN {
        MAX_PAYLOAD_LEN as nat
    } else {
        payload_len
    }
}

/// Appends `bytes` to `buffer`.
pub fn append_bytes(buffer: &mut Vec<u8>, bytes: &[u8])
    ensures
        final(buffer)@ == old(buffer)@ + bytes@,
{
    let mut i: usize = 0;
    while i < bytes.len()
        invariant
            i <= bytes@.len(),
            buffer@ == old(buffer)@ + bytes@.subrange(0, i as int),
        decreases bytes@.len() - i,
    {
        buffer.push(bytes[i]);
        i = i + 1;
    }
    assert(bytes@.subrange(0, i as int) == bytes@);
}

/// Lays out one frame: the link-layer prefix, the IP header, the TCP header
/// and the payload, in this order.
pub fn assemble(
    prefix: &[u8; 4],
    ip_header: &[u8],
    tcp_header: &[u8],
    payload: &[u8],
) -> (frame: Vec<u8>)
    ensures
        frame@ == prefix@ + ip_header@ + tcp_header@ + payload@,
{
    let mut frame: Vec<u8> = Vec::new();
    append_bytes(&mut frame, prefix.as_slice());
    append_bytes(&mut frame, ip_header);
    append_bytes(&mut frame, tcp_header);
    append_bytes(&mut frame, payload);
    frame
}

} // verus!
