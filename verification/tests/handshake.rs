use etherparse::{Ipv4HeaderSlice, TcpHeaderSlice};
use tcp_engine::connection::{Connection, ADVERTISED_WINDOW, INITIAL_SEND_SEQUENCE};
use tcp_engine::header::{Ipv4Header, TcpHeader};
use tcp_engine::state::State;

const PREFIX: [u8; 4] = [0x00, 0x00, 0x08, 0x00];

fn peer_ip() -> Ipv4Header {
    Ipv4Header {
        source: [192, 168, 0, 2],
        destination: [192, 168, 0, 1],
        time_to_live: 61,
        protocol: 6,
    }
}

fn peer_syn(seq: u32) -> TcpHeader {
    TcpHeader {
        source_port: 40000,
        destination_port: 443,
        sequence_number: seq,
        acknowledgment_number: 0,
        window_size: 29200,
        syn: true,
        ack: false,
        fin: false,
        rst: false,
    }
}

#[test]
fn accept_enters_syn_rcvd_and_records_the_peer() {
    let (c, _) = Connection::accept(&peer_ip(), &peer_syn(5000), &[], &PREFIX).unwrap();
    assert_eq!(c.state, State::SynRcvd);
    assert_eq!(c.recv.irs, 5000);
    assert_eq!(c.recv.nxt, 5001);
    assert_eq!(c.recv.wnd, ADVERTISED_WINDOW);
    assert!(!c.recv.up);
    assert_eq!(c.send.iss, INITIAL_SEND_SEQUENCE);
    assert_eq!(c.send.una, INITIAL_SEND_SEQUENCE);
    assert_eq!(c.send.nxt, INITIAL_SEND_SEQUENCE.wrapping_add(1));
    assert_eq!(c.send.wnd, 29200);
    assert_eq!(c.eth_header, PREFIX);
}

#[test]
fn accept_uses_fixed_sequence_number_and_window() {
    assert_eq!(INITIAL_SEND_SEQUENCE, 0);
    assert_eq!(ADVERTISED_WINDOW, 1024);
}

#[test]
fn accept_addresses_the_templates_back_to_the_peer() {
    let (c, _) = Connection::accept(&peer_ip(), &peer_syn(5000), &[], &PREFIX).unwrap();
    assert_eq!(c.ip_header.source, [192, 168, 0, 1]);
    assert_eq!(c.ip_header.destination, [192, 168, 0, 2]);
    assert_eq!(c.ip_header.time_to_live, 64);
    assert_eq!(c.ip_header.protocol, 6);
    assert_eq!(c.tcp_header.source_port, 443);
    assert_eq!(c.tcp_header.destination_port, 40000);
    assert_eq!(c.tcp_header.window_size, 1024);
}

#[test]
fn accept_consumes_the_syn_flag_and_keeps_ack() {
    let (c, _) = Connection::accept(&peer_ip(), &peer_syn(5000), &[], &PREFIX).unwrap();
    assert!(!c.tcp_header.syn);
    assert!(!c.tcp_header.fin);
    assert!(!c.tcp_header.rst);
    assert!(c.tcp_header.ack);
    assert_eq!(c.tcp_header.sequence_number, 0);
    assert_eq!(c.tcp_header.acknowledgment_number, 5001);
}

#[test]
fn accept_replies_with_syn_ack() {
    let (_, frame) = Connection::accept(&peer_ip(), &peer_syn(5000), &[], &PREFIX).unwrap();
    assert_eq!(frame.len(), 4 + 20 + 20);
    assert_eq!(&frame[..4], &PREFIX);

    let ip = Ipv4HeaderSlice::from_slice(&frame[4..]).unwrap();
    assert_eq!(ip.source(), &[192, 168, 0, 1]);
    assert_eq!(ip.destination(), &[192, 168, 0, 2]);
    assert_eq!(ip.ttl(), 64);
    assert_eq!(ip.protocol(), 6);
    assert_eq!(ip.ihl(), 5);
    assert_eq!(ip.total_len(), 40);
    assert_eq!(ip.payload_len(), 20);
    assert!(ip.dont_fragment());
    assert_eq!(ip.header_checksum(), ip.to_header().calc_header_checksum().unwrap());

    let tcp = TcpHeaderSlice::from_slice(&frame[24..]).unwrap();
    assert!(tcp.syn());
    assert!(tcp.ack());
    assert!(!tcp.fin());
    assert!(!tcp.rst());
    assert!(!tcp.psh());
    assert!(!tcp.urg());
    assert_eq!(tcp.sequence_number(), 0);
    assert_eq!(tcp.acknowledgment_number(), 5001);
    assert_eq!(tcp.window_size(), 1024);
    assert_eq!(tcp.source_port(), 443);
    assert_eq!(tcp.destination_port(), 40000);
    assert_eq!(tcp.data_offset(), 5);
    assert_eq!(tcp.checksum(), tcp.calc_checksum_ipv4(&ip, &[]).unwrap());
}

#[test]
fn accept_reply_bytes_are_exact() {
    let (_, frame) = Connection::accept(&peer_ip(), &peer_syn(5000), &[], &PREFIX).unwrap();
    let expected: Vec<u8> = vec![
        // link-layer prefix
        0x00, 0x00, 0x08, 0x00,
        // IPv4: version and length, services, total length 40, identification 0
        0x45, 0x00, 0x00, 0x28, 0x00, 0x00,
        // don't fragment, offset 0, ttl 64, protocol 6, checksum
        0x40, 0x00, 0x40, 0x06, 0xb9, 0x7c,
        // source 192.168.0.1, destination 192.168.0.2
        192, 168, 0, 1, 192, 168, 0, 2,
        // TCP: ports 443 and 40000
        0x01, 0xbb, 0x9c, 0x40,
        // sequence number 0, acknowledgment number 5001
        0x00, 0x00, 0x00, 0x00, 0x00, 0x00, 0x13, 0x89,
        // data offset 5, flags SYN and ACK, window 1024
        0x50, 0x12, 0x04, 0x00,
        // checksum, urgent pointer
        0x78, 0xfa, 0x00, 0x00,
    ];
    assert_eq!(frame, expected);
}

#[test]
fn accept_wraps_the_peer_sequence_number() {
    let (c, frame) =
        Connection::accept(&peer_ip(), &peer_syn(0xFFFF_FFFF), &[], &PREFIX).unwrap();
    assert_eq!(c.recv.irs, 0xFFFF_FFFF);
    assert_eq!(c.recv.nxt, 0);
    let tcp = TcpHeaderSlice::from_slice(&frame[24..]).unwrap();
    assert_eq!(tcp.acknowledgment_number(), 0);
}

#[test]
fn accept_ignores_the_payload_of_the_syn() {
    let with = Connection::accept(&peer_ip(), &peer_syn(5000), &[1, 2, 3], &PREFIX).unwrap();
    let without = Connection::accept(&peer_ip(), &peer_syn(5000), &[], &PREFIX).unwrap();
    assert_eq!(with, without);
}

#[test]
fn accept_echoes_the_link_prefix() {
    let prefix = [0xde, 0xad, 0x08, 0x00];
    let (c, frame) = Connection::accept(&peer_ip(), &peer_syn(1), &[], &prefix).unwrap();
    assert_eq!(c.eth_header, prefix);
    assert_eq!(&frame[..4], &prefix);
}

#[test]
fn accept_without_syn_opens_nothing() {
    let mut segment = peer_syn(5000);
    segment.syn = false;
    assert!(Connection::accept(&peer_ip(), &segment, &[], &PREFIX).is_none());
    segment.ack = true;
    assert!(Connection::accept(&peer_ip(), &segment, &[], &PREFIX).is_none());
    segment.fin = true;
    assert!(Connection::accept(&peer_ip(), &segment, &[], &PREFIX).is_none());
}

#[test]
fn accept_takes_a_syn_with_other_flags() {
    let mut segment = peer_syn(5000);
    segment.ack = true;
    let (c, _) = Connection::accept(&peer_ip(), &segment, &[], &PREFIX).unwrap();
    assert_eq!(c.state, State::SynRcvd);
    assert_eq!(c.recv.nxt, 5001);
}
