use etherparse::{Ipv4HeaderSlice, TcpHeaderSlice};
use tcp_engine::connection::Connection;
use tcp_engine::frame::{append_bytes, assemble, MAX_PACKET_LEN, MAX_PAYLOAD_LEN};
use tcp_engine::header::{Ipv4Header, TcpHeader};
use tcp_engine::space::{RecvSequenceSpace, SendSequenceSpace};
use tcp_engine::state::State;

const PREFIX: [u8; 4] = [0x00, 0x00, 0x08, 0x00];

fn connection(state: State, una: u32, nxt: u32, recv_nxt: u32) -> Connection {
    Connection {
        state,
        send: SendSequenceSpace { una, nxt, wnd: 512, up: false, wl1: 0, wl2: 0, iss: 0 },
        recv: RecvSequenceSpace { nxt: recv_nxt, wnd: 1024, up: false, irs: 4999 },
        ip_header: Ipv4Header {
            source: [10, 0, 0, 1],
            destination: [10, 0, 0, 2],
            time_to_live: 64,
            protocol: 6,
        },
        tcp_header: TcpHeader {
            source_port: 80,
            destination_port: 50000,
            sequence_number: 0,
            acknowledgment_number: 0,
            window_size: 1024,
            syn: false,
            ack: true,
            fin: false,
            rst: false,
        },
        eth_header: PREFIX,
    }
}

#[test]
fn append_bytes_appends() {
    let mut buffer = vec![1u8, 2];
    append_bytes(&mut buffer, &[3, 4, 5]);
    assert_eq!(buffer, vec![1, 2, 3, 4, 5]);
    append_bytes(&mut buffer, &[]);
    assert_eq!(buffer, vec![1, 2, 3, 4, 5]);
}

#[test]
fn assemble_lays_the_parts_out_in_order() {
    let frame = assemble(&[9, 8, 7, 6], &[1, 2], &[3], &[4, 5]);
    assert_eq!(frame, vec![9, 8, 7, 6, 1, 2, 3, 4, 5]);
}

#[test]
fn frame_limits_fit_together() {
    assert_eq!(MAX_PACKET_LEN, 1500);
    assert_eq!(MAX_PAYLOAD_LEN, MAX_PACKET_LEN - 20 - 20);
}

#[test]
fn write_stamps_both_sequence_numbers() {
    let mut c = connection(State::Estab, 7, 9, 5001);
    let (written, frame) = c.write(&[]);
    assert_eq!(written, 0);
    assert_eq!(c.tcp_header.sequence_number, 9);
    assert_eq!(c.tcp_header.acknowledgment_number, 5001);
    let tcp = TcpHeaderSlice::from_slice(&frame[24..]).unwrap();
    assert_eq!(tcp.sequence_number(), 9);
    assert_eq!(tcp.acknowledgment_number(), 5001);
    assert!(tcp.ack());
    assert!(!tcp.syn());
    assert!(!tcp.fin());
}

#[test]
fn write_without_flags_or_payload_changes_no_sequence_space() {
    let mut c = connection(State::Estab, 7, 9, 5001);
    let before = c.clone();
    c.write(&[]);
    assert_eq!(c.send, before.send);
    assert_eq!(c.recv, before.recv);
    assert_eq!(c.state, before.state);
    assert_eq!(c.ip_header, before.ip_header);
    assert_eq!(c.eth_header, before.eth_header);
}

#[test]
fn write_moves_send_next_by_the_payload() {
    let mut c = connection(State::Estab, 7, 9, 5001);
    let (written, frame) = c.write(b"hello");
    assert_eq!(written, 5);
    assert_eq!(c.send.nxt, 14);
    assert_eq!(c.send.una, 7);
    assert_eq!(frame.len(), 4 + 20 + 20 + 5);
    assert_eq!(&frame[44..], b"hello");
}

#[test]
fn write_counts_one_for_syn_and_clears_it() {
    let mut c = connection(State::SynRcvd, 0, 0, 5001);
    c.tcp_header.syn = true;
    let (_, frame) = c.write(&[]);
    assert_eq!(c.send.nxt, 1);
    assert!(!c.tcp_header.syn);
    assert!(TcpHeaderSlice::from_slice(&frame[24..]).unwrap().syn());
}

#[test]
fn write_counts_one_for_fin_and_clears_it() {
    let mut c = connection(State::Estab, 1, 1, 5001);
    c.tcp_header.fin = true;
    let (_, frame) = c.write(&[]);
    assert_eq!(c.send.nxt, 2);
    assert!(!c.tcp_header.fin);
    assert!(TcpHeaderSlice::from_slice(&frame[24..]).unwrap().fin());
}

#[test]
fn write_counts_payload_and_both_flags() {
    let mut c = connection(State::Estab, 100, 100, 5001);
    c.tcp_header.syn = true;
    c.tcp_header.fin = true;
    let (written, frame) = c.write(&[0xAA; 10]);
    assert_eq!(written, 10);
    assert_eq!(c.send.nxt, 112);
    assert!(!c.tcp_header.syn);
    assert!(!c.tcp_header.fin);
    let tcp = TcpHeaderSlice::from_slice(&frame[24..]).unwrap();
    assert!(tcp.syn());
    assert!(tcp.fin());
    assert_eq!(tcp.sequence_number(), 100);
}

#[test]
fn write_again_does_not_count_a_flag_twice() {
    let mut c = connection(State::Estab, 1, 1, 5001);
    c.tcp_header.fin = true;
    c.write(&[]);
    assert_eq!(c.send.nxt, 2);
    let (_, frame) = c.write(&[]);
    assert_eq!(c.send.nxt, 2);
    let tcp = TcpHeaderSlice::from_slice(&frame[24..]).unwrap();
    assert!(!tcp.fin());
    assert_eq!(tcp.sequence_number(), 2);
}

#[test]
fn write_wraps_send_next() {
    let mut c = connection(State::Estab, 0xFFFF_FFF0, 0xFFFF_FFFE, 5001);
    c.tcp_header.fin = true;
    let (written, _) = c.write(&[1, 2, 3]);
    assert_eq!(written, 3);
    assert_eq!(c.send.nxt, 2);
}

#[test]
fn write_cuts_the_payload_at_the_frame_limit() {
    let payload: Vec<u8> = (0..2000u32).map(|i| (i % 251) as u8).collect();
    let mut c = connection(State::Estab, 0, 0, 5001);
    let (written, frame) = c.write(&payload);
    assert_eq!(written, 1460);
    assert_eq!(c.send.nxt, 1460);
    assert_eq!(frame.len(), 4 + 1500);
    assert_eq!(&frame[44..], &payload[..1460]);
    let ip = Ipv4HeaderSlice::from_slice(&frame[4..]).unwrap();
    assert_eq!(ip.total_len(), 1500);
    assert_eq!(ip.payload_len(), 1480);
}

#[test]
fn write_takes_a_payload_of_exactly_the_limit() {
    let payload = vec![7u8; 1460];
    let mut c = connection(State::Estab, 0, 0, 5001);
    let (written, frame) = c.write(&payload);
    assert_eq!(written, 1460);
    assert_eq!(frame.len(), 4 + 1500);
    let mut c = connection(State::Estab, 0, 0, 5001);
    let (written, frame) = c.write(&payload[..1459]);
    assert_eq!(written, 1459);
    assert_eq!(frame.len(), 4 + 1499);
}

#[test]
fn write_announces_header_and_payload_in_the_ip_header() {
    let mut c = connection(State::Estab, 0, 0, 5001);
    let (_, frame) = c.write(b"abcdefg");
    let ip = Ipv4HeaderSlice::from_slice(&frame[4..]).unwrap();
    assert_eq!(ip.payload_len(), 27);
    assert_eq!(ip.total_len(), 47);
    assert_eq!(ip.source(), &[10, 0, 0, 1]);
    assert_eq!(ip.destination(), &[10, 0, 0, 2]);
    assert_eq!(ip.ttl(), 64);
    assert_eq!(ip.protocol(), 6);
    assert_eq!(ip.header_checksum(), ip.to_header().calc_header_checksum().unwrap());
}

#[test]
fn write_checksum_covers_header_and_payload() {
    let mut c = connection(State::Estab, 3, 3, 5001);
    let (_, frame) = c.write(b"abcdefg");
    let ip = Ipv4HeaderSlice::from_slice(&frame[4..]).unwrap();
    let tcp = TcpHeaderSlice::from_slice(&frame[24..]).unwrap();
    assert_eq!(tcp.checksum(), tcp.calc_checksum_ipv4(&ip, b"abcdefg").unwrap());
    assert_ne!(tcp.checksum(), tcp.calc_checksum_ipv4(&ip, b"abcdefh").unwrap());
}

#[test]
fn write_puts_the_link_prefix_first() {
    let mut c = connection(State::Estab, 0, 0, 5001);
    c.eth_header = [1, 2, 3, 4];
    let (_, frame) = c.write(&[]);
    assert_eq!(&frame[..4], &[1, 2, 3, 4]);
    assert_eq!(frame[4], 0x45);
}

#[test]
fn write_empty_is_a_write_without_payload() {
    let mut a = connection(State::Estab, 3, 4, 5001);
    let mut b = a.clone();
    a.tcp_header.fin = true;
    b.tcp_header.fin = true;
    let frame = a.write_empty();
    let (written, same) = b.write(&[]);
    assert_eq!(written, 0);
    assert_eq!(frame, same);
    assert_eq!(a, b);
}

#[test]
fn send_reset_raises_rst_and_keeps_it() {
    let mut c = connection(State::Estab, 3, 4, 5001);
    let before = c.clone();
    let frame = c.send_reset();
    let tcp = TcpHeaderSlice::from_slice(&frame[24..]).unwrap();
    assert!(tcp.rst());
    assert!(tcp.ack());
    assert!(c.tcp_header.rst);
    assert_eq!(c.send, before.send);
    assert_eq!(c.recv, before.recv);
    assert_eq!(c.state, before.state);
    let (_, next) = c.write(&[]);
    assert!(TcpHeaderSlice::from_slice(&next[24..]).unwrap().rst());
}

#[test]
fn send_reset_goes_out_with_the_current_sequence_numbers() {
    let mut c = connection(State::Estab, 3, 4, 5001);
    c.tcp_header.sequence_number = 77;
    c.tcp_header.acknowledgment_number = 88;
    let frame = c.send_reset();
    let tcp = TcpHeaderSlice::from_slice(&frame[24..]).unwrap();
    assert_eq!(tcp.sequence_number(), 4);
    assert_eq!(tcp.acknowledgment_number(), 5001);
    assert_eq!(c.tcp_header.sequence_number, 4);
    assert_eq!(c.tcp_header.acknowledgment_number, 5001);
}
