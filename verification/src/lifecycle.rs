//! What holds of a connection over its life, proved from the definitions in
//! `connection`.

use vstd::prelude::*;
use crate::connection::{Connection, ADVERTISED_WINDOW, INITIAL_SEND_SEQUENCE, TIME_TO_LIVE};
use crate::frame::{written_len, MAX_PAYLOAD_LEN};
use crate::header::{Ipv4Header, TcpHeader, IP_PROTOCOL_TCP};
use crate::sequence::{advance, distance, modulus};
use crate::sequence::lemma_distance_value;
use crate::space::{segment_len, sequence_end, RecvSequenceSpace, SendSequenceSpace};
use crate::state::State;
use crate::wire::{ipv4_header_wire, tcp_checksum_ipv4, tcp_header_wire};

verus! {

/// The header of the segment that answers a SYN: SYN and ACK set, the
/// initial send sequence number, and an acknowledgment of the peer's SYN.
pub open spec fn syn_ack_header(tcph: TcpHeader) -> TcpHeader {
    TcpHeader {
        source_port: tcph.destination_port,
        destination_port: tcph.source_port,
        sequence_number: INITIAL_SEND_SEQUENCE,
        acknowledgment_number: advance(tcph.sequence_number, 1),
        window_size: ADVERTISED_WINDOW,
        syn: true,
        ack: true,
        fin: false,
        rst: false,
    }
}

/// The IPv4 header in front of every segment that answers the flow of `iph`.
pub open spec fn reply_ip_header(iph: Ipv4Header) -> Ipv4Header {
    Ipv4Header {
        source: iph.destination,
        destination: iph.source,
        time_to_live: TIME_TO_LIVE,
        protocol: IP_PROTOCOL_TCP,
    }
}

/// Handshake: the connection made from a SYN with sequence number `S` is in
/// `SynRcvd`, has `recv.irs == S` and `recv.nxt == S + 1`, and has consumed
/// one sequence number for its own SYN. Its reply is the SYN-ACK that
/// acknowledges `S + 1`, without payload, addressed back to the peer behind
/// the link-layer prefix that came with the SYN.
pub proof fn lemma_accept_answers_syn(iph: Ipv4Header, tcph: TcpHeader, eth_header: [u8; 4])
    ensures
        Connection::accepted(iph, tcph, eth_header).state is SynRcvd,
        Connection::accepted(iph, tcph, eth_header).recv.irs == tcph.sequence_number,
        Connection::accepted(iph, tcph, eth_header).recv.nxt == advance(tcph.sequence_number, 1),
        Connection::accepted(iph, tcph, eth_header).regular(),
        Connection::opening(iph, tcph, eth_header).stamped_header() == syn_ack_header(tcph),
        Connection::opening(iph, tcph, eth_header).frame(Seq::<u8>::empty()) == eth_header@
            + ipv4_header_wire(reply_ip_header(iph), 20) + tcp_header_wire(
            syn_ack_header(tcph),
            tcp_checksum_ipv4(
                syn_ack_header(tcph),
                iph.destination@,
                iph.source@,
                Seq::<u8>::empty(),
            ),
        ),
{
    let payload = Seq::<u8>::empty();
    assert(payload.subrange(0, 0) =~= payload);
    assert(forall|s: Seq<u8>| s + payload =~= s);
}

/// A write moves `send.nxt` by the payload bytes written and by one for
/// each of SYN and FIN that the template held, and clears both flags.
/// Writing the same template again, without payload, leaves `send.nxt` where
/// it is: no flag is counted twice.
pub proof fn lemma_write_consumes_flags(c: Connection, payload_len: nat)
    ensures
        c.after_write(payload_len).send.nxt == advance(
            c.send.nxt,
            written_len(payload_len) + c.tcp_header.control_len(),
        ),
        payload_len <= MAX_PAYLOAD_LEN ==> written_len(payload_len) == payload_len,
        !c.after_write(payload_len).tcp_header.syn,
        !c.after_write(payload_len).tcp_header.fin,
        c.after_write(payload_len).wf(),
        c.after_write(payload_len).after_write(0).send.nxt == c.after_write(payload_len).send.nxt,
{
}

/// A write leaves everything but `send.nxt` and the template's flags and
/// sequence numbers alone; in particular the two initial sequence numbers.
pub proof fn lemma_write_keeps_the_rest(c: Connection, payload_len: nat)
    ensures
        c.after_write(payload_len).state == c.state,
        c.after_write(payload_len).recv == c.recv,
        c.after_write(payload_len).send == (SendSequenceSpace {
            nxt: c.after_write(payload_len).send.nxt,
            ..c.send
        }),
        c.after_write(payload_len).ip_header == c.ip_header,
        c.after_write(payload_len).eth_header == c.eth_header,
        c.wf() ==> c.after_write(0).send == c.send,
{
}

/// No segment changes the addresses, the ports or the link-layer prefix of
/// a connection.
pub proof fn lemma_segment_keeps_identity(c: Connection, tcph: TcpHeader, payload_len: nat)
    ensures
        c.on_segment(tcph, payload_len).0.ip_header == c.ip_header,
        c.on_segment(tcph, payload_len).0.eth_header == c.eth_header,
        c.on_segment(tcph, payload_len).0.tcp_header.source_port == c.tcp_header.source_port,
        c.on_segment(tcph, payload_len).0.tcp_header.destination_port
            == c.tcp_header.destination_port,
        c.on_segment(tcph, payload_len).0.tcp_header.window_size == c.tcp_header.window_size,
{
}

/// `recv.nxt` follows what was accepted: after an acceptable segment it
/// stands right behind the last sequence number of that segment, and after
/// any other segment where it stood. Nothing else of the receive sequence
/// space changes.
pub proof fn lemma_receive_next_follows(c: Connection, tcph: TcpHeader, payload_len: nat)
    ensures
        c.on_segment(tcph, payload_len).0.recv == (RecvSequenceSpace {
            nxt: if c.accepts(tcph, payload_len) {
                sequence_end(tcph, payload_len)
            } else {
                c.recv.nxt
            },
            ..c.recv
        }),
{
}

/// A segment that is not acceptable is answered with exactly one empty
/// segment, and of a connection with no flag waiting nothing changes but
/// the sequence numbers noted in the template.
pub proof fn lemma_unacceptable_changes_nothing(c: Connection, tcph: TcpHeader, payload_len: nat)
    requires
        c.wf(),
        !c.accepts(tcph, payload_len),
    ensures
        c.on_segment(tcph, payload_len).0 == (Connection { tcp_header: c.stamped_header(), ..c }),
        c.on_segment(tcph, payload_len).0.state == c.state,
        c.on_segment(tcph, payload_len).0.send == c.send,
        c.on_segment(tcph, payload_len).0.recv == c.recv,
        c.on_segment(tcph, payload_len).1 == seq![c.frame(Seq::<u8>::empty())],
{
}

/// A duplicate: an empty segment whose sequence number lies behind
/// `recv.nxt`, and not so far behind that it has come round into the window
/// again, is not acceptable on an open window. It moves neither `recv.nxt`
/// nor anything else of the sequence spaces or the phase.
pub proof fn lemma_stale_segment_rejected(c: Connection, tcph: TcpHeader)
    requires
        c.wf(),
        c.recv.wnd != 0,
        !tcph.syn,
        !tcph.fin,
        0 < distance(tcph.sequence_number, c.recv.nxt) <= modulus() - c.recv.wnd,
    ensures
        !c.accepts(tcph, 0),
        c.on_segment(tcph, 0).0.recv == c.recv,
        c.on_segment(tcph, 0).0.send == c.send,
        c.on_segment(tcph, 0).0.state == c.state,
        c.on_segment(tcph, 0).1.len() == 1,
{
    c.recv.lemma_in_window_is_range(tcph.sequence_number);
    lemma_distance_value(tcph.sequence_number, c.recv.nxt);
    lemma_distance_value(c.recv.nxt, tcph.sequence_number);
    lemma_unacceptable_changes_nothing(c, tcph, 0);
}

/// Replay: once a segment that occupies sequence numbers has been accepted,
/// the same segment is not acceptable again, and so cannot move `recv.nxt`
/// a second time. (A segment longer than the sequence space outside the
/// window would reach round into the window; none that fits in a packet
/// does.)
pub proof fn lemma_replay_rejected(c: Connection, tcph: TcpHeader, payload_len: nat)
    requires
        c.accepts(tcph, payload_len),
        0 < segment_len(tcph, payload_len) <= modulus() - c.recv.wnd,
    ensures
        !c.on_segment(tcph, payload_len).0.accepts(tcph, payload_len),
        c.on_segment(tcph, payload_len).0.on_segment(tcph, payload_len).0.recv == c.on_segment(
            tcph,
            payload_len,
        ).0.recv,
{
    let after = c.on_segment(tcph, payload_len).0;
    lemma_receive_next_follows(c, tcph, payload_len);
    after.recv.lemma_passed_segment_rejected(
        tcph.sequence_number,
        segment_len(tcph, payload_len),
    );
    lemma_receive_next_follows(after, tcph, payload_len);
}

/// Acknowledgment of the SYN: a regular connection in `SynRcvd`, given an
/// acceptable segment that acknowledges `iss + 1`, completes the handshake
/// and at once closes actively. It sends one segment, with FIN set, and is
/// in `FinWait1` afterwards, with the SYN acknowledged and the FIN in
/// flight.
pub proof fn lemma_syn_acknowledged(c: Connection, tcph: TcpHeader)
    requires
        c.regular(),
        c.state is SynRcvd,
        c.accepts(tcph, 0),
        tcph.ack,
        tcph.acknowledgment_number == advance(c.send.iss, 1),
    ensures
        c.phase_for(tcph.acknowledgment_number) is Estab,
        c.on_segment(tcph, 0).0.state is FinWait1,
        c.on_segment(tcph, 0).0.regular(),
        c.on_segment(tcph, 0).0.send.una == advance(c.send.iss, 1),
        c.on_segment(tcph, 0).0.send.nxt == advance(c.send.iss, 2),
        c.on_segment(tcph, 0).1 == seq![
            (Connection {
                state: State::Estab,
                send: SendSequenceSpace { una: tcph.acknowledgment_number, ..c.send },
                recv: RecvSequenceSpace { nxt: sequence_end(tcph, 0), ..c.recv },
                tcp_header: TcpHeader { fin: true, ..c.tcp_header },
                ..c
            }).frame(Seq::<u8>::empty()),
        ],
{
    let ack = tcph.acknowledgment_number;
    let got = c.received(tcph, 0);
    c.send.lemma_one_in_flight(ack);
    assert(got.phase_for(ack) is Estab);
    assert(got.send.acknowledges(ack));
}

/// Acknowledgment of the FIN: a regular connection in `FinWait1`, given an
/// acceptable segment that acknowledges `iss + 2`, moves to `FinWait2`
/// and sends nothing, unless the segment carries FIN too: then it replies
/// with exactly one segment and moves on to `TimeWait`.
pub proof fn lemma_fin_acknowledged(c: Connection, tcph: TcpHeader)
    requires
        c.regular(),
        c.state is FinWait1,
        c.accepts(tcph, 0),
        tcph.ack,
        tcph.acknowledgment_number == advance(c.send.iss, 2),
    ensures
        !tcph.fin ==> c.on_segment(tcph, 0).0.state is FinWait2,
        !tcph.fin ==> c.on_segment(tcph, 0).1.len() == 0,
        tcph.fin ==> c.on_segment(tcph, 0).0.state is TimeWait,
        tcph.fin ==> c.on_segment(tcph, 0).1.len() == 1,
        c.on_segment(tcph, 0).0.send.una == c.on_segment(tcph, 0).0.send.nxt,
        c.on_segment(tcph, 0).0.regular(),
{
    let ack = tcph.acknowledgment_number;
    let got = c.received(tcph, 0);
    c.send.lemma_one_in_flight(ack);
    assert(got.send.acknowledges(ack));
}

/// The peer's FIN: a connection in `FinWait2`, given an acceptable segment
/// with FIN whose acknowledgment passes the acknowledgment test, replies
/// with exactly one segment and moves to `TimeWait`.
pub proof fn lemma_peer_fin_closes(c: Connection, tcph: TcpHeader)
    requires
        c.wf(),
        c.state is FinWait2,
        c.accepts(tcph, 0),
        tcph.ack,
        tcph.fin,
        c.send.acknowledges(tcph.acknowledgment_number),
    ensures
        c.on_segment(tcph, 0).0.state is TimeWait,
        c.on_segment(tcph, 0).1.len() == 1,
        c.on_segment(tcph, 0).0.send.una == tcph.acknowledgment_number,
        c.on_segment(tcph, 0).0.send.nxt == c.send.nxt,
{
}

/// With nothing in flight no acknowledgment passes the acknowledgment test.
/// So a connection in `FinWait2` that has everything acknowledged stays
/// there whatever segment comes.
pub proof fn lemma_nothing_left_to_acknowledge(c: Connection, tcph: TcpHeader, payload_len: nat)
    requires
        c.state is FinWait2,
        c.send.una == c.send.nxt,
    ensures
        !c.send.acknowledges(tcph.acknowledgment_number),
        c.on_segment(tcph, payload_len).0.state is FinWait2,
{
    c.send.lemma_none_in_flight(tcph.acknowledgment_number);
}

/// A regular connection stays regular whatever segment comes, answers each
/// segment with at most one frame, and never has more than one sequence
/// number in flight.
pub proof fn lemma_regular_is_kept(c: Connection, tcph: TcpHeader, payload_len: nat)
    requires
        c.regular(),
    ensures
        c.on_segment(tcph, payload_len).0.regular(),
        c.on_segment(tcph, payload_len).1.len() <= 1,
        c.send.in_flight() <= 1,
{
    let ack = tcph.acknowledgment_number;
    let got = c.received(tcph, payload_len);
    lemma_distance_value(c.send.una, c.send.nxt);
    assert(got.send == c.send && got.state == c.state && got.wf());
    if c.accepts(tcph, payload_len) && tcph.ack {
        match c.state {
            State::SynRcvd | State::Estab | State::FinWait1 => {
                c.send.lemma_one_in_flight(ack);
            },
            State::FinWait2 | State::TimeWait | State::Closed => {
                c.send.lemma_none_in_flight(ack);
            },
        }
    }
}

/// `send.una` never overtakes `send.nxt`: unless all of the sequence space
/// but one number is in flight already, no segment makes the count of
/// sequence numbers in flight grow.
pub proof fn lemma_in_flight_never_grows(c: Connection, tcph: TcpHeader, payload_len: nat)
    requires
        c.wf(),
        c.send.in_flight() < modulus() - 1,
    ensures
        c.on_segment(tcph, payload_len).0.send.in_flight() <= c.send.in_flight(),
{
    let ack = tcph.acknowledgment_number;
    let got = c.received(tcph, payload_len);
    let current = Connection { state: got.phase_for(ack), ..got };
    if c.accepts(tcph, payload_len) && tcph.ack && current.state.tracks_acknowledgments()
        && current.send.acknowledges(ack) {
        let confirmed = Connection {
            send: SendSequenceSpace { una: ack, ..current.send },
            ..current
        };
        let closing = confirmed.closing().0;
        let closed = closing.fin_acknowledged().peer_closing(tcph.fin).0;
        assert(c.on_segment(tcph, payload_len).0 == closed);
        assert(closing.wf());
        assert(closed.send == closing.send);
        assert(closing.send.una == ack);
        assert(closing.send.nxt == c.send.nxt || closing.send.nxt == advance(c.send.nxt, 1));
        c.send.lemma_acknowledges_is_range(ack);
        lemma_distance_value(c.send.una, c.send.nxt);
        lemma_distance_value(c.send.una, ack);
        lemma_distance_value(ack, c.send.nxt);
        lemma_distance_value(ack, advance(c.send.nxt, 1));
    } else {
        assert(c.on_segment(tcph, payload_len).0.send == c.send);
    }
}

} // verus!
