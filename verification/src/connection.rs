//! One TCP connection: its state, and what it does with each inbound segment.

use vstd::prelude::*;
use vstd::pervasive::unreached;
use vstd::slice::slice_subrange;
use crate::frame::{assemble, written_len, MAX_PAYLOAD_LEN};
use crate::header::{Ipv4Header, TcpHeader, IP_PROTOCOL_TCP, TCP_HEADER_LEN};
use crate::sequence::{advance, lemma_advance_is_wrapping};
use crate::space::{next_sequence_number, segment_len, sequence_end};
use crate::space::{RecvSequenceSpace, SendSequenceSpace};
use crate::state::State;
use crate::wire::{calc_tcp_checksum, ipv4_header_wire, tcp_checksum_ipv4, tcp_header_wire};
use crate::wire::{write_ipv4_header, write_tcp_header};

verus! {

/// Initial send sequence number of every connection.
pub const INITIAL_SEND_SEQUENCE: u32 = 0;

/// Receive window that every connection advertises.
pub const ADVERTISED_WINDOW: u16 = 1024;

/// Time to live of every packet sent.
pub const TIME_TO_LIVE: u8 = 64;

/// Protocol state of one flow.
///
/// `ip_header` and `tcp_header` are the templates of what the connection
/// sends: addresses and ports stay as they were set when the connection was
/// made, flags and the two sequence numbers change from one transmission to
/// the next. `eth_header` is the link-layer prefix that came with the peer's
/// SYN and goes in front of every frame sent.
#[derive(Clone, Debug, PartialEq, Eq)]
pub struct Connection {
    pub state: State,
    pub send: SendSequenceSpace,
    pub recv: RecvSequenceSpace,
    pub ip_header: Ipv4Header,
    pub tcp_header: TcpHeader,
    pub eth_header: [u8; 4],
}

/// The byte sequences that a list of frames holds.
pub open spec fn wire_images(frames: Seq<Vec<u8>>) -> Seq<Seq<u8>> {
    Seq::new(frames.len(), |i: int| frames[i]@)
}

impl Connection {
    /// Between two operations no SYN and no FIN waits in the template: each
    /// is sent, and cleared, by the operation that set it.
    pub open spec fn wf(self) -> bool {
        !self.tcp_header.syn && !self.tcp_header.fin
    }

    /// The TCP header of the next transmission: the template with the
    /// current `send.nxt` and `recv.nxt` filled in.
    pub open spec fn stamped_header(self) -> TcpHeader {
        TcpHeader {
            sequence_number: self.send.nxt,
            acknowledgment_number: self.recv.nxt,
            ..self.tcp_header
        }
    }

    /// The frame that a write of `payload` puts together: link-layer
    /// prefix, IPv4 header, TCP header with its checksum, and as much of
    /// the payload as fits.
    pub open spec fn frame(self, payload: Seq<u8>) -> Seq<u8> {
        let body = payload.subrange(0, written_len(payload.len()) as int);
        let tcph = self.stamped_header();
        let checksum = tcp_checksum_ipv4(
            tcph,
            self.ip_header.source@,
            self.ip_header.destination@,
            body,
        );
        self.eth_header@ + ipv4_header_wire(self.ip_header, (TCP_HEADER_LEN + body.len()) as u16)
            + tcp_header_wire(tcph, checksum) + body
    }

    /// The connection after a write of `payload_len` bytes: the template
    /// holds the sequence numbers that went out, `send.nxt` has moved past
    /// the payload bytes written and past SYN and FIN if they were set, and
    /// these two flags are cleared.
    pub open spec fn after_write(self, payload_len: nat) -> Connection {
        Connection {
            send: SendSequenceSpace {
                nxt: advance(
                    self.send.nxt,
                    written_len(payload_len) + self.tcp_header.control_len(),
                ),
                ..self.send
            },
            tcp_header: TcpHeader { syn: false, fin: false, ..self.stamped_header() },
            ..self
        }
    }

    /// Builds the next outgoing frame around `payload` and accounts for what
    /// it carries.
    ///
    /// Returns the number of payload bytes written and the frame, which the
    /// caller has to transmit.
    pub fn write(&mut self, payload: &[u8]) -> (sent: (usize, Vec<u8>))
        ensures
            *final(self) == old(self).after_write(payload@.len()),
            sent.0 == written_len(payload@.len()),
            sent.1@ == old(self).frame(payload@),
            final(self).wf(),
            final(self).send.nxt == advance(
                old(self).send.nxt,
                written_len(payload@.len()) + old(self).tcp_header.control_len(),
            ),
    {
        self.tcp_header.sequence_number = self.send.nxt;
        self.tcp_header.acknowledgment_number = self.recv.nxt;

        let payload_bytes: usize = if payload.len() > MAX_PAYLOAD_LEN {
            MAX_PAYLOAD_LEN
        } else {
            payload.len()
        };
        let body: &[u8] = slice_subrange(payload, 0, payload_bytes);
        let ip_payload_len: u16 = (TCP_HEADER_LEN + payload_bytes) as u16;

        let checksum: u16 = match calc_tcp_checksum(&self.tcp_header, &self.ip_header, body) {
            Some(sum) => sum,
            None => unreached(),
        };
        let ip_bytes: Vec<u8> = match write_ipv4_header(&self.ip_header, ip_payload_len) {
            Some(bytes) => bytes,
            None => unreached(),
        };
        let tcp_bytes: Vec<u8> = match write_tcp_header(&self.tcp_header, checksum) {
            Some(bytes) => bytes,
            None => unreached(),
        };
        let frame: Vec<u8> = assemble(
            &self.eth_header,
            ip_bytes.as_slice(),
            tcp_bytes.as_slice(),
            body,
        );

        proof {
            lemma_advance_is_wrapping(self.send.nxt, payload_bytes as u32);
        }
        self.send.nxt = self.send.nxt.wrapping_add(payload_bytes as u32);
        if self.tcp_header.syn {
            proof {
                lemma_advance_is_wrapping(self.send.nxt, 1);
            }
            self.send.nxt = self.send.nxt.wrapping_add(1);
            self.tcp_header.syn = false;
        }
        if self.tcp_header.fin {
            proof {
                lemma_advance_is_wrapping(self.send.nxt, 1);
            }
            self.send.nxt = self.send.nxt.wrapping_add(1);
            self.tcp_header.fin = false;
        }
        (payload_bytes, frame)
    }

    /// Builds an outgoing frame without payload; see `write`.
    pub fn write_empty(&mut self) -> (frame: Vec<u8>)
        ensures
            *final(self) == old(self).after_write(0),
            frame@ == old(self).frame(Seq::<u8>::empty()),
            final(self).wf(),
    {
        let nothing: Vec<u8> = Vec::new();
        let sent = self.write(nothing.as_slice());
        sent.1
    }

    /// The connection that answers the SYN `tcph`, before its SYN-ACK is
    /// written: the template carries SYN and ACK, and `send.nxt` still
    /// stands at the initial send sequence number.
    pub open spec fn opening(iph: Ipv4Header, tcph: TcpHeader, eth_header: [u8; 4]) -> Connection {
        Connection {
            state: State::SynRcvd,
            send: SendSequenceSpace {
                una: INITIAL_SEND_SEQUENCE,
                nxt: INITIAL_SEND_SEQUENCE,
                wnd: tcph.window_size,
                up: false,
                wl1: 0,
                wl2: 0,
                iss: INITIAL_SEND_SEQUENCE,
            },
            recv: RecvSequenceSpace {
                irs: tcph.sequence_number,
                nxt: advance(tcph.sequence_number, 1),
                wnd: ADVERTISED_WINDOW,
                up: false,
            },
            ip_header: Ipv4Header {
                source: iph.destination,
                destination: iph.source,
                time_to_live: TIME_TO_LIVE,
                protocol: IP_PROTOCOL_TCP,
            },
            tcp_header: TcpHeader {
                source_port: tcph.destination_port,
                destination_port: tcph.source_port,
                sequence_number: INITIAL_SEND_SEQUENCE,
                acknowledgment_number: 0,
                window_size: ADVERTISED_WINDOW,
                syn: true,
                ack: true,
                fin: false,
                rst: false,
            },
            eth_header,
        }
    }

    /// The connection as `accept` hands it out, with the SYN-ACK written.
    pub open spec fn accepted(iph: Ipv4Header, tcph: TcpHeader, eth_header: [u8; 4]) -> Connection {
        Self::opening(iph, tcph, eth_header).after_write(0)
    }

    /// Where `accept` and `on_packet` alone can bring a connection: what it
    /// has sent is its SYN and, from `FinWait1` on, its FIN, and what is
    /// acknowledged goes with the phase.
    pub open spec fn regular(self) -> bool {
        let iss = self.send.iss;
        &&& self.wf()
        &&& match self.state {
            State::SynRcvd | State::Estab => {
                self.send.una == iss && self.send.nxt == advance(iss, 1)
            },
            State::FinWait1 => {
                self.send.una == advance(iss, 1) && self.send.nxt == advance(iss, 2)
            },
            State::FinWait2 | State::TimeWait => {
                self.send.una == advance(iss, 2) && self.send.nxt == advance(iss, 2)
            },
            State::Closed => false,
        }
    }

    /// Opens a connection in answer to an inbound SYN.
    ///
    /// `iph` and `tcph` are the headers of the inbound segment, `_data` its
    /// payload, which is not looked at, and `eth_header` the link-layer
    /// prefix it came with. For a segment that carries SYN the result is the
    /// new connection, in `SynRcvd`, and the SYN-ACK frame that the caller
    /// has to transmit. For any other segment there is no connection and
    /// nothing to transmit.
    pub fn accept(
        iph: &Ipv4Header,
        tcph: &TcpHeader,
        _data: &[u8],
        eth_header: &[u8; 4],
    ) -> (opened: Option<(Connection, Vec<u8>)>)
        ensures
            opened is Some <==> tcph.syn,
            opened matches Some(pair) ==> {
                &&& pair.0 == Self::accepted(*iph, *tcph, *eth_header)
                &&& pair.1@ == Self::opening(*iph, *tcph, *eth_header).frame(Seq::<u8>::empty())
                &&& pair.0.state is SynRcvd
                &&& pair.0.regular()
                &&& pair.0.recv.irs == tcph.sequence_number
                &&& pair.0.recv.nxt == advance(tcph.sequence_number, 1)
            },
    {
        if !tcph.syn {
            return None;
        }
        let iss: u32 = INITIAL_SEND_SEQUENCE;
        let wnd: u16 = ADVERTISED_WINDOW;
        proof {
            lemma_advance_is_wrapping(tcph.sequence_number, 1);
        }
        let mut c = Connection {
            state: State::SynRcvd,
            send: SendSequenceSpace {
                una: iss,
                nxt: iss,
                wnd: tcph.window_size,
                up: false,
                wl1: 0,
                wl2: 0,
                iss,
            },
            recv: RecvSequenceSpace {
                irs: tcph.sequence_number,
                nxt: tcph.sequence_number.wrapping_add(1),
                wnd,
                up: false,
            },
            ip_header: Ipv4Header {
                source: iph.destination,
                destination: iph.source,
                time_to_live: TIME_TO_LIVE,
                protocol: IP_PROTOCOL_TCP,
            },
            tcp_header: TcpHeader {
                source_port: tcph.destination_port,
                destination_port: tcph.source_port,
                sequence_number: iss,
                acknowledgment_number: 0,
                window_size: wnd,
                syn: false,
                ack: false,
                fin: false,
                rst: false,
            },
            eth_header: *eth_header,
        };
        c.tcp_header.syn = true;
        c.tcp_header.ack = true;
        let frame: Vec<u8> = c.write_empty();
        Some((c, frame))
    }

    /// The connection with the reset flag raised and both sequence numbers
    /// of the template zeroed, as it stands before the reset is written.
    pub open spec fn resetting(self) -> Connection {
        Connection {
            tcp_header: TcpHeader {
                rst: true,
                sequence_number: 0,
                acknowledgment_number: 0,
                ..self.tcp_header
            },
            ..self
        }
    }

    /// Builds a reset segment and returns its frame, which the caller has to
    /// transmit.
    ///
    /// The reset flag stays raised in the template afterwards. The segment
    /// goes through `write` like any other and so carries the current
    /// `send.nxt` and `recv.nxt`.
    pub fn send_reset(&mut self) -> (frame: Vec<u8>)
        ensures
            *final(self) == old(self).resetting().after_write(0),
            frame@ == old(self).resetting().frame(Seq::<u8>::empty()),
            final(self).wf(),
    {
        self.tcp_header.rst = true;
        self.tcp_header.sequence_number = 0;
        self.tcp_header.acknowledgment_number = 0;
        self.write_empty()
    }

    /// Whether the receive window admits the segment.
    pub open spec fn accepts(self, tcph: TcpHeader, payload_len: nat) -> bool {
        self.recv.accepts(tcph.sequence_number, segment_len(tcph, payload_len))
    }

    /// The phase in which an acknowledgment `ack` is looked at: `Estab` if
    /// it completes the handshake of a connection in `SynRcvd`, else the
    /// current phase.
    pub open spec fn phase_for(self, ack: u32) -> State {
        if self.state is SynRcvd && self.send.acknowledges_syn(ack) {
            State::Estab
        } else {
            self.state
        }
    }

    /// Whether a segment would arrive with a payload where none may come:
    /// it is acceptable, and its acknowledgment is acceptable in a phase
    /// that checks acknowledgments, yet it carries data.
    pub open spec fn payload_unexpected(self, tcph: TcpHeader, payload_len: nat) -> bool {
        &&& payload_len > 0
        &&& self.accepts(tcph, payload_len)
        &&& tcph.ack
        &&& self.phase_for(tcph.acknowledgment_number).tracks_acknowledgments()
        &&& self.send.acknowledges(tcph.acknowledgment_number)
    }

    /// The connection once the segment is taken in: `recv.nxt` stands behind
    /// the last sequence number that the segment occupies.
    pub open spec fn received(self, tcph: TcpHeader, payload_len: nat) -> Connection {
        Connection {
            recv: RecvSequenceSpace { nxt: sequence_end(tcph, payload_len), ..self.recv },
            ..self
        }
    }

    /// Active close: a connection in `Estab` sends its FIN and moves to
    /// `FinWait1`; in any other phase nothing happens.
    pub open spec fn closing(self) -> (Connection, Seq<Seq<u8>>) {
        if self.state is Estab {
            let flagged = Connection {
                tcp_header: TcpHeader { fin: true, ..self.tcp_header },
                ..self
            };
            (
                Connection { state: State::FinWait1, ..flagged.after_write(0) },
                seq![flagged.frame(Seq::<u8>::empty())],
            )
        } else {
            (self, Seq::<Seq<u8>>::empty())
        }
    }

    /// A connection in `FinWait1` whose SYN and FIN are both acknowledged,
    /// so that `send.una` stands two past the initial send sequence number,
    /// moves to `FinWait2`.
    pub open spec fn fin_acknowledged(self) -> Connection {
        if self.state is FinWait1 && self.send.una == advance(self.send.iss, 2) {
            Connection { state: State::FinWait2, ..self }
        } else {
            self
        }
    }

    /// The peer's FIN: a connection in `FinWait2` replies and moves to
    /// `TimeWait`; in any other phase, and without FIN, nothing happens.
    pub open spec fn peer_closing(self, fin: bool) -> (Connection, Seq<Seq<u8>>) {
        if fin && self.state is FinWait2 {
            (
                Connection { state: State::TimeWait, ..self.after_write(0) },
                seq![self.frame(Seq::<u8>::empty())],
            )
        } else {
            (self, Seq::<Seq<u8>>::empty())
        }
    }

    /// What an acceptable segment with ACK set does to the connection once
    /// it is taken in.
    pub open spec fn acknowledged(self, tcph: TcpHeader) -> (Connection, Seq<Seq<u8>>) {
        let ack = tcph.acknowledgment_number;
        let current = Connection { state: self.phase_for(ack), ..self };
        if !current.state.tracks_acknowledgments() || !current.send.acknowledges(ack) {
            (current, Seq::<Seq<u8>>::empty())
        } else {
            let confirmed = Connection {
                send: SendSequenceSpace { una: ack, ..current.send },
                ..current
            };
            let (closing, first) = confirmed.closing();
            let (closed, second) = closing.fin_acknowledged().peer_closing(tcph.fin);
            (closed, first + second)
        }
    }

    /// The whole reaction to an inbound segment: the connection afterwards
    /// and the frames to transmit, in order.
    ///
    /// A segment that the receive window does not admit is answered with an
    /// empty segment and changes nothing else. An acceptable one moves
    /// `recv.nxt` behind it and, if it carries ACK, goes on to `acknowledged`.
    pub open spec fn on_segment(self, tcph: TcpHeader, payload_len: nat) -> (
        Connection,
        Seq<Seq<u8>>,
    ) {
        if !self.accepts(tcph, payload_len) {
            (self.after_write(0), seq![self.frame(Seq::<u8>::empty())])
        } else if !tcph.ack {
            (self.received(tcph, payload_len), Seq::<Seq<u8>>::empty())
        } else {
            self.received(tcph, payload_len).acknowledged(tcph)
        }
    }

    /// No segment changes the initial sequence numbers or the receive window
    /// of a connection. A connection that had no flag waiting in the template
    /// has none waiting afterwards, and no segment is answered with more than
    /// two frames.
    pub proof fn lemma_on_segment_keeps(self, tcph: TcpHeader, payload_len: nat)
        ensures
            self.on_segment(tcph, payload_len).0.send.iss == self.send.iss,
            self.on_segment(tcph, payload_len).0.recv.irs == self.recv.irs,
            self.on_segment(tcph, payload_len).0.recv.wnd == self.recv.wnd,
            self.wf() ==> self.on_segment(tcph, payload_len).0.wf(),
            self.on_segment(tcph, payload_len).1.len() <= 2,
    {
    }

    /// Tells whether `on_packet` may not be called with this segment because
    /// it carries a payload where none may come.
    pub fn is_payload_unexpected(&self, tcph: &TcpHeader, payload_len: usize) -> (unexpected: bool)
        ensures
            unexpected == self.payload_unexpected(*tcph, payload_len as nat),
    {
        if payload_len == 0 || !tcph.ack || !self.recv.is_acceptable(tcph, payload_len) {
            return false;
        }
        let ackn: u32 = tcph.acknowledgment_number;
        let checked: bool = match self.state {
            State::SynRcvd => self.send.is_syn_acknowledged_by(ackn),
            State::Estab | State::FinWait1 | State::FinWait2 => true,
            State::Closed | State::TimeWait => false,
        };
        checked && self.send.is_acknowledged_by(ackn)
    }

    /// Builds an empty segment and puts its frame behind `frames`.
    fn reply(&mut self, frames: &mut Vec<Vec<u8>>)
        ensures
            *final(self) == old(self).after_write(0),
            wire_images(final(frames)@) == wire_images(old(frames)@) + seq![
                old(self).frame(Seq::<u8>::empty()),
            ],
    {
        let frame: Vec<u8> = self.write_empty();
        frames.push(frame);
        assert(wire_images(frames@) =~= wire_images(old(frames)@) + seq![frame@]);
    }

    /// Closes actively if the connection is established; see `closing`.
    fn close_if_established(&mut self, frames: &mut Vec<Vec<u8>>)
        ensures
            *final(self) == old(self).closing().0,
            wire_images(final(frames)@) == wire_images(old(frames)@) + old(self).closing().1,
    {
        if let State::Estab = self.state {
            self.tcp_header.fin = true;
            self.reply(frames);
            self.state = State::FinWait1;
        } else {
            assert(wire_images(frames@) =~= wire_images(frames@) + Seq::<Seq<u8>>::empty());
        }
    }

    /// Moves on to `FinWait2` if the FIN is acknowledged; see
    /// `fin_acknowledged`.
    fn note_fin_acknowledged(&mut self)
        ensures
            *final(self) == old(self).fin_acknowledged(),
    {
        if let State::FinWait1 = self.state {
            proof {
                lemma_advance_is_wrapping(self.send.iss, 2);
            }
            if self.send.una == self.send.iss.wrapping_add(2) {
                self.state = State::FinWait2;
            }
        }
    }

    /// Answers the peer's FIN if the connection waits for it; see
    /// `peer_closing`.
    fn answer_peer_fin(&mut self, fin: bool, frames: &mut Vec<Vec<u8>>)
        ensures
            *final(self) == old(self).peer_closing(fin).0,
            wire_images(final(frames)@) == wire_images(old(frames)@) + old(self).peer_closing(
                fin,
            ).1,
    {
        if fin {
            match self.state {
                State::FinWait2 => {
                    self.reply(frames);
                    self.state = State::TimeWait;
                    return;
                },
                State::Closed
                | State::Estab
                | State::FinWait1
                | State::SynRcvd
                | State::TimeWait => {},
            }
        }
        assert(wire_images(frames@) =~= wire_images(frames@) + Seq::<Seq<u8>>::empty());
    }

    /// Processes one inbound segment of this connection's flow.
    ///
    /// `_iph` and `tcph` are the headers of the segment and `data` is its
    /// payload. Returns the frames that the caller has to transmit, in
    /// order; there are at most two.
    ///
    /// Where an acceptable acknowledgment is looked at, no payload may come
    /// with it: `is_payload_unexpected` tells a caller beforehand.
    pub fn on_packet(
        &mut self,
        _iph: &Ipv4Header,
        tcph: &TcpHeader,
        data: &[u8],
    ) -> (frames: Vec<Vec<u8>>)
        requires
            !old(self).payload_unexpected(*tcph, data@.len()),
        ensures
            *final(self) == old(self).on_segment(*tcph, data@.len()).0,
            wire_images(frames@) == old(self).on_segment(*tcph, data@.len()).1,
            frames@.len() <= 2,
            old(self).wf() ==> final(self).wf(),
            final(self).send.iss == old(self).send.iss,
            final(self).recv.irs == old(self).recv.irs,
    {
        let mut frames: Vec<Vec<u8>> = Vec::new();
        assert(wire_images(frames@) =~= Seq::<Seq<u8>>::empty());
        proof {
            old(self).lemma_on_segment_keeps(*tcph, data@.len());
        }

        // The segment is acceptable if its first or its last sequence number
        // is in the receive window; one that is not is answered and dropped.
        if !self.recv.is_acceptable(tcph, data.len()) {
            self.reply(&mut frames);
            return frames;
        }
        self.recv.nxt = next_sequence_number(tcph, data.len());

        if !tcph.ack {
            return frames;
        }
        let ackn: u32 = tcph.acknowledgment_number;
        if let State::SynRcvd = self.state {
            if self.send.is_syn_acknowledged_by(ackn) {
                // The peer has acknowledged the SYN, the one thing sent so far.
                self.state = State::Estab;
            }
        }
        if let State::Estab | State::FinWait1 | State::FinWait2 = self.state {
            if !self.send.is_acknowledged_by(ackn) {
                return frames;
            }
            self.send.una = ackn;
            // No payload comes with an acknowledgment that got this far.
            assert(data@.len() == 0);
        } else {
            return frames;
        }
        self.close_if_established(&mut frames);
        self.note_fin_acknowledged();
        self.answer_peer_fin(tcph.fin, &mut frames);
        frames
    }
}

} // verus!
