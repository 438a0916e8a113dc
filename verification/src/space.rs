//! The send and receive sequence spaces of a connection, and the tests that
//! decide whether an inbound segment or acknowledgment is acceptable.

use vstd::prelude::*;
use crate::header::TcpHeader;
use crate::sequence::{advance, between_wrapped, distance, is_between_wrapped, modulus};
use crate::sequence::{lemma_advance_is_wrapping, lemma_distance_value};
use crate::sequence::lemma_between_wrapped_is_circular;

verus! {

/// Progress of what this side has sent.
///
/// ```text
///            1         2          3          4
///       ----------|----------|----------|----------
///              SND.UNA    SND.NXT    SND.UNA
///                                   +SND.WND
/// ```
///
/// 1: acknowledged, 2: sent and unacknowledged, 3: allowed for new data,
/// 4: not yet allowed.
#[derive(Clone, Copy, Debug, PartialEq, Eq)]
pub struct SendSequenceSpace {
    /// Oldest sequence number not yet acknowledged.
    pub una: u32,
    /// Next sequence number to send.
    pub nxt: u32,
    /// Window the peer advertised.
    pub wnd: u16,
    /// Urgent flag; stored only.
    pub up: bool,
    /// Sequence number of the segment used for the last window update.
    pub wl1: usize,
    /// Acknowledgment number of the segment used for the last window update.
    pub wl2: usize,
    /// Initial send sequence number.
    pub iss: u32,
}

/// Progress of what the peer has sent.
///
/// ```text
///                1          2          3
///            ----------|----------|----------
///                   RCV.NXT    RCV.NXT
///                             +RCV.WND
/// ```
///
/// 1: received and acknowledged, 2: allowed for new reception, 3: not yet
/// allowed.
#[derive(Clone, Copy, Debug, PartialEq, Eq)]
pub struct RecvSequenceSpace {
    /// Next sequence number expected from the peer.
    pub nxt: u32,
    /// Window this side advertises.
    pub wnd: u16,
    /// Urgent flag; stored only.
    pub up: bool,
    /// Initial receive sequence number, taken from the peer's SYN.
    pub irs: u32,
}

/// Sequence numbers a segment occupies: its payload bytes, one for SYN and
/// one for FIN.
pub open spec fn segment_len(tcph: TcpHeader, payload_len: nat) -> int {
    payload_len + tcph.control_len()
}

impl RecvSequenceSpace {
    /// Whether `seq` passes the comparator against the receive window, which
    /// is asked with the bounds `nxt - 1` and `nxt + wnd`.
    pub open spec fn in_window(self, seq: u32) -> bool {
        between_wrapped(advance(self.nxt, -1), seq, advance(self.nxt, self.wnd as int))
    }

    /// The acceptability test for a segment that starts at `seq` and
    /// occupies `len` sequence numbers.
    ///
    /// An empty segment is acceptable on a closed window only at `nxt`
    /// itself, and on an open window wherever `seq` is in the window. A
    /// segment that occupies sequence numbers needs an open window and its
    /// first or its last number in the window.
    pub open spec fn accepts(self, seq: u32, len: int) -> bool {
        if len == 0 {
            if self.wnd == 0 {
                seq == self.nxt
            } else {
                self.in_window(seq)
            }
        } else {
            self.wnd != 0 && (self.in_window(seq) || self.in_window(advance(seq, len - 1)))
        }
    }

    /// Runs the comparator against the receive window.
    pub fn is_in_window(&self, seq: u32) -> (inside: bool)
        ensures
            inside == self.in_window(seq),
    {
        proof {
            lemma_advance_is_wrapping(self.nxt, 1);
            lemma_advance_is_wrapping(self.nxt, self.wnd as u32);
        }
        is_between_wrapped(self.nxt.wrapping_sub(1), seq, self.nxt.wrapping_add(self.wnd as u32))
    }

    /// Runs the acceptability test on a segment with the given header and
    /// payload length.
    pub fn is_acceptable(&self, tcph: &TcpHeader, payload_len: usize) -> (ok: bool)
        ensures
            ok == self.accepts(tcph.sequence_number, segment_len(*tcph, payload_len as nat)),
    {
        let seqn: u32 = tcph.sequence_number;
        if payload_len == 0 && !tcph.syn && !tcph.fin {
            if self.wnd == 0 {
                seqn == self.nxt
            } else {
                self.is_in_window(seqn)
            }
        } else if self.wnd == 0 {
            false
        } else {
            let last: u32 = last_sequence_number(tcph, payload_len);
            self.is_in_window(seqn) || self.is_in_window(last)
        }
    }

    /// A segment that occupies sequence numbers is not acceptable any more
    /// once `nxt` stands behind it, unless it is so long that it reaches
    /// round the sequence space into the window.
    pub proof fn lemma_passed_segment_rejected(self, seq: u32, len: int)
        requires
            0 < len <= modulus() - self.wnd,
            self.nxt == advance(seq, len),
        ensures
            !self.accepts(seq, len),
    {
        if self.wnd != 0 {
            let last = advance(seq, len - 1);
            self.lemma_in_window_is_range(seq);
            self.lemma_in_window_is_range(last);
            lemma_distance_value(self.nxt, seq);
            lemma_distance_value(self.nxt, last);
        }
    }

    /// On an open window the comparator admits exactly the sequence numbers
    /// `nxt`, `nxt + 1`, ..., `nxt + wnd - 1`.
    pub proof fn lemma_in_window_is_range(self, seq: u32)
        requires
            self.wnd != 0,
        ensures
            self.in_window(seq) <==> distance(self.nxt, seq) < self.wnd,
    {
        let start = advance(self.nxt, -1);
        let end = advance(self.nxt, self.wnd as int);
        lemma_between_wrapped_is_circular(start, seq, end);
        lemma_distance_value(start, seq);
        lemma_distance_value(start, end);
        lemma_distance_value(self.nxt, seq);
    }
}

/// The sequence number behind a segment that occupies `len` sequence
/// numbers from the one in its header on.
pub open spec fn sequence_end(tcph: TcpHeader, payload_len: nat) -> u32 {
    advance(tcph.sequence_number, segment_len(tcph, payload_len))
}

/// Computes the sequence number that follows the segment.
pub fn next_sequence_number(tcph: &TcpHeader, payload_len: usize) -> (next: u32)
    ensures
        next == sequence_end(*tcph, payload_len as nat),
{
    let low: u32 = (payload_len as u64 % 0x1_0000_0000u64) as u32;
    let mut next: u32 = tcph.sequence_number.wrapping_add(low);
    if tcph.fin {
        next = next.wrapping_add(1);
    }
    if tcph.syn {
        next = next.wrapping_add(1);
    }
    next
}

/// Computes the last sequence number that the segment occupies; for an empty
/// segment, the one before its sequence number.
pub fn last_sequence_number(tcph: &TcpHeader, payload_len: usize) -> (last: u32)
    ensures
        last == advance(tcph.sequence_number, segment_len(*tcph, payload_len as nat) - 1),
{
    next_sequence_number(tcph, payload_len).wrapping_sub(1)
}

impl SendSequenceSpace {
    /// The acknowledgment test `una < ack <= nxt`, asked of the comparator
    /// with the bounds `una` and `nxt + 1`.
    pub open spec fn acknowledges(self, ack: u32) -> bool {
        between_wrapped(self.una, ack, advance(self.nxt, 1))
    }

    /// The test that an acknowledgment covers the SYN this side sent, asked
    /// of the comparator with the bounds `una - 1` and `nxt + 1`.
    pub open spec fn acknowledges_syn(self, ack: u32) -> bool {
        between_wrapped(advance(self.una, -1), ack, advance(self.nxt, 1))
    }

    /// Sequence numbers sent and not yet acknowledged.
    pub open spec fn in_flight(self) -> int {
        distance(self.una, self.nxt)
    }

    /// Runs the acknowledgment test.
    pub fn is_acknowledged_by(&self, ack: u32) -> (ok: bool)
        ensures
            ok == self.acknowledges(ack),
    {
        proof {
            lemma_advance_is_wrapping(self.nxt, 1);
        }
        is_between_wrapped(self.una, ack, self.nxt.wrapping_add(1))
    }

    /// Runs the test that an acknowledgment covers the SYN.
    pub fn is_syn_acknowledged_by(&self, ack: u32) -> (ok: bool)
        ensures
            ok == self.acknowledges_syn(ack),
    {
        proof {
            lemma_advance_is_wrapping(self.una, 1);
            lemma_advance_is_wrapping(self.nxt, 1);
        }
        is_between_wrapped(self.una.wrapping_sub(1), ack, self.nxt.wrapping_add(1))
    }

    /// With one sequence number in flight, the acknowledgment test admits
    /// `nxt` alone, and the test for the SYN admits `una` and `nxt`.
    pub proof fn lemma_one_in_flight(self, ack: u32)
        requires
            self.nxt == advance(self.una, 1),
        ensures
            self.acknowledges(ack) <==> ack == self.nxt,
            self.acknowledges_syn(ack) <==> ack == self.una || ack == self.nxt,
    {
        let before = advance(self.una, -1);
        let end = advance(self.nxt, 1);
        lemma_between_wrapped_is_circular(self.una, ack, end);
        lemma_between_wrapped_is_circular(before, ack, end);
        lemma_distance_value(self.una, ack);
        lemma_distance_value(self.una, end);
        lemma_distance_value(before, ack);
        lemma_distance_value(before, end);
    }

    /// With nothing in flight, the acknowledgment test admits nothing.
    pub proof fn lemma_none_in_flight(self, ack: u32)
        requires
            self.nxt == self.una,
        ensures
            !self.acknowledges(ack),
    {
        let end = advance(self.nxt, 1);
        lemma_between_wrapped_is_circular(self.una, ack, end);
        lemma_distance_value(self.una, ack);
        lemma_distance_value(self.una, end);
    }

    /// Unless the whole sequence space but one number is in flight, the
    /// acknowledgment test admits exactly the numbers behind `una` up to
    /// `nxt`.
    pub proof fn lemma_acknowledges_is_range(self, ack: u32)
        requires
            self.in_flight() < modulus() - 1,
        ensures
            self.acknowledges(ack) <==> 0 < distance(self.una, ack) <= self.in_flight(),
    {
        let end = advance(self.nxt, 1);
        lemma_between_wrapped_is_circular(self.una, ack, end);
        lemma_distance_value(self.una, ack);
        lemma_distance_value(self.una, end);
        lemma_distance_value(self.una, self.nxt);
    }
}

} // verus!
