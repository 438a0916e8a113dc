//! The phases of a connection's life.

use vstd::prelude::*;

verus! {

/// Lifecycle phase of a connection.
///
/// There is no listening phase: a connection comes into being in `SynRcvd`,
/// when the peer's SYN is accepted.
#[derive(Clone, Copy, Debug, PartialEq, Eq, Structural)]
pub enum State {
    Closed,
    SynRcvd,
    Estab,
    FinWait1,
    FinWait2,
    TimeWait,
}

impl State {
    /// Whether the handshake is complete and no close is under way: true in
    /// `Estab` and in no other phase.
    pub fn is_syncronised(&self) -> (synchronised: bool)
        ensures
            synchronised == (*self is Estab),
    {
        match *self {
            State::Estab => true,
            State::SynRcvd
            | State::Closed
            | State::FinWait1
            | State::TimeWait
            | State::FinWait2 => false,
        }
    }

    /// Whether acknowledgments are checked against the send window in this
    /// phase.
    pub open spec fn tracks_acknowledgments(self) -> bool {
        self is Estab || self is FinWait1 || self is FinWait2
    }
}

} // verus!
