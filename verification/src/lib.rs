//! A user-space TCP endpoint: the per-connection protocol engine that sits on
//! top of raw IPv4 packets from a virtual network device.
//!
//! The crate holds the sequence-space arithmetic, the segment acceptability
//! test, the connection state machine from handshake to active close, and the
//! builder of outgoing frames. Reading and writing the device is left to the
//! caller: every operation takes parsed header values and hands back the
//! frames that have to be transmitted.

pub mod connection;
pub mod flow;
pub mod frame;
pub mod header;
pub mod lifecycle;
pub mod sequence;
pub mod space;
pub mod state;
pub mod wire;
