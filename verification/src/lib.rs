//! Core of a two-player lockstep netplay engine: the wire codec for the two
//! packet kinds, the version-gated handshake decisions, the send-side
//! transport barrier, and the per-round synchronization state machine.
//!
//! Everything here is pure logic over plain values; the surrounding
//! application owns the actual peer connection, signaling and timing.

pub mod lockstep;
pub mod net;
pub mod protocol;
