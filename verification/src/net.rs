//! Negotiation decisions and the send-side transport barrier.
//!
//! The peer connection, signaling rendezvous and channel I/O live in the
//! surrounding application; this module holds every decision they need:
//! the channel configuration, the outgoing `Hello`, the version gate on the
//! first received message, and the consume-once start-of-round barrier.

use vstd::prelude::*;
use crate::protocol;
use crate::protocol::Packet;

verus! {

/// Everything that can end a negotiation attempt or a send. Terminal for the
/// attempt: no step is retried.
#[derive(Debug, PartialEq, Eq)]
pub enum Error {
    /// The first message was missing, undecodable, or not a `Hello`.
    ExpectedHello,
    /// The peer's protocol version is strictly below ours.
    ProtocolVersionTooOld,
    /// The peer's protocol version is strictly above ours.
    ProtocolVersionTooNew,
    /// An underlying transport failure, described in words.
    Other(String),
}

impl Error {
    /// A fixed description of the error kind, for logs and messages.
    pub fn message(&self) -> (r: &'static str)
        ensures
            r@ == match self {
                Error::ExpectedHello => "expected hello"@,
                Error::ProtocolVersionTooOld => "protocol version too old"@,
                Error::ProtocolVersionTooNew => "protocol version too new"@,
                Error::Other(_) => "other error"@,
            },
    {
        match self {
            Error::ExpectedHello => "expected hello",
            Error::ProtocolVersionTooOld => "protocol version too old",
            Error::ProtocolVersionTooNew => "protocol version too new",
            Error::Other(_) => "other error",
        }
    }
}

/// How the one data channel must be configured: reliable, ordered,
/// pre-negotiated on a fixed stream, with no retransmit or lifetime cap.
#[derive(Debug, Clone, Copy, PartialEq, Eq, Structural)]
pub struct ChannelConfig {
    pub unordered: bool,
    pub unreliable: bool,
    pub max_packet_life_time: u32,
    pub max_retransmits: u32,
    pub negotiated: bool,
    pub stream_id: u16,
}

/// The channel configuration negotiation must use.
pub fn channel_config() -> (r: ChannelConfig)
    ensures
        !r.unordered,
        !r.unreliable,
        r.max_packet_life_time == 0,
        r.max_retransmits == 0,
        r.negotiated,
        r.stream_id == 0,
{
    ChannelConfig {
        unordered: false,
        unreliable: false,
        max_packet_life_time: 0,
        max_retransmits: 0,
        negotiated: true,
        stream_id: 0,
    }
}

/// The exact bytes of the `Hello` this side sends once the channel is up.
pub fn hello_packet() -> (r: Vec<u8>)
    ensures
        r@ == protocol::spec_serialize(
            Packet::Hello(protocol::Hello { protocol_version: protocol::VERSION }),
        ),
{
    Packet::Hello(protocol::Hello { protocol_version: protocol::VERSION }).serialize()
}

/// Gate two protocol versions against each other: success exactly on
/// equality, and each mismatch direction gets its own error.
pub fn gate_version(local: u32, peer: u32) -> (r: Result<(), Error>)
    ensures
        r == Ok::<(), Error>(()) <==> peer == local,
        r == Err::<(), Error>(Error::ProtocolVersionTooOld) <==> peer < local,
        r == Err::<(), Error>(Error::ProtocolVersionTooNew) <==> peer > local,
{
    if peer < local {
        Err(Error::ProtocolVersionTooOld)
    } else if peer > local {
        Err(Error::ProtocolVersionTooNew)
    } else {
        Ok(())
    }
}

/// What a negotiation decides about the first received message, stated over
/// the wire spec: only a decodable `Hello` with exactly our version passes.
pub open spec fn spec_process_hello(message: Option<Seq<u8>>) -> Result<(), Error> {
    match message {
        None => Err(Error::ExpectedHello),
        Some(m) => match protocol::spec_deserialize(m) {
            Err(_) => Err(Error::ExpectedHello),
            Ok(Packet::Input(_)) => Err(Error::ExpectedHello),
            Ok(Packet::Hello(h)) => if h.protocol_version < protocol::VERSION {
                Err(Error::ProtocolVersionTooOld)
            } else if h.protocol_version > protocol::VERSION {
                Err(Error::ProtocolVersionTooNew)
            } else {
                Ok(())
            },
        },
    }
}

/// Judge the first message received after the channel opens: `None` stands
/// for a channel that closed before any message arrived. Anything but a
/// decodable `Hello` fails with `ExpectedHello`, whatever its contents; a
/// `Hello` passes the version gate.
pub fn process_hello(message: Option<&[u8]>) -> (r: Result<(), Error>)
    ensures
        r == spec_process_hello(match message {
            Some(m) => Some(m@),
            None => None,
        }),
{
    let m = match message {
        Some(m) => m,
        None => {
            return Err(Error::ExpectedHello);
        }
    };
    let hello = match Packet::deserialize(m) {
        Ok(Packet::Hello(hello)) => hello,
        Ok(Packet::Input(_)) => {
            return Err(Error::ExpectedHello);
        }
        Err(_) => {
            return Err(Error::ExpectedHello);
        }
    };
    gate_version(protocol::VERSION, hello.protocol_version)
}

/// Law: the version gate succeeds exactly when the peer sent our version,
/// whatever else the `Hello` carried.
pub proof fn lemma_version_gating(version: u32)
    ensures
        spec_process_hello(Some(protocol::spec_serialize(
            Packet::Hello(protocol::Hello { protocol_version: version }),
        ))) == (if version < protocol::VERSION {
            Err::<(), Error>(Error::ProtocolVersionTooOld)
        } else if version > protocol::VERSION {
            Err::<(), Error>(Error::ProtocolVersionTooNew)
        } else {
            Ok::<(), Error>(())
        }),
{
    let p = Packet::Hello(protocol::Hello { protocol_version: version });
    protocol::lemma_round_trip(p);
}

/// Law: if the first message is an `Input` packet, negotiation fails with
/// `ExpectedHello`, regardless of the packet's contents.
pub proof fn lemma_handshake_ordering(input: protocol::Input)
    ensures
        spec_process_hello(Some(protocol::spec_serialize(Packet::Input(input))))
            == Err::<(), Error>(Error::ExpectedHello),
{
    let p = Packet::Input(input);
    protocol::lemma_round_trip(p);
}

/// Send side of the channel, as the rest of the engine sees it: the one
/// decision it owns is the consume-once start-of-round barrier. The first
/// transmitted input must not complete until the round-start rendezvous has
/// fired; every later send proceeds at once.
pub struct Transport {
    /// Whether the one-shot rendezvous is still to be awaited.
    pub rendezvous_pending: bool,
}

impl Transport {
    /// A fresh transport whose barrier has not yet been consumed.
    pub fn new() -> (t: Transport)
        ensures
            t.rendezvous_pending,
    {
        Transport { rendezvous_pending: true }
    }

    /// Frame one `Input` packet. Returns the exact bytes to transmit and
    /// whether the caller must await the one-shot rendezvous after sending;
    /// the barrier is consumed exactly once.
    pub fn send_input(
        &mut self,
        round_number: u8,
        local_tick: u32,
        tick_diff: i8,
        joyflags: u16,
    ) -> (r: (Vec<u8>, bool))
        ensures
            r.0@ == protocol::spec_serialize(Packet::Input(protocol::Input {
                round_number,
                local_tick,
                tick_diff,
                joyflags,
            })),
            r.1 == old(self).rendezvous_pending,
            !final(self).rendezvous_pending,
    {
        let bytes = Packet::Input(protocol::Input {
            round_number,
            local_tick,
            tick_diff,
            joyflags,
        }).serialize();
        let must_wait = self.rendezvous_pending;
        self.rendezvous_pending = false;
        (bytes, must_wait)
    }
}

} // verus!
