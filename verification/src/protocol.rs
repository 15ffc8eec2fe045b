//! Wire codec for the two packet kinds exchanged between peers.
//!
//! A packet is encoded to a fixed binary layout: a one-byte tag followed by
//! the fields in order, multi-byte integers little-endian. The underlying
//! channel delivers whole messages, so no internal length prefix is needed;
//! a message must contain exactly one packet.

use vstd::prelude::*;

verus! {

/// Protocol version carried in `Hello`; both peers must agree exactly.
pub const VERSION: u32 = 1;

/// Tag byte that opens an encoded `Hello` packet.
pub const HELLO_TAG: u8 = 0;

/// Tag byte that opens an encoded `Input` packet.
pub const INPUT_TAG: u8 = 1;

/// Encoded length of a `Hello` packet: tag + 4 version bytes.
pub const HELLO_LEN: usize = 5;

/// Encoded length of an `Input` packet: tag + round + 4 tick bytes +
/// tick_diff byte + 2 joyflags bytes.
pub const INPUT_LEN: usize = 9;

/// Handshake packet: the first and only packet sent before game data flows.
#[derive(Debug, Clone, Copy, PartialEq, Eq, Structural)]
pub struct Hello {
    pub protocol_version: u32,
}

/// One side's input for one simulated tick.
#[derive(Debug, Clone, Copy, PartialEq, Eq, Structural)]
pub struct Input {
    /// Which round of the match this input belongs to.
    pub round_number: u8,
    /// The sender's tick index at which this input applies.
    pub local_tick: u32,
    /// Signed pacing correction the sender suggests to the receiver.
    pub tick_diff: i8,
    /// Bitmask of pressed buttons.
    pub joyflags: u16,
}

/// The closed union of everything that crosses the wire.
#[derive(Debug, Clone, Copy, PartialEq, Eq, Structural)]
pub enum Packet {
    Hello(Hello),
    Input(Input),
}

/// Why a byte sequence failed to decode.
#[derive(Debug, Clone, Copy, PartialEq, Eq, Structural)]
pub enum DecodeError {
    /// The message is shorter than the layout for its tag (or empty).
    Truncated,
    /// The first byte is not a known packet tag.
    UnknownTag,
    /// The message has bytes beyond the layout for its tag.
    TrailingBytes,
}

/// The four little-endian bytes of a 32-bit integer.
pub open spec fn u32_le(x: u32) -> Seq<u8> {
    seq![
        (x & 0xff) as u8,
        ((x >> 8) & 0xff) as u8,
        ((x >> 16) & 0xff) as u8,
        ((x >> 24) & 0xff) as u8,
    ]
}

/// The 32-bit integer with the given little-endian bytes.
pub open spec fn u32_of_le(b0: u8, b1: u8, b2: u8, b3: u8) -> u32 {
    (b0 as u32) | ((b1 as u32) << 8) | ((b2 as u32) << 16) | ((b3 as u32) << 24)
}

/// The two little-endian bytes of a 16-bit integer.
pub open spec fn u16_le(x: u16) -> Seq<u8> {
    seq![(x & 0xff) as u8, ((x >> 8) & 0xff) as u8]
}

/// The 16-bit integer with the given little-endian bytes.
pub open spec fn u16_of_le(b0: u8, b1: u8) -> u16 {
    (b0 as u16) | ((b1 as u16) << 8)
}

/// Two's-complement byte of a signed 8-bit integer.
pub open spec fn i8_to_byte(x: i8) -> u8 {
    if x >= 0 {
        x as u8
    } else {
        (x + 256) as u8
    }
}

/// Signed 8-bit integer read from its two's-complement byte.
pub open spec fn byte_to_i8(b: u8) -> i8 {
    if b < 128 {
        b as i8
    } else {
        (b - 256) as i8
    }
}

/// The exact byte sequence a packet encodes to.
pub open spec fn spec_serialize(p: Packet) -> Seq<u8> {
    match p {
        Packet::Hello(h) => seq![HELLO_TAG] + u32_le(h.protocol_version),
        Packet::Input(i) => seq![INPUT_TAG, i.round_number] + u32_le(i.local_tick)
            + seq![i8_to_byte(i.tick_diff)] + u16_le(i.joyflags),
    }
}

/// The packet a byte sequence decodes to, or why it does not.
pub open spec fn spec_deserialize(b: Seq<u8>) -> Result<Packet, DecodeError> {
    if b.len() == 0 {
        Err(DecodeError::Truncated)
    } else if b[0] == HELLO_TAG {
        if b.len() < HELLO_LEN {
            Err(DecodeError::Truncated)
        } else if b.len() > HELLO_LEN {
            Err(DecodeError::TrailingBytes)
        } else {
            Ok(Packet::Hello(Hello { protocol_version: u32_of_le(b[1], b[2], b[3], b[4]) }))
        }
    } else if b[0] == INPUT_TAG {
        if b.len() < INPUT_LEN {
            Err(DecodeError::Truncated)
        } else if b.len() > INPUT_LEN {
            Err(DecodeError::TrailingBytes)
        } else {
            Ok(Packet::Input(Input {
                round_number: b[1],
                local_tick: u32_of_le(b[2], b[3], b[4], b[5]),
                tick_diff: byte_to_i8(b[6]),
                joyflags: u16_of_le(b[7], b[8]),
            }))
        }
    } else {
        Err(DecodeError::UnknownTag)
    }
}

fn push_u32_le(out: &mut Vec<u8>, x: u32)
    ensures
        final(out)@ == old(out)@ + u32_le(x),
{
    proof {
        assert(x & 0xff < 256 && (x >> 8) & 0xff < 256 && (x >> 16) & 0xff < 256
            && (x >> 24) & 0xff < 256) by (bit_vector);
    }
    out.push((x & 0xff) as u8);
    out.push(((x >> 8) & 0xff) as u8);
    out.push(((x >> 16) & 0xff) as u8);
    out.push(((x >> 24) & 0xff) as u8);
    proof {
        assert(out@ =~= old(out)@ + u32_le(x));
    }
}

fn push_u16_le(out: &mut Vec<u8>, x: u16)
    ensures
        final(out)@ == old(out)@ + u16_le(x),
{
    proof {
        assert(x & 0xff < 256 && (x >> 8) & 0xff < 256) by (bit_vector);
    }
    out.push((x & 0xff) as u8);
    out.push(((x >> 8) & 0xff) as u8);
    proof {
        assert(out@ =~= old(out)@ + u16_le(x));
    }
}

fn i8_byte(x: i8) -> (r: u8)
    ensures
        r == i8_to_byte(x),
{
    let w: i16 = x as i16;
    if w >= 0 {
        w as u8
    } else {
        (w + 256) as u8
    }
}

fn byte_i8(b: u8) -> (r: i8)
    ensures
        r == byte_to_i8(b),
{
    let w: i16 = b as i16;
    if w < 128 {
        w as i8
    } else {
        (w - 256) as i8
    }
}

fn read_u32_le(b0: u8, b1: u8, b2: u8, b3: u8) -> (r: u32)
    ensures
        r == u32_of_le(b0, b1, b2, b3),
{
    (b0 as u32) | ((b1 as u32) << 8) | ((b2 as u32) << 16) | ((b3 as u32) << 24)
}

fn read_u16_le(b0: u8, b1: u8) -> (r: u16)
    ensures
        r == u16_of_le(b0, b1),
{
    (b0 as u16) | ((b1 as u16) << 8)
}

impl Packet {
    /// Encode this packet to its exact wire bytes. Total: every packet
    /// serializes, deterministically.
    pub fn serialize(&self) -> (r: Vec<u8>)
        ensures
            r@ == spec_serialize(*self),
    {
        let mut out: Vec<u8> = Vec::new();
        match self {
            Packet::Hello(h) => {
                out.push(HELLO_TAG);
                push_u32_le(&mut out, h.protocol_version);
            }
            Packet::Input(i) => {
                out.push(INPUT_TAG);
                out.push(i.round_number);
                push_u32_le(&mut out, i.local_tick);
                out.push(i8_byte(i.tick_diff));
                push_u16_le(&mut out, i.joyflags);
            }
        }
        proof {
            assert(out@ =~= spec_serialize(*self));
        }
        out
    }

    /// Decode one whole message. Fails, and never panics, on empty,
    /// unknown-tag, truncated or over-long input.
    pub fn deserialize(data: &[u8]) -> (r: Result<Packet, DecodeError>)
        ensures
            r == spec_deserialize(data@),
    {
        if data.len() == 0 {
            return Err(DecodeError::Truncated);
        }
        let tag = data[0];
        if tag == HELLO_TAG {
            if data.len() < HELLO_LEN {
                Err(DecodeError::Truncated)
            } else if data.len() > HELLO_LEN {
                Err(DecodeError::TrailingBytes)
            } else {
                Ok(Packet::Hello(Hello {
                    protocol_version: read_u32_le(data[1], data[2], data[3], data[4]),
                }))
            }
        } else if tag == INPUT_TAG {
            if data.len() < INPUT_LEN {
                Err(DecodeError::Truncated)
            } else if data.len() > INPUT_LEN {
                Err(DecodeError::TrailingBytes)
            } else {
                Ok(Packet::Input(Input {
                    round_number: data[1],
                    local_tick: read_u32_le(data[2], data[3], data[4], data[5]),
                    tick_diff: byte_i8(data[6]),
                    joyflags: read_u16_le(data[7], data[8]),
                }))
            }
        } else {
            Err(DecodeError::UnknownTag)
        }
    }
}

proof fn lemma_u32_le_round_trip(x: u32)
    ensures
        u32_of_le(u32_le(x)[0], u32_le(x)[1], u32_le(x)[2], u32_le(x)[3]) == x,
{
    assert((((x & 0xff) as u8) as u32) | (((((x >> 8) & 0xff) as u8) as u32) << 8)
        | (((((x >> 16) & 0xff) as u8) as u32) << 16)
        | (((((x >> 24) & 0xff) as u8) as u32) << 24) == x) by (bit_vector);
}

proof fn lemma_u16_le_round_trip(x: u16)
    ensures
        u16_of_le(u16_le(x)[0], u16_le(x)[1]) == x,
{
    assert((((x & 0xff) as u8) as u16) | (((((x >> 8) & 0xff) as u8) as u16) << 8) == x)
        by (bit_vector);
}

proof fn lemma_i8_round_trip(x: i8)
    ensures
        byte_to_i8(i8_to_byte(x)) == x,
{
    if x >= 0 {
        assert(i8_to_byte(x) == x as u8);
        assert(byte_to_i8(x as u8) == x);
    } else {
        assert(i8_to_byte(x) == (x + 256) as u8);
        assert(byte_to_i8((x + 256) as u8) == x);
    }
}

/// Law: decoding an encoded packet yields the packet back, for every valid
/// packet.
pub proof fn lemma_round_trip(p: Packet)
    ensures
        spec_deserialize(spec_serialize(p)) == Ok::<Packet, DecodeError>(p),
{
    let b = spec_serialize(p);
    match p {
        Packet::Hello(h) => {
            assert(b.len() == HELLO_LEN);
            assert(b[0] == HELLO_TAG);
            assert(b[1] == u32_le(h.protocol_version)[0]);
            assert(b[2] == u32_le(h.protocol_version)[1]);
            assert(b[3] == u32_le(h.protocol_version)[2]);
            assert(b[4] == u32_le(h.protocol_version)[3]);
            lemma_u32_le_round_trip(h.protocol_version);
        }
        Packet::Input(i) => {
            assert(b.len() == INPUT_LEN);
            assert(b[0] == INPUT_TAG);
            assert(b[1] == i.round_number);
            assert(b[2] == u32_le(i.local_tick)[0]);
            assert(b[3] == u32_le(i.local_tick)[1]);
            assert(b[4] == u32_le(i.local_tick)[2]);
            assert(b[5] == u32_le(i.local_tick)[3]);
            assert(b[6] == i8_to_byte(i.tick_diff));
            assert(b[7] == u16_le(i.joyflags)[0]);
            assert(b[8] == u16_le(i.joyflags)[1]);
            lemma_u32_le_round_trip(i.local_tick);
            lemma_i8_round_trip(i.tick_diff);
            lemma_u16_le_round_trip(i.joyflags);
        }
    }
}

} // verus!
