use tango_core::protocol::{DecodeError, Hello, Input, Packet, VERSION};

#[test]
fn round_trip_hello() {
    let p = Packet::Hello(Hello { protocol_version: VERSION });
    assert_eq!(Packet::deserialize(p.serialize().as_slice()), Ok(p));
}

#[test]
fn round_trip_input() {
    let p = Packet::Input(Input {
        round_number: 3,
        local_tick: 12345,
        tick_diff: -7,
        joyflags: 0x0123,
    });
    assert_eq!(Packet::deserialize(p.serialize().as_slice()), Ok(p));
}

#[test]
fn round_trip_extremes() {
    let cases = vec![
        Packet::Hello(Hello { protocol_version: 0 }),
        Packet::Hello(Hello { protocol_version: u32::MAX }),
        Packet::Input(Input { round_number: 0, local_tick: 0, tick_diff: 0, joyflags: 0 }),
        Packet::Input(Input {
            round_number: u8::MAX,
            local_tick: u32::MAX,
            tick_diff: i8::MIN,
            joyflags: u16::MAX,
        }),
        Packet::Input(Input { round_number: 1, local_tick: 1, tick_diff: i8::MAX, joyflags: 1 }),
    ];
    for p in cases {
        assert_eq!(Packet::deserialize(p.serialize().as_slice()), Ok(p));
    }
}

#[test]
fn hello_exact_bytes() {
    let p = Packet::Hello(Hello { protocol_version: 1 });
    assert_eq!(p.serialize(), vec![0u8, 1, 0, 0, 0]);
}

#[test]
fn input_exact_bytes() {
    let p = Packet::Input(Input {
        round_number: 2,
        local_tick: 0x0102_0304,
        tick_diff: -1,
        joyflags: 0x0506,
    });
    assert_eq!(p.serialize(), vec![1u8, 2, 0x04, 0x03, 0x02, 0x01, 0xff, 0x06, 0x05]);
}

#[test]
fn decode_empty_is_truncated() {
    assert_eq!(Packet::deserialize(&[]), Err(DecodeError::Truncated));
}

#[test]
fn decode_unknown_tag() {
    assert_eq!(Packet::deserialize(&[9, 0, 0, 0, 0]), Err(DecodeError::UnknownTag));
}

#[test]
fn decode_truncated_hello() {
    assert_eq!(Packet::deserialize(&[0, 1, 0]), Err(DecodeError::Truncated));
}

#[test]
fn decode_overlong_hello() {
    assert_eq!(Packet::deserialize(&[0, 1, 0, 0, 0, 0]), Err(DecodeError::TrailingBytes));
}

#[test]
fn decode_truncated_input() {
    assert_eq!(Packet::deserialize(&[1, 2, 3, 4, 5, 6, 7, 8]), Err(DecodeError::Truncated));
}

#[test]
fn decode_overlong_input() {
    assert_eq!(
        Packet::deserialize(&[1, 2, 3, 4, 5, 6, 7, 8, 9, 10]),
        Err(DecodeError::TrailingBytes)
    );
}
