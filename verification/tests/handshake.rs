use tango_core::net::{channel_config, gate_version, hello_packet, process_hello, Error, Transport};
use tango_core::protocol::{Hello, Input, Packet, VERSION};

#[test]
fn hello_packet_decodes_to_current_version() {
    let bytes = hello_packet();
    assert_eq!(
        Packet::deserialize(bytes.as_slice()),
        Ok(Packet::Hello(Hello { protocol_version: VERSION }))
    );
}

#[test]
fn channel_config_is_reliable_ordered_stream_zero() {
    let c = channel_config();
    assert!(!c.unordered);
    assert!(!c.unreliable);
    assert_eq!(c.max_packet_life_time, 0);
    assert_eq!(c.max_retransmits, 0);
    assert!(c.negotiated);
    assert_eq!(c.stream_id, 0);
}

#[test]
fn gate_equal_versions_succeeds() {
    assert_eq!(gate_version(VERSION, VERSION), Ok(()));
}

#[test]
fn gate_older_peer_fails_too_old() {
    assert_eq!(gate_version(7, 6), Err(Error::ProtocolVersionTooOld));
}

#[test]
fn gate_newer_peer_fails_too_new() {
    assert_eq!(gate_version(7, 8), Err(Error::ProtocolVersionTooNew));
}

#[test]
fn closed_before_hello_is_expected_hello() {
    assert_eq!(process_hello(None), Err(Error::ExpectedHello));
}

#[test]
fn undecodable_first_message_is_expected_hello() {
    assert_eq!(process_hello(Some(&[42, 42])), Err(Error::ExpectedHello));
}

#[test]
fn input_first_is_expected_hello() {
    // An Input packet before any Hello fails the handshake whatever it holds.
    let p = Packet::Input(Input {
        round_number: 0,
        local_tick: 0,
        tick_diff: 0,
        joyflags: 0xffff,
    });
    let bytes = p.serialize();
    assert_eq!(process_hello(Some(bytes.as_slice())), Err(Error::ExpectedHello));
}

#[test]
fn hello_with_matching_version_passes() {
    let bytes = Packet::Hello(Hello { protocol_version: VERSION }).serialize();
    assert_eq!(process_hello(Some(bytes.as_slice())), Ok(()));
}

#[test]
fn hello_with_older_version_is_too_old() {
    let bytes = Packet::Hello(Hello { protocol_version: VERSION - 1 }).serialize();
    assert_eq!(process_hello(Some(bytes.as_slice())), Err(Error::ProtocolVersionTooOld));
}

#[test]
fn hello_with_newer_version_is_too_new() {
    let bytes = Packet::Hello(Hello { protocol_version: VERSION + 1 }).serialize();
    assert_eq!(process_hello(Some(bytes.as_slice())), Err(Error::ProtocolVersionTooNew));
}

#[test]
fn error_messages() {
    assert_eq!(Error::ExpectedHello.message(), "expected hello");
    assert_eq!(Error::ProtocolVersionTooOld.message(), "protocol version too old");
    assert_eq!(Error::ProtocolVersionTooNew.message(), "protocol version too new");
    assert_eq!(Error::Other(String::from("channel torn down")).message(), "other error");
}

#[test]
fn transport_awaits_rendezvous_only_on_first_send() {
    let mut t = Transport::new();
    let (bytes, must_wait) = t.send_input(0, 0, 0, 0x0101);
    assert!(must_wait);
    assert_eq!(
        Packet::deserialize(bytes.as_slice()),
        Ok(Packet::Input(Input { round_number: 0, local_tick: 0, tick_diff: 0, joyflags: 0x0101 }))
    );
    let (bytes2, must_wait2) = t.send_input(0, 1, -2, 0x0202);
    assert!(!must_wait2);
    assert_eq!(
        Packet::deserialize(bytes2.as_slice()),
        Ok(Packet::Input(Input { round_number: 0, local_tick: 1, tick_diff: -2, joyflags: 0x0202 }))
    );
    let (_, must_wait3) = t.send_input(0, 2, 0, 0);
    assert!(!must_wait3);
}
