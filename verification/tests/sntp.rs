use simple_ntp::codec::NtpMsg;
use simple_ntp::sntp::{build_client_request, clock_offset_nanos, getaddr, unix_timestamp,
    validate_response};
use simple_ntp::timestamp::{duration_to_ntp_timestamp, ntp_timestamp_to_duration, UnixTime};
use simple_ntp::NtpError;

/// A synthetic but plausible server reply.
fn server_reply(originate: u64, receive: u64, transmit: u64) -> NtpMsg {
    NtpMsg {
        leap_indicator: 0,
        version_number: 4,
        mode: 4,
        stratum: 2,
        poll: 6,
        precision: 0xE9,
        root_delay: 0x0000_0200,
        root_dispersion: 0x0000_0A00,
        reference_identifier: 0xC0A8_0001,
        reference_timestamp: receive.saturating_sub(0x10_0000_0000),
        originate_timestamp: originate,
        receiver_timestamp: receive,
        transmit_timestamp: transmit,
    }
}

#[test]
fn test_ntp() {
    // A full exchange against a synthetic server: the request carries the
    // captured transmit timestamp, the reply echoes it, and the decoded
    // server instants convert back to plain durations.
    let t1 = UnixTime { secs: 1000, nanos: 0 };
    let timestamp = duration_to_ntp_timestamp(&t1);
    let request = build_client_request(timestamp);
    assert_eq!(request.len(), 48);
    assert_eq!(request[0], 0x23); // leap 0, version 4, mode 3

    let t2_wire = (2_208_988_800u64 + 1000) * 4_294_967_296 + 2_147_483_648;
    let t3_wire = (2_208_988_800u64 + 1000) * 4_294_967_296 + 2_576_980_377; // ~0.6 s
    let reply = server_reply(timestamp, t2_wire, t3_wire).marshal();
    assert_eq!(reply.len(), 48);

    let (rcv, xmt) = validate_response(timestamp, reply.as_slice()).unwrap();
    assert_eq!(rcv, t2_wire);
    assert_eq!(xmt, t3_wire);
    let t2 = ntp_timestamp_to_duration(rcv);
    let t3 = ntp_timestamp_to_duration(xmt);
    assert_eq!(t2, UnixTime { secs: 1000, nanos: 500_000_000 });
    assert_eq!(t3.secs, 1000);
    assert_eq!(t3.nanos, 599_999_999); // 2_576_980_377 / 2^32 s, rounded down
}

#[test]
fn test_delta() {
    // The offset formula sample: t1 = 1000.0 s, t2 = 1000.5 s, t3 = 1000.6 s,
    // t4 = 1000.2 s gives ((0.5) + (0.6 - 0.2)) / 2 = 0.45 s.
    let t1 = UnixTime { secs: 1000, nanos: 0 };
    let t2 = UnixTime { secs: 1000, nanos: 500_000_000 };
    let t3 = UnixTime { secs: 1000, nanos: 600_000_000 };
    let t4 = UnixTime { secs: 1000, nanos: 200_000_000 };
    assert_eq!(clock_offset_nanos(t1, t2, t3, t4), 450_000_000);
}

#[test]
fn test_timestamp() {
    // The absolute-time sample: the same four instants give
    // (t1 + t2 + t3 - t4) / 2 = 1000.45 s.
    let t1 = UnixTime { secs: 1000, nanos: 0 };
    let t2 = UnixTime { secs: 1000, nanos: 500_000_000 };
    let t3 = UnixTime { secs: 1000, nanos: 600_000_000 };
    let t4 = UnixTime { secs: 1000, nanos: 200_000_000 };
    assert_eq!(
        unix_timestamp(t1, t2, t3, t4),
        UnixTime { secs: 1000, nanos: 450_000_000 }
    );
}

#[test]
fn negative_offset() {
    // A local clock ahead of the server gives a negative offset.
    let t1 = UnixTime { secs: 1000, nanos: 0 };
    let t2 = UnixTime { secs: 999, nanos: 500_000_000 };
    let t3 = UnixTime { secs: 999, nanos: 500_000_000 };
    let t4 = UnixTime { secs: 1000, nanos: 0 };
    assert_eq!(clock_offset_nanos(t1, t2, t3, t4), -500_000_000);
}

#[test]
fn timestamp_round_trip() {
    // 1000.5 s has a fraction exactly expressible in 1/2^32 units, so the
    // conversion to NTP form and back is exact.
    let d = UnixTime { secs: 1000, nanos: 500_000_000 };
    let t = duration_to_ntp_timestamp(&d);
    assert_eq!(t, (1000 + 2_208_988_800u64) * 4_294_967_296 + 2_147_483_648);
    assert_eq!(ntp_timestamp_to_duration(t), d);
}

#[test]
fn timestamp_fraction_rounds_down() {
    // 999,999,999 ns is not an exact multiple of 1/2^32 s: the fraction and
    // the way back both round down.
    let d = UnixTime { secs: 0, nanos: 999_999_999 };
    let t = duration_to_ntp_timestamp(&d);
    assert_eq!(t >> 32, 2_208_988_800);
    assert_eq!(t & 0xFFFF_FFFF, 4_294_967_291);
    let back = ntp_timestamp_to_duration(t);
    assert_eq!(back.secs, 0);
    assert_eq!(back.nanos, 999_999_998);
}

#[test]
fn codec_symmetry() {
    // Decoding any 48-byte buffer and re-encoding the result reproduces the
    // buffer exactly.
    let mut buf: Vec<u8> = Vec::new();
    for i in 0..48u32 {
        buf.push((i * 37 % 256) as u8);
    }
    let mut msg = NtpMsg::new();
    msg.unmarshal(buf.as_slice()).unwrap();
    assert_eq!(msg.marshal(), buf);
}

#[test]
fn codec_round_trip() {
    // Encoding a well-formed message and decoding the result returns the
    // message unchanged.
    let msg = server_reply(0x0123_4567_89AB_CDEF, 11 << 40, 12 << 40);
    let wire = msg.marshal();
    let mut back = NtpMsg::new();
    back.unmarshal(wire.as_slice()).unwrap();
    assert_eq!(back, msg);
}

#[test]
fn unmarshal_extracts_fields() {
    let mut reply = server_reply(7, 1 << 35, 2 << 35);
    reply.leap_indicator = 3;
    let wire = reply.marshal();
    assert_eq!(wire[0], 0b11_100_100); // leap 3, version 4, mode 4

    let mut parsed = NtpMsg::new();
    parsed.unmarshal(wire.as_slice()).unwrap();
    assert_eq!(parsed.leap_indicator, 3);
    assert_eq!(parsed.version_number, 4);
    assert_eq!(parsed.mode, 4);
    assert_eq!(parsed.stratum, 2);
    assert_eq!(parsed.poll, 6);
    assert_eq!(parsed.precision, 0xE9);
    assert_eq!(parsed.root_delay, 0x0000_0200);
    assert_eq!(parsed.root_dispersion, 0x0000_0A00);
    assert_eq!(parsed.reference_identifier, 0xC0A8_0001);
    assert_eq!(parsed.originate_timestamp, 7);
    assert_eq!(parsed.receiver_timestamp, 1 << 35);
    assert_eq!(parsed.transmit_timestamp, 2 << 35);
}

#[test]
fn decode_length_guard() {
    // Any length other than exactly 48 is refused as truncated.
    let mut msg = NtpMsg::new();
    let short = vec![0u8; 47];
    assert!(matches!(
        msg.unmarshal(short.as_slice()),
        Err(NtpError::TruncatedNtpMessage)
    ));
    let long = vec![0u8; 49];
    assert!(matches!(
        msg.unmarshal(long.as_slice()),
        Err(NtpError::TruncatedNtpMessage)
    ));
    assert!(matches!(
        validate_response(0, short.as_slice()),
        Err(NtpError::TruncatedNtpMessage)
    ));
    assert!(matches!(
        validate_response(0, long.as_slice()),
        Err(NtpError::TruncatedNtpMessage)
    ));
}

#[test]
fn originate_echo_guard() {
    // A reply whose originate timestamp is off by one tick is untrusted.
    let timestamp = 0x1122_3344_5566_7788u64;
    let reply = server_reply(timestamp + 1, 9 << 35, 10 << 35).marshal();
    assert!(matches!(
        validate_response(timestamp, reply.as_slice()),
        Err(NtpError::UntrustedMessage)
    ));
    let echoed = server_reply(timestamp, 9 << 35, 10 << 35).marshal();
    assert!(validate_response(timestamp, echoed.as_slice()).is_ok());
}

#[test]
fn request_wire_form() {
    let request = build_client_request(0x0102_0304_0506_0708);
    assert_eq!(request[0], 0x23);
    for i in 1..40 {
        assert_eq!(request[i], 0);
    }
    assert_eq!(request[40..48], [1u8, 2, 3, 4, 5, 6, 7, 8]);
}

#[test]
fn getaddr_appends_default_port() {
    assert_eq!(getaddr("ntp.aliyun.com"), "ntp.aliyun.com:123");
    assert_eq!(getaddr("ntp.aliyun.com:123"), "ntp.aliyun.com:123");
    assert_eq!(getaddr("127.0.0.1:4567"), "127.0.0.1:4567");
    assert_eq!(getaddr(""), ":123");
}

#[test]
fn unix_time_new() {
    let t = UnixTime::new(5, 6);
    assert_eq!(t.secs, 5);
    assert_eq!(t.nanos, 6);
}
