use searpc::frame::{
    encode_enveloped_frame, encode_short_frame, enveloped_frame_header, enveloped_frame_length,
    short_frame_header, short_frame_length, wrap_request, MAX_PACKET_SIZE,
};
use searpc::SearpcError;

fn host_is_little_endian() -> bool {
    1u16.to_ne_bytes()[0] == 1
}

#[test]
fn tcp_transport_test_packet_encoding() {
    // Test that packet length is encoded as big-endian
    let len: u16 = 0x1234;
    let bytes = len.to_be_bytes();
    assert_eq!(bytes, [0x12, 0x34]);

    let decoded = u16::from_be_bytes(bytes);
    assert_eq!(decoded, 0x1234);

    assert_eq!(short_frame_header(0x1234).unwrap(), [0x12, 0x34]);
    assert_eq!(short_frame_length(&[0x12, 0x34]).unwrap(), 0x1234);
}

#[test]
fn async_tcp_transport_test_packet_encoding() {
    // Test that packet length is encoded as big-endian
    let len: u16 = 0x1234;
    let bytes = len.to_be_bytes();
    assert_eq!(bytes, [0x12, 0x34]);

    let decoded = u16::from_be_bytes(bytes);
    assert_eq!(decoded, 0x1234);

    let frame = encode_short_frame(&[7u8; 0x1234]).unwrap();
    assert_eq!(&frame[..2], &[0x12, 0x34]);
    assert_eq!(frame.len(), 0x1234 + 2);
}

#[test]
fn unix_transport_test_packet_encoding() {
    // Test that length is encoded as native endian
    let len: u32 = 0x12345678;
    let bytes = len.to_ne_bytes();

    if host_is_little_endian() {
        assert_eq!(bytes, [0x78, 0x56, 0x34, 0x12]);
    } else {
        assert_eq!(bytes, [0x12, 0x34, 0x56, 0x78]);
    }

    let decoded = u32::from_ne_bytes(bytes);
    assert_eq!(decoded, 0x12345678);

    assert_eq!(enveloped_frame_header(0x12345678).unwrap(), bytes);
    assert_eq!(enveloped_frame_length(bytes).unwrap(), 0x12345678);
}

#[test]
fn test_wrap_request() {
    let rpc_request = r#"["get_version"]"#.as_bytes();
    let wrapped = wrap_request("test-service", rpc_request).unwrap();
    let wrapped_str = std::str::from_utf8(&wrapped).unwrap();

    assert!(wrapped_str.contains("\"service\":\"test-service\""));
    assert!(wrapped_str.contains("\"request\":\"[\\\"get_version\\\"]\""));
}

#[test]
fn envelope_holds_the_request_as_a_string() {
    let wrapped = wrap_request("test-service", br#"["get_version"]"#).unwrap();
    let doc = searpc::JsonValue::parse(std::str::from_utf8(&wrapped).unwrap()).unwrap();
    assert_eq!(doc.get("request").and_then(|r| r.as_str()), Some(r#"["get_version"]"#));
    assert_eq!(doc.get("service").and_then(|r| r.as_str()), Some("test-service"));
    assert!(doc.get("request").unwrap().as_array().is_none());
}

#[test]
fn wrap_request_refuses_bytes_that_are_not_utf8() {
    let err = wrap_request("svc", b"\xff").unwrap_err();
    assert!(matches!(err, SearpcError::InvalidResponse(_)));
}

#[test]
fn short_frame_takes_exactly_the_maximum() {
    let payload = vec![b'x'; 65535];
    let frame = encode_short_frame(&payload).unwrap();
    assert_eq!(frame.len(), 65537);
    assert_eq!(&frame[..2], &[0xff, 0xff]);
    assert_eq!(&frame[2..], &payload[..]);
    assert_eq!(MAX_PACKET_SIZE, 65535);
}

#[test]
fn short_frame_refuses_one_byte_more() {
    let payload = vec![b'x'; 65536];
    let err = encode_short_frame(&payload).unwrap_err();
    assert!(matches!(err, SearpcError::TransportError(_)));
    assert!(matches!(short_frame_header(65536), Err(SearpcError::TransportError(_))));
}

#[test]
fn short_frame_of_a_small_payload() {
    assert_eq!(encode_short_frame(b"abc").unwrap(), vec![0, 3, b'a', b'b', b'c']);
    assert_eq!(encode_short_frame(b"").unwrap(), vec![0, 0]);
    assert_eq!(short_frame_header(258).unwrap(), [1, 2]);
}

#[test]
fn zero_length_frames_are_transport_errors() {
    assert!(matches!(short_frame_length(&[0, 0]), Err(SearpcError::TransportError(_))));
    assert!(matches!(enveloped_frame_length([0, 0, 0, 0]), Err(SearpcError::TransportError(_))));
    assert_eq!(short_frame_length(&[0, 1]).unwrap(), 1);
    assert_eq!(short_frame_length(&[0xff, 0xff]).unwrap(), 65535);
}

#[test]
fn enveloped_frame_is_length_then_envelope() {
    let request = br#"["get_version"]"#;
    let wrapped = wrap_request("seafile-rpcserver", request).unwrap();
    let frame = encode_enveloped_frame("seafile-rpcserver", request).unwrap();
    assert_eq!(frame.len(), wrapped.len() + 4);
    assert_eq!(&frame[..4], &(wrapped.len() as u32).to_ne_bytes());
    assert_eq!(&frame[4..], &wrapped[..]);
    let header = [frame[0], frame[1], frame[2], frame[3]];
    assert_eq!(enveloped_frame_length(header).unwrap(), wrapped.len());
}

#[test]
fn enveloped_header_round_trip() {
    for len in [1usize, 255, 256, 65536, 0x0102_0304, 0xffff_ffff] {
        let header = enveloped_frame_header(len).unwrap();
        assert_eq!(header, (len as u32).to_ne_bytes());
        assert_eq!(enveloped_frame_length(header).unwrap(), len);
    }
}
