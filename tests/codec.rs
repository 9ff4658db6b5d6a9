use futures_util::FutureExt;
use hop_cli::codec::{
    decode_frame, decode_text, encode_envelope, hello_interval, identify_payload, Frame,
    GatewayError,
};
use hop_cli::envelope::OpCode;

fn compress(text: &str) -> Vec<u8> {
    let mut encoder =
        async_compression::tokio::bufread::ZlibEncoder::new(std::io::Cursor::new(text.as_bytes()));
    let mut out = Vec::new();
    tokio::io::AsyncReadExt::read_to_end(&mut encoder, &mut out)
        .now_or_never()
        .unwrap()
        .unwrap();
    out
}

#[test]
fn text_dispatch_decodes() {
    let env = decode_frame(&Frame::Text(r#"{"op":0,"d":{"x":1}}"#.to_string())).unwrap();
    assert_eq!(env.code, 0);
    assert_eq!(env.operation(), Some(OpCode::Dispatch));
    assert_eq!(env.payload.as_deref(), Some(r#"{"x":1}"#));
}

#[test]
fn binary_frame_decodes_like_text() {
    let text = r#"{"op":1,"d":{"heartbeat_interval":30000}}"#;
    let from_text = decode_frame(&Frame::Text(text.to_string())).unwrap();
    let from_binary = decode_frame(&Frame::Binary(compress(text))).unwrap();
    assert_eq!(from_binary.code, from_text.code);
    assert_eq!(from_binary.payload, from_text.payload);
    assert_eq!(from_binary.operation(), Some(OpCode::Hello));
}

#[test]
fn binary_frame_decode_error_matches_text() {
    let text = "not json";
    match decode_frame(&Frame::Binary(compress(text))) {
        Err(GatewayError::DecodeError(raw)) => assert_eq!(raw, text.as_bytes().to_vec()),
        other => panic!("unexpected {:?}", other.map(|e| e.code)),
    }
}

#[test]
fn truncated_stream_is_decode_error() {
    let mut bytes = compress(r#"{"op":0,"d":{"x":1}}"#);
    bytes.truncate(bytes.len() / 2);
    match decode_frame(&Frame::Binary(bytes.clone())) {
        Err(GatewayError::DecodeError(raw)) => assert_eq!(raw, bytes),
        other => panic!("unexpected {:?}", other.map(|e| e.code)),
    }
}

#[test]
fn close_frame_is_connection_closed() {
    assert!(matches!(decode_frame(&Frame::Close), Err(GatewayError::ConnectionClosed)));
}

#[test]
fn other_frame_is_protocol_violation() {
    assert!(matches!(decode_frame(&Frame::Other), Err(GatewayError::ProtocolViolation)));
}

#[test]
fn malformed_text_is_decode_error() {
    match decode_text(b"{\"op\":") {
        Err(GatewayError::DecodeError(raw)) => assert_eq!(raw, b"{\"op\":".to_vec()),
        _ => panic!("expected a decode error"),
    }
    assert!(matches!(decode_text(b"[1,2]"), Err(GatewayError::DecodeError(_))));
    assert!(matches!(decode_text(b"{\"d\":1}"), Err(GatewayError::DecodeError(_))));
    assert!(matches!(decode_text(b"{\"op\":\"x\"}"), Err(GatewayError::DecodeError(_))));
}

#[test]
fn unknown_operation_is_not_an_error() {
    let env = decode_text(b"{\"op\":9}").unwrap();
    assert_eq!(env.code, 9);
    assert_eq!(env.operation(), None);
    assert_eq!(env.payload, None);
}

#[test]
fn null_payload_is_absent() {
    let env = decode_text(b"{\"op\":3,\"d\":null}").unwrap();
    assert_eq!(env.operation(), Some(OpCode::Heartbeat));
    assert_eq!(env.payload, None);
}

#[test]
fn envelopes_encode() {
    assert_eq!(encode_envelope(OpCode::Heartbeat, None), r#"{"op":3,"d":null}"#);
    assert_eq!(encode_envelope(OpCode::Heartbeat, Some(r#""abc""#)), r#"{"op":3,"d":"abc"}"#);
    assert_eq!(encode_envelope(OpCode::Dispatch, Some("[]")), r#"{"op":0,"d":[]}"#);
}

#[test]
fn identify_payload_quotes_credentials() {
    assert_eq!(identify_payload("p", "t"), r#"{"project_id":"p","token":"t"}"#);
    assert_eq!(identify_payload("a\"b", "c\\d"), r#"{"project_id":"a\"b","token":"c\\d"}"#);
}

#[test]
fn hello_interval_reads_field() {
    assert_eq!(hello_interval(r#"{"heartbeat_interval":30000}"#), Some(30000));
    assert_eq!(hello_interval(r#"{"other":1,"heartbeat_interval":5}"#), Some(5));
    assert_eq!(hello_interval(r#"{"heartbeat_interval":"x"}"#), None);
    assert_eq!(hello_interval(r#"{}"#), None);
    assert_eq!(hello_interval("7"), None);
}

#[test]
fn op_codes_round_trip() {
    for op in [OpCode::Dispatch, OpCode::Hello, OpCode::Identify, OpCode::Heartbeat, OpCode::HeartbeatAck] {
        assert_eq!(OpCode::from_code(op.code()), Some(op));
    }
    assert_eq!(OpCode::Identify.code(), 2);
    assert_eq!(OpCode::from_code(5), None);
}
