//! The wire codec: frames to envelopes and envelopes to frame text.

use vstd::prelude::*;
use vstd::string::StringExecFns;
use crate::envelope::{Envelope, EnvelopeView, OpCode, opt_string_view};
use crate::json::{json_object_members, json_quoted, json_u64, members_view, parse_object_members, parse_u64, quote};
use crate::zlib::{inflate, zlib_inflated};

verus! {

/// One unit of transport data, as the transport classifies it.
pub enum Frame {
    Text(String),
    Binary(Vec<u8>),
    Close,
    Other,
}

/// A frame as mathematical values; a text frame by its UTF-8 bytes.
pub enum FrameView {
    Text(Seq<u8>),
    Binary(Seq<u8>),
    Close,
    Other,
}

impl View for Frame {
    type V = FrameView;

    open spec fn view(&self) -> FrameView {
        match self {
            Frame::Text(s) => FrameView::Text(vstd::utf8::encode_utf8(s@)),
            Frame::Binary(b) => FrameView::Binary(b@),
            Frame::Close => FrameView::Close,
            Frame::Other => FrameView::Other,
        }
    }
}

/// The ways in which a frame or a session fails.
#[derive(Debug)]
pub enum GatewayError {
    /// The first frame is not Hello, or a frame kind outside text, binary and close.
    ProtocolViolation,
    /// A malformed structured payload or compressed stream, with its bytes.
    DecodeError(Vec<u8>),
    /// The remote sent a close frame.
    ConnectionClosed,
    /// A write to the transport failed.
    WriteFailed,
    /// A read from the transport failed before the session was live.
    ReadFailed,
}

pub enum GatewayErrorView {
    ProtocolViolation,
    DecodeError(Seq<u8>),
    ConnectionClosed,
    WriteFailed,
    ReadFailed,
}

impl View for GatewayError {
    type V = GatewayErrorView;

    open spec fn view(&self) -> GatewayErrorView {
        match self {
            GatewayError::ProtocolViolation => GatewayErrorView::ProtocolViolation,
            GatewayError::DecodeError(b) => GatewayErrorView::DecodeError(b@),
            GatewayError::ConnectionClosed => GatewayErrorView::ConnectionClosed,
            GatewayError::WriteFailed => GatewayErrorView::WriteFailed,
            GatewayError::ReadFailed => GatewayErrorView::ReadFailed,
        }
    }
}

pub open spec fn decoded_view(r: Result<Envelope, GatewayError>) -> Result<EnvelopeView, GatewayErrorView> {
    match r {
        Ok(e) => Ok(e@),
        Err(e) => Err(e@),
    }
}

/// The value of the first member named `k`.
pub open spec fn member_value(m: Seq<(Seq<char>, Seq<char>)>, k: Seq<char>) -> Option<Seq<char>>
    decreases m.len(),
{
    if m.len() == 0 {
        None
    } else if m[0].0 == k {
        Some(m[0].1)
    } else {
        member_value(m.drop_first(), k)
    }
}

/// The payload member `d`, where it is present and not `null`.
pub open spec fn payload_of(m: Seq<(Seq<char>, Seq<char>)>) -> Option<Seq<char>> {
    match member_value(m, "d"@) {
        Some(t) => if t == "null"@ { None } else { Some(t) },
        None => None,
    }
}

/// The envelope that an object's members make: an unsigned `op` is required.
pub open spec fn envelope_of_members(m: Seq<(Seq<char>, Seq<char>)>) -> Option<EnvelopeView> {
    match member_value(m, "op"@) {
        Some(t) => match json_u64(t) {
            Some(c) => Some(EnvelopeView { code: c, payload: payload_of(m) }),
            None => None,
        },
        None => None,
    }
}

/// The result of decoding the structured text `t`.
pub open spec fn decode_text_spec(t: Seq<u8>) -> Result<EnvelopeView, GatewayErrorView> {
    match json_object_members(t) {
        Some(m) => match envelope_of_members(m) {
            Some(e) => Ok(e),
            None => Err(GatewayErrorView::DecodeError(t)),
        },
        None => Err(GatewayErrorView::DecodeError(t)),
    }
}

/// The result of decoding a frame.
pub open spec fn decode_frame_spec(f: FrameView) -> Result<EnvelopeView, GatewayErrorView> {
    match f {
        FrameView::Text(t) => decode_text_spec(t),
        FrameView::Binary(b) => match zlib_inflated(b) {
            Some(t) => decode_text_spec(t),
            None => Err(GatewayErrorView::DecodeError(b)),
        },
        FrameView::Close => Err(GatewayErrorView::ConnectionClosed),
        FrameView::Other => Err(GatewayErrorView::ProtocolViolation),
    }
}

/// A binary frame decodes exactly as the text frame of the bytes that it
/// inflates to.
pub proof fn lemma_binary_decodes_as_text(b: Seq<u8>, t: Seq<u8>)
    requires
        zlib_inflated(b) == Some(t),
    ensures
        decode_frame_spec(FrameView::Binary(b)) == decode_frame_spec(FrameView::Text(t)),
{
}

/// The value of the first member named `key`.
pub fn find_member(m: &Vec<(String, String)>, key: &String) -> (r: Option<String>)
    ensures
        opt_string_view(r) == member_value(members_view(m@), key@),
{
    let ghost all = members_view(m@);
    let mut i: usize = 0;
    assert(all.subrange(0, all.len() as int) =~= all);
    while i < m.len()
        invariant
            i <= m.len(),
            all == members_view(m@),
            member_value(all, key@) == member_value(all.subrange(i as int, all.len() as int), key@),
        decreases m.len() - i,
    {
        let ghost rest = all.subrange(i as int, all.len() as int);
        assert(rest[0] == all[i as int]);
        if m[i].0 == *key {
            return Some(m[i].1.clone());
        }
        assert(rest.drop_first() =~= all.subrange(i + 1, all.len() as int));
        i = i + 1;
    }
    None
}

/// Decodes structured text into an envelope.
pub fn decode_text(t: &[u8]) -> (r: Result<Envelope, GatewayError>)
    ensures
        decoded_view(r) == decode_text_spec(t@),
{
    let members = match parse_object_members(t) {
        Ok(m) => m,
        Err(_) => {
            return Err(GatewayError::DecodeError(vstd::slice::slice_to_vec(t)));
        },
    };
    let op_text = match find_member(&members, &String::from_str("op")) {
        Some(s) => s,
        None => {
            return Err(GatewayError::DecodeError(vstd::slice::slice_to_vec(t)));
        },
    };
    let code = match parse_u64(op_text.as_str()) {
        Ok(c) => c,
        Err(_) => {
            return Err(GatewayError::DecodeError(vstd::slice::slice_to_vec(t)));
        },
    };
    let payload = match find_member(&members, &String::from_str("d")) {
        Some(p) => if p == String::from_str("null") {
            None
        } else {
            Some(p)
        },
        None => None,
    };
    Ok(Envelope { code, payload })
}

/// Decodes a frame: text directly, binary after inflating it.
pub fn decode_frame(f: &Frame) -> (r: Result<Envelope, GatewayError>)
    ensures
        decoded_view(r) == decode_frame_spec(f@),
{
    match f {
        Frame::Text(s) => decode_text(s.as_str().as_bytes()),
        Frame::Binary(b) => match inflate(b.as_slice()) {
            Some(t) => decode_text(t.as_slice()),
            None => Err(GatewayError::DecodeError(b.clone())),
        },
        Frame::Close => Err(GatewayError::ConnectionClosed),
        Frame::Other => Err(GatewayError::ProtocolViolation),
    }
}

/// The wire text of an operation's number.
pub open spec fn code_text(op: OpCode) -> Seq<char> {
    match op {
        OpCode::Dispatch => "0"@,
        OpCode::Hello => "1"@,
        OpCode::Identify => "2"@,
        OpCode::Heartbeat => "3"@,
        OpCode::HeartbeatAck => "4"@,
    }
}

/// The JSON text of a payload that may be absent.
pub open spec fn payload_text(p: Option<Seq<char>>) -> Seq<char> {
    match p {
        Some(t) => t,
        None => "null"@,
    }
}

pub open spec fn opt_str_view(p: Option<&str>) -> Option<Seq<char>> {
    match p {
        Some(t) => Some(t@),
        None => None,
    }
}

/// The text of the envelope `{"op": <code>, "d": <payload>}`.
pub open spec fn envelope_text(op: OpCode, payload: Option<Seq<char>>) -> Seq<char> {
    "{\"op\":"@ + code_text(op) + ",\"d\":"@ + payload_text(payload) + "}"@
}

/// The text of the Identify payload.
pub open spec fn identify_text(project_id: Seq<char>, token: Seq<char>) -> Seq<char> {
    "{\"project_id\":"@ + json_quoted(project_id) + ",\"token\":"@ + json_quoted(token) + "}"@
}

/// The heartbeat interval that a Hello payload states.
pub open spec fn hello_interval_spec(p: Seq<char>) -> Option<u64> {
    match json_object_members(vstd::utf8::encode_utf8(p)) {
        Some(m) => match member_value(m, "heartbeat_interval"@) {
            Some(t) => json_u64(t),
            None => None,
        },
        None => None,
    }
}

/// Encodes an envelope as frame text.
pub fn encode_envelope(op: OpCode, payload: Option<&str>) -> (r: String)
    ensures
        r@ == envelope_text(op, opt_str_view(payload)),
{
    let mut out = String::from_str("{\"op\":");
    let code = match op {
        OpCode::Dispatch => "0",
        OpCode::Hello => "1",
        OpCode::Identify => "2",
        OpCode::Heartbeat => "3",
        OpCode::HeartbeatAck => "4",
    };
    out.append(code);
    out.append(",\"d\":");
    match payload {
        Some(p) => out.append(p),
        None => out.append("null"),
    }
    out.append("}");
    out
}

/// The Identify payload for the given credentials.
pub fn identify_payload(project_id: &str, token: &str) -> (r: String)
    ensures
        r@ == identify_text(project_id@, token@),
{
    let mut out = String::from_str("{\"project_id\":");
    out.append(quote(project_id).as_str());
    out.append(",\"token\":");
    out.append(quote(token).as_str());
    out.append("}");
    out
}

/// Reads the heartbeat interval, in milliseconds, from a Hello payload.
pub fn hello_interval(payload: &str) -> (r: Option<u64>)
    ensures
        r == hello_interval_spec(payload@),
{
    let members = match parse_object_members(payload.as_bytes()) {
        Ok(m) => m,
        Err(_) => {
            return None;
        },
    };
    match find_member(&members, &String::from_str("heartbeat_interval")) {
        Some(t) => match parse_u64(t.as_str()) {
            Ok(n) => Some(n),
            Err(_) => None,
        },
        None => None,
    }
}

} // verus!
