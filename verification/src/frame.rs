//! The two framings of the protocol, as functions on bytes.
//!
//! A short frame is a 16-bit big-endian length followed by the payload. An
//! enveloped frame is a 32-bit length in the host's byte order followed by a
//! JSON envelope that names the service and carries the request as a string.

use crate::error::{outcome, ErrorKind, Outcome, SearpcError};
use crate::json::{
    json_print, lemma_object_view, lookup, Json, JsonMember, JsonValue, Member,
};
use crate::text::decode_text;
use vstd::prelude::*;
use vstd::slice::slice_to_vec;
use vstd::utf8::{decode_utf8, encode_utf8, valid_utf8};

verus! {

/// The largest payload a short frame can carry.
pub const MAX_PACKET_SIZE: usize = 65535;

/// The two bytes of a 16-bit length, most significant first.
pub open spec fn be_bytes16(n: int) -> Seq<u8> {
    seq![(n / 256) as u8, (n % 256) as u8]
}

/// The length that a big-endian 16-bit header states.
pub open spec fn be_value16(header: Seq<u8>) -> int {
    header[0] as int * 256 + header[1] as int
}

/// The four bytes of a 32-bit length, most significant first.
pub open spec fn be_bytes32(n: int) -> Seq<u8> {
    seq![
        (n / 16777216) as u8,
        (n / 65536 % 256) as u8,
        (n / 256 % 256) as u8,
        (n % 256) as u8,
    ]
}

/// The four bytes of a 32-bit length, least significant first.
pub open spec fn le_bytes32(n: int) -> Seq<u8> {
    seq![
        (n % 256) as u8,
        (n / 256 % 256) as u8,
        (n / 65536 % 256) as u8,
        (n / 16777216) as u8,
    ]
}

/// A payload in a short frame.
pub open spec fn short_frame(payload: Seq<u8>) -> Seq<u8> {
    be_bytes16(payload.len() as int) + payload
}

/// The transport error that carries `reason` as its message.
fn transport_error(reason: &str) -> (error: SearpcError)
    ensures
        error matches SearpcError::TransportError(message) && message@ == reason@,
        error.kind() == ErrorKind::Transport,
{
    SearpcError::TransportError(String::from_str(reason))
}

/// The header of a short frame for a payload of `len` bytes. A payload over
/// [`MAX_PACKET_SIZE`] is refused with a transport error.
pub fn short_frame_header(len: usize) -> (result: Result<[u8; 2], SearpcError>)
    ensures
        match result {
            Ok(header) => len <= MAX_PACKET_SIZE && header@ == be_bytes16(len as int),
            Err(e) => len > MAX_PACKET_SIZE && e.kind() == ErrorKind::Transport,
        },
{
    if len > MAX_PACKET_SIZE {
        return Err(transport_error("Packet too large"));
    }
    let header = [(len / 256) as u8, (len % 256) as u8];
    assert(header@ =~= be_bytes16(len as int));
    Ok(header)
}

/// Frames a payload for the short framing, or refuses it as too large before
/// anything is written.
pub fn encode_short_frame(data: &[u8]) -> (result: Result<Vec<u8>, SearpcError>)
    ensures
        outcome(result) == if data@.len() <= MAX_PACKET_SIZE {
            Outcome::Value(short_frame(data@))
        } else {
            Outcome::Failure(ErrorKind::Transport)
        },
{
    match short_frame_header(data.len()) {
        Err(e) => Err(e),
        Ok(header) => {
            let mut frame: Vec<u8> = Vec::new();
            frame.push(header[0]);
            frame.push(header[1]);
            let mut body = slice_to_vec(data);
            frame.append(&mut body);
            assert(frame@ =~= short_frame(data@));
            Ok(frame)
        },
    }
}

/// The payload length that a received short header announces. A length of
/// zero breaks the protocol and is a transport error.
pub fn short_frame_length(header: &[u8; 2]) -> (result: Result<usize, SearpcError>)
    ensures
        match result {
            Ok(len) => len == be_value16(header@) && len > 0,
            Err(e) => be_value16(header@) == 0 && e.kind() == ErrorKind::Transport,
        },
{
    let len: usize = header[0] as usize * 256 + header[1] as usize;
    if len == 0 {
        return Err(transport_error("Received packet with zero length"));
    }
    Ok(len)
}

/// A header read back is the length that was written.
pub proof fn lemma_short_header_round_trip(len: int)
    requires
        0 <= len <= MAX_PACKET_SIZE,
    ensures
        be_value16(be_bytes16(len)) == len,
{
}

/// The envelope of a request: an object that names the service and holds the
/// request's JSON text as a string, not as a nested value.
pub open spec fn envelope_document(service: Seq<char>, request: Seq<char>) -> Json {
    Json::Object(
        seq![
            JsonMember { key: "service"@, value: Json::String(service) },
            JsonMember { key: "request"@, value: Json::String(request) },
        ],
    )
}

/// The bytes of the envelope of a request, where the request is UTF-8 and the
/// envelope can be written.
pub open spec fn envelope_outcome(service: Seq<char>, rpc_request: Seq<u8>) -> Outcome<Seq<u8>> {
    if !valid_utf8(rpc_request) {
        Outcome::Failure(ErrorKind::InvalidResponse)
    } else {
        match json_print(envelope_document(service, decode_utf8(rpc_request))) {
            Some(text) => Outcome::Value(encode_utf8(text)),
            None => Outcome::Failure(ErrorKind::Json),
        }
    }
}

/// In every envelope the request is a JSON string that holds the request's
/// text as it is, beside the name of the service.
pub proof fn lemma_envelope_holds_request_as_text(service: Seq<char>, request: Seq<char>)
    ensures
        envelope_document(service, request).member("request"@) == Some(Json::String(request)),
        envelope_document(service, request).member("service"@) == Some(Json::String(service)),
{
    reveal_strlit("request");
    reveal_strlit("service");
    let entries = envelope_document(service, request)->Object_0;
    assert("request"@[0] != "service"@[0]);
    assert(entries.last().key == "request"@);
    assert(entries.drop_last().last().key == "service"@);
    assert(lookup(entries, "service"@) == lookup(entries.drop_last(), "service"@));
}

/// Builds the envelope of a request as a document.
pub fn envelope(service: &str, request: &str) -> (doc: JsonValue)
    ensures
        doc@ == envelope_document(service@, request@),
{
    let mut entries: Vec<Member> = Vec::new();
    entries.push(
        Member {
            key: String::from_str("service"),
            value: JsonValue::String(String::from_str(service)),
        },
    );
    entries.push(
        Member {
            key: String::from_str("request"),
            value: JsonValue::String(String::from_str(request)),
        },
    );
    let doc = JsonValue::Object(entries);
    proof {
        lemma_object_view(doc);
        assert(doc@->Object_0 =~= envelope_document(service@, request@)->Object_0);
    }
    doc
}

/// Wraps the bytes of a request in the service envelope.
pub fn wrap_request(service: &str, rpc_request: &[u8]) -> (result: Result<Vec<u8>, SearpcError>)
    ensures
        outcome(result) == envelope_outcome(service@, rpc_request@),
{
    match decode_text(rpc_request) {
        None => Err(SearpcError::InvalidResponse(String::from_str("Request is not valid UTF-8"))),
        Some(request) => {
            match envelope(service, request).to_text() {
                Some(text) => Ok(slice_to_vec(text.as_str().as_bytes())),
                None => Err(SearpcError::JsonError(String::from_str("envelope is not valid JSON"))),
            }
        },
    }
}

/// Whether four bytes state `n` in one of the two byte orders a host can have.
pub open spec fn native_bytes32(n: int, bytes: Seq<u8>) -> bool {
    bytes == le_bytes32(n) || bytes == be_bytes32(n)
}

/// `u32::to_ne_bytes`: the value's bytes in the host's byte order, which is
/// either least significant first or most significant first.
#[verifier::external_body]
fn to_native_bytes(n: u32) -> (bytes: [u8; 4])
    ensures
        native_bytes32(n as int, bytes@),
{
    n.to_ne_bytes()
}

/// `u32::from_ne_bytes`: the value whose bytes in the host's byte order are
/// the given ones.
#[verifier::external_body]
fn from_native_bytes(bytes: [u8; 4]) -> (n: u32)
    ensures
        native_bytes32(n as int, bytes@),
{
    u32::from_ne_bytes(bytes)
}

/// The header of an enveloped frame for a payload of `len` bytes, in the
/// host's byte order. A length beyond 32 bits cannot be framed.
pub fn enveloped_frame_header(len: usize) -> (result: Result<[u8; 4], SearpcError>)
    ensures
        match result {
            Ok(header) => len <= u32::MAX && native_bytes32(len as int, header@),
            Err(e) => len > u32::MAX && e.kind() == ErrorKind::Transport,
        },
{
    if len > 0xffff_ffff {
        return Err(transport_error("Packet too large"));
    }
    Ok(to_native_bytes(len as u32))
}

/// Whether `frame` is `payload` behind its 32-bit length in host byte order.
pub open spec fn is_enveloped_frame(frame: Seq<u8>, payload: Seq<u8>) -> bool {
    &&& frame.len() == payload.len() + 4
    &&& native_bytes32(payload.len() as int, frame.subrange(0, 4))
    &&& frame.subrange(4, frame.len() as int) == payload
}

/// Frames a request for the enveloped framing: the service envelope behind
/// its length. It fails exactly where the envelope cannot be made, with the
/// error of [`wrap_request`], or where the envelope is too long to frame.
pub fn encode_enveloped_frame(service: &str, rpc_request: &[u8]) -> (result: Result<
    Vec<u8>,
    SearpcError,
>)
    ensures
        match envelope_outcome(service@, rpc_request@) {
            Outcome::Failure(kind) => outcome(result) == Outcome::<Seq<u8>>::Failure(kind),
            Outcome::Value(wrapped) => if wrapped.len() <= u32::MAX {
                result is Ok && is_enveloped_frame(result->Ok_0@, wrapped)
            } else {
                outcome(result) == Outcome::<Seq<u8>>::Failure(ErrorKind::Transport)
            },
        },
{
    let mut wrapped = match wrap_request(service, rpc_request) {
        Ok(w) => w,
        Err(e) => {
            return Err(e);
        },
    };
    let header = match enveloped_frame_header(wrapped.len()) {
        Ok(h) => h,
        Err(e) => {
            return Err(e);
        },
    };
    let ghost payload = wrapped@;
    let mut frame: Vec<u8> = Vec::new();
    frame.push(header[0]);
    frame.push(header[1]);
    frame.push(header[2]);
    frame.push(header[3]);
    assert(frame@ =~= header@);
    frame.append(&mut wrapped);
    assert(frame@.subrange(0, 4) =~= header@);
    assert(frame@.subrange(4, frame@.len() as int) =~= payload);
    Ok(frame)
}

/// The payload length that a received enveloped header announces, read in the
/// host's byte order. A length of zero breaks the protocol and is a transport
/// error.
pub fn enveloped_frame_length(header: [u8; 4]) -> (result: Result<usize, SearpcError>)
    ensures
        match result {
            Ok(len) => len > 0 && native_bytes32(len as int, header@),
            Err(e) => native_bytes32(0, header@) && e.kind() == ErrorKind::Transport,
        },
{
    let len = from_native_bytes(header);
    if len == 0 {
        return Err(transport_error("Received packet with zero length"));
    }
    Ok(len as usize)
}

} // verus!
