//! The string and error-slot protocol of the boundary.
//!
//! A Boundary String reaches this module as the bytes in front of its
//! terminator, copied out by the caller; `None` stands for the null pointer.
//! Releasing the allocation stays with the caller, guided by the
//! release decisions that the client operations return.
use vstd::prelude::*;
use vstd::utf8::*;
use crate::error::{ErrorKind, GomaxError};
use crate::json::{json_accepts, json_error_text, parse_json};

verus! {

/// The text that lossy UTF-8 decoding makes of a byte sequence.
pub uninterp spec fn lossy_text(bytes: Seq<u8>) -> Seq<char>;

/// Relies on `String::from_utf8_lossy`: the text depends on the bytes alone,
/// and bytes that are valid UTF-8 decode exactly.
#[verifier::external_body]
fn decode_lossy(bytes: &[u8]) -> (r: String)
    ensures
        r@ == lossy_text(bytes@),
        valid_utf8(bytes@) ==> r@ == decode_utf8(bytes@),
{
    String::from_utf8_lossy(bytes).into_owned()
}

/// Whether a byte sequence holds the terminator byte, which ends a Boundary
/// String early.
pub open spec fn has_terminator(bytes: Seq<u8>) -> bool {
    bytes.contains(0u8)
}

/// The native text of a Boundary String's bytes.
pub fn boundary_text(bytes: &Vec<u8>) -> (r: String)
    ensures
        r@ == lossy_text(bytes@),
        valid_utf8(bytes@) ==> r@ == decode_utf8(bytes@),
        valid_utf8(bytes@) ==> encode_utf8(r@) == bytes@,
{
    let r = decode_lossy(bytes.as_slice());
    proof {
        if valid_utf8(bytes@) {
            decode_utf8_encode_utf8(bytes@);
        }
    }
    r
}

/// A text marshalled for the boundary and handed back byte for byte reads as
/// the same text: its bytes are valid UTF-8 and decode to it.
pub proof fn lemma_text_round_trip(text: Seq<char>)
    ensures
        valid_utf8(encode_utf8(text)),
        decode_utf8(encode_utf8(text)) == text,
{
    encode_utf8_valid_utf8(text);
    encode_utf8_decode_utf8(text);
}

/// The bytes of `text` as they cross the boundary, or `None` where the text
/// holds the terminator byte and would be cut short.
pub fn marshal_text(text: &str) -> (r: Option<Vec<u8>>)
    ensures
        r is Some <==> !has_terminator(encode_utf8(text@)),
        r matches Some(v) ==> v@ == encode_utf8(text@),
{
    let bytes = text.as_bytes();
    let mut out: Vec<u8> = Vec::new();
    let mut i: usize = 0;
    while i < bytes.len()
        invariant
            bytes@ == encode_utf8(text@),
            i <= bytes@.len(),
            out@ == bytes@.subrange(0, i as int),
            !out@.contains(0u8),
        decreases bytes@.len() - i,
    {
        let b = bytes[i];
        if b == 0 {
            assert(bytes@[i as int] == 0u8);
            return None;
        }
        out.push(b);
        i = i + 1;
        assert(out@ == bytes@.subrange(0, i as int));
    }
    assert(out@ == bytes@);
    Some(out)
}

/// The kind of error that a non-null error slot yields: a protocol violation
/// where the primary result looked successful, the reported error otherwise.
pub open spec fn slot_error_kind(looks_successful: bool) -> ErrorKind {
    if looks_successful {
        ErrorKind::ProtocolViolation
    } else {
        ErrorKind::Other
    }
}

/// Interprets an error slot. A non-null slot is a failure whose message is
/// the slot's text.
pub fn check_error(error: &Option<Vec<u8>>, looks_successful: bool) -> (r: Result<(), GomaxError>)
    ensures
        r is Ok <==> error is None,
        error matches Some(b) ==> r matches Err(e) && e.kind == slot_error_kind(looks_successful)
            && e.message@ == lossy_text(b@),
{
    match error {
        None => Ok(()),
        Some(b) => {
            let kind = if looks_successful {
                ErrorKind::ProtocolViolation
            } else {
                ErrorKind::Other
            };
            Err(GomaxError::new(kind, boundary_text(b)))
        },
    }
}

/// Takes the text of a Boundary String whose operation guarantees a value:
/// null is a protocol violation.
pub fn take_string(value: &Option<Vec<u8>>) -> (r: Result<String, GomaxError>)
    ensures
        r is Ok <==> value is Some,
        value matches Some(b) ==> r matches Ok(s) && s@ == lossy_text(b@)
            && (valid_utf8(b@) ==> encode_utf8(s@) == b@),
        r matches Err(e) ==> e.kind == ErrorKind::ProtocolViolation,
{
    match value {
        None => Err(GomaxError::with_text(ErrorKind::ProtocolViolation, "null string where a value is guaranteed")),
        Some(b) => Ok(boundary_text(b)),
    }
}

/// Parses a returned payload as structured data.
pub fn parse_payload(text: &str) -> (r: Result<serde_json::Value, GomaxError>)
    ensures
        r is Ok <==> json_accepts(text@),
        text@.len() == 0 ==> r is Err,
        r matches Err(e) ==> e.kind == ErrorKind::MalformedResponse,
{
    match parse_json(text) {
        Ok(v) => Ok(v),
        Err(e) => Err(GomaxError::new(ErrorKind::MalformedResponse, json_error_text(&e))),
    }
}

} // verus!
