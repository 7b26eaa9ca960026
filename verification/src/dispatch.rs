//! What a call does around its round trip, shared by the blocking and the
//! suspending client: the narrowing of a returned value to the shape the
//! caller expects, and the reading of a transport's reply.

use crate::error::{outcome, ErrorKind, Outcome, SearpcError};
use crate::json::{contents, Json, JsonValue};
use crate::protocol::{decode_response, reply_outcome};
use crate::types::ArgView;
use vstd::prelude::*;

verus! {

/// The outcome that a list result stands for, each document by its content.
pub open spec fn list_outcome(result: Result<Vec<JsonValue>, SearpcError>) -> Outcome<Seq<Json>> {
    match result {
        Ok(docs) => Outcome::Value(contents(docs@)),
        Err(error) => Outcome::Failure(error.kind()),
    }
}

/// A value narrowed to a signed 32-bit integer: a type error unless it is an
/// integer in range.
pub open spec fn int_outcome(value: Json) -> Outcome<i32> {
    match value.as_i32() {
        Some(n) => Outcome::Value(n),
        None => Outcome::Failure(ErrorKind::Type),
    }
}

/// A value narrowed to a signed 64-bit integer.
pub open spec fn int64_outcome(value: Json) -> Outcome<i64> {
    match value.as_i64() {
        Some(n) => Outcome::Value(n),
        None => Outcome::Failure(ErrorKind::Type),
    }
}

/// A value narrowed to a string.
pub open spec fn string_outcome(value: Json) -> Outcome<Seq<char>> {
    match value.as_str() {
        Some(s) => Outcome::Value(s),
        None => Outcome::Failure(ErrorKind::Type),
    }
}

/// A value narrowed to an object, `null` standing for "no object".
pub open spec fn object_outcome(value: Json) -> Outcome<Json> {
    if value is Object || value is Null {
        Outcome::Value(value)
    } else {
        Outcome::Failure(ErrorKind::Type)
    }
}

/// A value narrowed to a list, `null` standing for the empty list.
pub open spec fn objlist_outcome(value: Json) -> Outcome<Seq<Json>> {
    match value {
        Json::Null => Outcome::Value(Seq::empty()),
        Json::Array(items) => Outcome::Value(items),
        _ => Outcome::Failure(ErrorKind::Type),
    }
}

/// Continues an outcome with a narrowing: a failure stays as it is.
pub open spec fn and_then<A, B>(first: Outcome<A>, next: spec_fn(A) -> Outcome<B>) -> Outcome<B> {
    match first {
        Outcome::Value(value) => next(value),
        Outcome::Failure(kind) => Outcome::Failure(kind),
    }
}

pub(crate) fn type_error(reason: &str) -> (error: SearpcError)
    ensures
        error.kind() == ErrorKind::Type,
{
    SearpcError::TypeError(String::from_str(reason))
}

/// Narrows a returned value to a signed 32-bit integer, without truncating.
pub fn expect_int(value: &JsonValue) -> (result: Result<i32, SearpcError>)
    ensures
        outcome(result) == int_outcome(value@),
{
    match value.as_i64() {
        Some(n) => {
            if n < -2147483648 || n > 2147483647 {
                Err(type_error("Expected int"))
            } else {
                Ok(n as i32)
            }
        },
        None => Err(type_error("Expected int")),
    }
}

/// Narrows a returned value to a signed 64-bit integer.
pub fn expect_int64(value: &JsonValue) -> (result: Result<i64, SearpcError>)
    ensures
        outcome(result) == int64_outcome(value@),
{
    match value.as_i64() {
        Some(n) => Ok(n),
        None => Err(type_error("Expected int64")),
    }
}

/// Narrows a returned value to a string.
pub fn expect_string(value: &JsonValue) -> (result: Result<String, SearpcError>)
    ensures
        outcome(result) == string_outcome(value@),
{
    match value.as_str() {
        Some(s) => Ok(String::from_str(s)),
        None => Err(type_error("Expected string")),
    }
}

/// Narrows a returned value to an object or `null`.
pub fn expect_object(value: JsonValue) -> (result: Result<JsonValue, SearpcError>)
    ensures
        outcome(result) == object_outcome(value@),
{
    if value.is_object() || value.is_null() {
        Ok(value)
    } else {
        Err(type_error("Expected object"))
    }
}

/// Narrows a returned value to a list of documents; `null` is the empty list.
pub fn expect_objlist(value: JsonValue) -> (result: Result<Vec<JsonValue>, SearpcError>)
    ensures
        list_outcome(result) == objlist_outcome(value@),
{
    match value {
        JsonValue::Null => {
            let empty: Vec<JsonValue> = Vec::new();
            assert(contents(empty@) =~= Seq::empty());
            Ok(empty)
        },
        JsonValue::Array(items) => {
            proof {
                crate::json::lemma_array_view(value);
            }
            Ok(items)
        },
        _ => Err(type_error("Expected array")),
    }
}

/// What a transport's reply means for the caller: its own error, or what the
/// reply's bytes decode to.
pub open spec fn call_outcome(reply: Outcome<Seq<u8>>) -> Outcome<Json> {
    match reply {
        Outcome::Value(bytes) => reply_outcome(bytes),
        Outcome::Failure(kind) => Outcome::Failure(kind),
    }
}

/// Reads the reply of a round trip: a transport error is handed on as it is,
/// and bytes are decoded as a response.
pub fn read_reply(reply: Result<Vec<u8>, SearpcError>) -> (result: Result<JsonValue, SearpcError>)
    ensures
        outcome(result) == call_outcome(outcome(reply)),
        reply matches Err(e) ==> result == Err::<JsonValue, SearpcError>(e),
{
    match reply {
        Ok(bytes) => decode_response(bytes.as_slice()),
        Err(e) => Err(e),
    }
}

/// Marshalling and narrowing are inverse: a native value that is passed as an
/// argument and comes back as the same document narrows to itself. A raw
/// document stands for itself on the wire.
pub proof fn lemma_wire_round_trip(arg: ArgView)
    ensures
        arg matches ArgView::Int(n) ==> int_outcome(arg.wire()) == Outcome::Value(n),
        arg matches ArgView::Int64(n) ==> int64_outcome(arg.wire()) == Outcome::Value(n),
        arg matches ArgView::String(s) ==> string_outcome(arg.wire()) == Outcome::Value(s),
        arg matches ArgView::Json(doc) ==> arg.wire() == doc,
        arg is Null ==> object_outcome(arg.wire()) == Outcome::Value(Json::Null),
{
}

} // verus!
