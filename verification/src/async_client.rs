//! The suspending client: the two ends of a call around an awaited round
//! trip. Encoding, decoding and narrowing are those of the blocking client.

use crate::async_transport::AsyncTransport;
use crate::dispatch::{
    and_then, call_outcome, expect_int, expect_int64, expect_object, expect_objlist,
    expect_string, int64_outcome, int_outcome, list_outcome, object_outcome, objlist_outcome,
    read_reply, string_outcome,
};
use crate::error::{outcome, ErrorKind, Outcome, SearpcError};
use crate::json::{Json, JsonValue};
use crate::protocol::{arg_views, encode_request, request_bytes};
use crate::types::Arg;
use vstd::prelude::*;

verus! {

/// A client bound to one suspending transport.
///
/// A call is made in three steps: [`Self::request`] gives the bytes to send,
/// the caller awaits the round trip on [`Self::transport`], and the reply goes
/// to the function for the expected shape, such as [`Self::int_reply`].
pub struct AsyncSearpcClient<T: AsyncTransport> {
    transport: T,
}

impl<T: AsyncTransport> AsyncSearpcClient<T> {
    /// The transport this client is bound to.
    pub closed spec fn pipe(&self) -> T {
        self.transport
    }

    pub fn new(transport: T) -> (client: Self)
        ensures
            client.pipe() == transport,
    {
        AsyncSearpcClient { transport }
    }

    /// The transport, for the caller to await the round trip on.
    pub fn transport(&mut self) -> (pipe: &mut T)
        ensures
            *pipe == old(self).pipe(),
            final(self).pipe() == *final(pipe),
    {
        &mut self.transport
    }

    /// The bytes to send for a call of `fname`.
    pub fn request(&self, fname: &str, args: Vec<Arg>) -> (result: Result<Vec<u8>, SearpcError>)
        ensures
            outcome(result) == match request_bytes(fname@, arg_views(args@)) {
                Some(bytes) => Outcome::Value(bytes),
                None => Outcome::Failure(ErrorKind::Json),
            },
    {
        encode_request(fname, args)
    }

    /// Reads the reply of a call that expects a 32-bit integer.
    pub fn int_reply(reply: Result<Vec<u8>, SearpcError>) -> (result: Result<i32, SearpcError>)
        ensures
            outcome(result) == and_then(call_outcome(outcome(reply)), |v: Json| int_outcome(v)),
    {
        match read_reply(reply) {
            Ok(value) => expect_int(&value),
            Err(e) => Err(e),
        }
    }

    /// Reads the reply of a call that expects a 64-bit integer.
    pub fn int64_reply(reply: Result<Vec<u8>, SearpcError>) -> (result: Result<i64, SearpcError>)
        ensures
            outcome(result) == and_then(
                call_outcome(outcome(reply)),
                |v: Json| int64_outcome(v),
            ),
    {
        match read_reply(reply) {
            Ok(value) => expect_int64(&value),
            Err(e) => Err(e),
        }
    }

    /// Reads the reply of a call that expects a string.
    pub fn string_reply(reply: Result<Vec<u8>, SearpcError>) -> (result: Result<
        String,
        SearpcError,
    >)
        ensures
            outcome(result) == and_then(
                call_outcome(outcome(reply)),
                |v: Json| string_outcome(v),
            ),
    {
        match read_reply(reply) {
            Ok(value) => expect_string(&value),
            Err(e) => Err(e),
        }
    }

    /// Reads the reply of a call that expects an object or `null`.
    pub fn object_reply(reply: Result<Vec<u8>, SearpcError>) -> (result: Result<
        JsonValue,
        SearpcError,
    >)
        ensures
            outcome(result) == and_then(
                call_outcome(outcome(reply)),
                |v: Json| object_outcome(v),
            ),
    {
        match read_reply(reply) {
            Ok(value) => expect_object(value),
            Err(e) => Err(e),
        }
    }

    /// Reads the reply of a call that expects a list of objects.
    pub fn objlist_reply(reply: Result<Vec<u8>, SearpcError>) -> (result: Result<
        Vec<JsonValue>,
        SearpcError,
    >)
        ensures
            list_outcome(result) == and_then(
                call_outcome(outcome(reply)),
                |v: Json| objlist_outcome(v),
            ),
    {
        match read_reply(reply) {
            Ok(value) => expect_objlist(value),
            Err(e) => Err(e),
        }
    }

    /// Reads the reply of a call that expects any JSON value.
    pub fn json_reply(reply: Result<Vec<u8>, SearpcError>) -> (result: Result<
        JsonValue,
        SearpcError,
    >)
        ensures
            outcome(result) == call_outcome(outcome(reply)),
    {
        read_reply(reply)
    }
}

} // verus!
