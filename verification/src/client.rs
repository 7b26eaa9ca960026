//! The blocking client: one call is one round trip on the calling thread.

use crate::dispatch::{
    and_then, call_outcome, expect_int, expect_int64, expect_object, expect_objlist,
    expect_string, int64_outcome, int_outcome, list_outcome, object_outcome, objlist_outcome,
    read_reply, string_outcome,
};
use crate::error::{outcome, ErrorKind, Outcome, SearpcError};
use crate::json::{Json, JsonValue};
use crate::protocol::{arg_views, encode_request, request_bytes};
use crate::transport::Transport;
use crate::types::{Arg, ArgView};
use vstd::prelude::*;

verus! {

/// One round trip as the client saw it: the bytes it handed to the transport
/// and what the transport gave back.
pub struct Exchange {
    pub request: Seq<u8>,
    pub reply: Outcome<Seq<u8>>,
}

/// A client bound to one transport.
pub struct SearpcClient<T: Transport> {
    transport: T,
    exchanges: Ghost<Seq<Exchange>>,
}

/// What a call does to the history: a request that cannot be encoded never
/// reaches the transport; any other call makes exactly one round trip, with
/// the encoded request.
pub open spec fn one_round_trip(
    before: Seq<Exchange>,
    after: Seq<Exchange>,
    name: Seq<char>,
    args: Seq<ArgView>,
) -> bool {
    match request_bytes(name, args) {
        None => after == before,
        Some(bytes) => {
            &&& after.len() == before.len() + 1
            &&& after.drop_last() == before
            &&& after.last().request == bytes
        },
    }
}

/// The raw outcome of a call, before any narrowing: a JSON error where the
/// request cannot be encoded, else what the reply of its round trip, the last
/// of the history, means.
pub open spec fn raw_outcome(after: Seq<Exchange>, name: Seq<char>, args: Seq<ArgView>) -> Outcome<
    Json,
> {
    match request_bytes(name, args) {
        None => Outcome::Failure(ErrorKind::Json),
        Some(_) => call_outcome(after.last().reply),
    }
}

impl<T: Transport> SearpcClient<T> {
    /// The round trips made so far, oldest first.
    pub closed spec fn history(&self) -> Seq<Exchange> {
        self.exchanges@
    }

    pub fn new(transport: T) -> (client: Self)
        ensures
            client.history() == Seq::<Exchange>::empty(),
    {
        SearpcClient { transport, exchanges: Ghost(Seq::empty()) }
    }

    /// Calls `function_name` and returns the raw JSON value of the reply.
    pub fn call(&mut self, function_name: &str, args: Vec<Arg>) -> (result: Result<
        JsonValue,
        SearpcError,
    >)
        ensures
            one_round_trip(
                old(self).history(),
                final(self).history(),
                function_name@,
                arg_views(args@),
            ),
            outcome(result) == raw_outcome(
                final(self).history(),
                function_name@,
                arg_views(args@),
            ),
    {
        let ghost before = self.exchanges@;
        let request = match encode_request(function_name, args) {
            Ok(bytes) => bytes,
            Err(e) => {
                return Err(e);
            },
        };
        let reply = self.transport.send(request.as_slice());
        proof {
            self.exchanges@ = before.push(Exchange { request: request@, reply: outcome(reply) });
            assert(self.exchanges@.drop_last() =~= before);
        }
        read_reply(reply)
    }

    /// Calls a function that returns a 32-bit integer.
    pub fn call_int(&mut self, function_name: &str, args: Vec<Arg>) -> (result: Result<
        i32,
        SearpcError,
    >)
        ensures
            one_round_trip(
                old(self).history(),
                final(self).history(),
                function_name@,
                arg_views(args@),
            ),
            outcome(result) == and_then(
                raw_outcome(final(self).history(), function_name@, arg_views(args@)),
                |v: Json| int_outcome(v),
            ),
    {
        match self.call(function_name, args) {
            Ok(value) => expect_int(&value),
            Err(e) => Err(e),
        }
    }

    /// Calls a function that returns a 64-bit integer.
    pub fn call_int64(&mut self, function_name: &str, args: Vec<Arg>) -> (result: Result<
        i64,
        SearpcError,
    >)
        ensures
            one_round_trip(
                old(self).history(),
                final(self).history(),
                function_name@,
                arg_views(args@),
            ),
            outcome(result) == and_then(
                raw_outcome(final(self).history(), function_name@, arg_views(args@)),
                |v: Json| int64_outcome(v),
            ),
    {
        match self.call(function_name, args) {
            Ok(value) => expect_int64(&value),
            Err(e) => Err(e),
        }
    }

    /// Calls a function that returns a string.
    pub fn call_string(&mut self, function_name: &str, args: Vec<Arg>) -> (result: Result<
        String,
        SearpcError,
    >)
        ensures
            one_round_trip(
                old(self).history(),
                final(self).history(),
                function_name@,
                arg_views(args@),
            ),
            outcome(result) == and_then(
                raw_outcome(final(self).history(), function_name@, arg_views(args@)),
                |v: Json| string_outcome(v),
            ),
    {
        match self.call(function_name, args) {
            Ok(value) => expect_string(&value),
            Err(e) => Err(e),
        }
    }

    /// Calls a function that returns an object, or `null` for "no object".
    pub fn call_object(&mut self, function_name: &str, args: Vec<Arg>) -> (result: Result<
        JsonValue,
        SearpcError,
    >)
        ensures
            one_round_trip(
                old(self).history(),
                final(self).history(),
                function_name@,
                arg_views(args@),
            ),
            outcome(result) == and_then(
                raw_outcome(final(self).history(), function_name@, arg_views(args@)),
                |v: Json| object_outcome(v),
            ),
    {
        match self.call(function_name, args) {
            Ok(value) => expect_object(value),
            Err(e) => Err(e),
        }
    }

    /// Calls a function that returns a list of objects; a `null` reply is the
    /// empty list.
    pub fn call_objlist(&mut self, function_name: &str, args: Vec<Arg>) -> (result: Result<
        Vec<JsonValue>,
        SearpcError,
    >)
        ensures
            one_round_trip(
                old(self).history(),
                final(self).history(),
                function_name@,
                arg_views(args@),
            ),
            list_outcome(result) == and_then(
                raw_outcome(final(self).history(), function_name@, arg_views(args@)),
                |v: Json| objlist_outcome(v),
            ),
    {
        match self.call(function_name, args) {
            Ok(value) => expect_objlist(value),
            Err(e) => Err(e),
        }
    }

    /// Calls a function that returns any JSON value.
    pub fn call_json(&mut self, function_name: &str, args: Vec<Arg>) -> (result: Result<
        JsonValue,
        SearpcError,
    >)
        ensures
            one_round_trip(
                old(self).history(),
                final(self).history(),
                function_name@,
                arg_views(args@),
            ),
            outcome(result) == raw_outcome(
                final(self).history(),
                function_name@,
                arg_views(args@),
            ),
    {
        self.call(function_name, args)
    }
}

} // verus!
