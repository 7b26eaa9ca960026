//! Typed calls: a call primitive followed by the reading of its reply into
//! the caller's own type. These are the decode paths that a bound method
//! takes, one for each kind of return shape that ends in a record.

use crate::client::{one_round_trip, raw_outcome, SearpcClient};
use crate::dispatch::{and_then, int_outcome, object_outcome, objlist_outcome};
use crate::document::{
    decode_list, decode_optional, decoded_list, decoded_one, decoded_optional, optional_outcome,
    records_outcome, FromDocument,
};
use crate::error::{outcome, Outcome, SearpcError};
use crate::json::Json;
use crate::protocol::arg_views;
use crate::transport::Transport;
use crate::types::Arg;
use vstd::prelude::*;

verus! {

/// A raw outcome read as a truth value: a 32-bit integer that is not zero.
pub open spec fn flag_reply(raw: Outcome<Json>) -> Outcome<bool> {
    and_then(raw, |v: Json| and_then(int_outcome(v), |n: i32| Outcome::Value(n != 0)))
}

/// A raw outcome read as a list of records; `null` is the empty list.
pub open spec fn list_reply<R: FromDocument>(raw: Outcome<Json>) -> Outcome<Seq<R::V>> {
    and_then(
        raw,
        |v: Json| and_then(objlist_outcome(v), |items: Seq<Json>| decoded_list::<R>(items)),
    )
}

/// A raw outcome read as an optional record: the value must be an object or
/// `null`, and `null` is "no value".
pub open spec fn optional_reply<R: FromDocument>(raw: Outcome<Json>) -> Outcome<Option<R::V>> {
    and_then(raw, |v: Json| and_then(object_outcome(v), |doc: Json| decoded_optional::<R>(doc)))
}

/// A raw outcome read as an optional value of any kind: `null` is "no value",
/// and any other value must stand for one.
pub open spec fn optional_value_reply<R: FromDocument>(raw: Outcome<Json>) -> Outcome<
    Option<R::V>,
> {
    and_then(raw, |v: Json| decoded_optional::<R>(v))
}

/// A raw outcome read as one record: the value must be an object or `null`,
/// and must stand for a record.
pub open spec fn record_reply<R: FromDocument>(raw: Outcome<Json>) -> Outcome<R::V> {
    and_then(raw, |v: Json| and_then(object_outcome(v), |doc: Json| decoded_one::<R>(doc)))
}

/// Calls a function that returns a truth value as an integer.
pub fn call_flag<T: Transport>(client: &mut SearpcClient<T>, name: &str, args: Vec<Arg>) -> (result:
    Result<bool, SearpcError>)
    ensures
        one_round_trip(old(client).history(), final(client).history(), name@, arg_views(args@)),
        outcome(result) == flag_reply(
            raw_outcome(final(client).history(), name@, arg_views(args@)),
        ),
{
    match client.call_int(name, args) {
        Ok(n) => Ok(n != 0),
        Err(e) => Err(e),
    }
}

/// Calls a function that returns a list of records.
pub fn call_records<T: Transport, R: FromDocument>(
    client: &mut SearpcClient<T>,
    name: &str,
    args: Vec<Arg>,
) -> (result: Result<Vec<R>, SearpcError>)
    ensures
        one_round_trip(old(client).history(), final(client).history(), name@, arg_views(args@)),
        records_outcome(result) == list_reply::<R>(
            raw_outcome(final(client).history(), name@, arg_views(args@)),
        ),
{
    match client.call_objlist(name, args) {
        Ok(items) => decode_list(&items),
        Err(e) => Err(e),
    }
}

/// Calls a function that returns a record or nothing.
pub fn call_optional<T: Transport, R: FromDocument>(
    client: &mut SearpcClient<T>,
    name: &str,
    args: Vec<Arg>,
) -> (result: Result<Option<R>, SearpcError>)
    ensures
        one_round_trip(old(client).history(), final(client).history(), name@, arg_views(args@)),
        optional_outcome(result) == optional_reply::<R>(
            raw_outcome(final(client).history(), name@, arg_views(args@)),
        ),
{
    match client.call_object(name, args) {
        Ok(doc) => decode_optional(&doc),
        Err(e) => Err(e),
    }
}

/// Calls a function that returns a value that is not a record, or nothing.
pub fn call_optional_value<T: Transport, R: FromDocument>(
    client: &mut SearpcClient<T>,
    name: &str,
    args: Vec<Arg>,
) -> (result: Result<Option<R>, SearpcError>)
    ensures
        one_round_trip(old(client).history(), final(client).history(), name@, arg_views(args@)),
        optional_outcome(result) == optional_value_reply::<R>(
            raw_outcome(final(client).history(), name@, arg_views(args@)),
        ),
{
    match client.call_json(name, args) {
        Ok(doc) => decode_optional(&doc),
        Err(e) => Err(e),
    }
}

/// Calls a function that returns one record.
pub fn call_record<T: Transport, R: FromDocument>(
    client: &mut SearpcClient<T>,
    name: &str,
    args: Vec<Arg>,
) -> (result: Result<R, SearpcError>)
    ensures
        one_round_trip(old(client).history(), final(client).history(), name@, arg_views(args@)),
        outcome(result) == record_reply::<R>(
            raw_outcome(final(client).history(), name@, arg_views(args@)),
        ),
{
    match client.call_object(name, args) {
        Ok(doc) => R::from_document(&doc),
        Err(e) => Err(e),
    }
}

/// For every method that returns an optional value, be it a record or not: a
/// reply of `null` is "no value", and a reply that stands for a value of the
/// method's type is "value present" with that value. A record comes through
/// the object primitive and stands in an object; any other value comes
/// through the primitive for arbitrary JSON.
pub proof fn lemma_optional_value<R: FromDocument>(value: Json)
    ensures
        value is Null ==> optional_reply::<R>(Outcome::Value(value)) == Outcome::Value(
            None::<R::V>,
        ),
        value is Null ==> optional_value_reply::<R>(Outcome::Value(value)) == Outcome::Value(
            None::<R::V>,
        ),
        value is Object && R::decoded(value) is Some ==> optional_reply::<R>(
            Outcome::Value(value),
        ) == Outcome::Value(Some(R::decoded(value)->0)),
        !(value is Null) && R::decoded(value) is Some ==> optional_value_reply::<R>(
            Outcome::Value(value),
        ) == Outcome::Value(Some(R::decoded(value)->0)),
{
}

/// An optional string is absent for `null` and present for every JSON string,
/// with that string's text.
pub proof fn lemma_optional_text(value: Json)
    ensures
        value is Null ==> optional_value_reply::<String>(Outcome::Value(value))
            == Outcome::Value(None::<Seq<char>>),
        value matches Json::String(text) ==> optional_value_reply::<String>(
            Outcome::Value(value),
        ) == Outcome::Value(Some(text)),
{
}

} // verus!
