//! Reading typed records out of JSON documents.
//!
//! A record is read from a JSON object member by member. A member that is
//! there must have its field's type; a member that is missing is an error for
//! a required field and the field's default otherwise.

use crate::dispatch::{expect_int, expect_int64, expect_string, type_error};
use crate::error::{outcome, ErrorKind, Outcome, SearpcError};
use crate::json::{contents, Json, JsonValue};
use vstd::prelude::*;

verus! {

/// Types that can be read from a JSON document.
pub trait FromDocument: View + Sized {
    /// The value that a document stands for, where it stands for one.
    spec fn decoded(doc: Json) -> Option<Self::V>;

    /// Reads a value; a document that stands for none is a type error.
    fn from_document(doc: &JsonValue) -> (result: Result<Self, SearpcError>)
        ensures
            outcome(result) == match Self::decoded(doc@) {
                Some(value) => Outcome::Value(value),
                None => Outcome::Failure(ErrorKind::Type),
            },
    ;
}

impl FromDocument for i32 {
    open spec fn decoded(doc: Json) -> Option<i32> {
        doc.as_i32()
    }

    fn from_document(doc: &JsonValue) -> (result: Result<i32, SearpcError>) {
        expect_int(doc)
    }
}

impl FromDocument for i64 {
    open spec fn decoded(doc: Json) -> Option<i64> {
        doc.as_i64()
    }

    fn from_document(doc: &JsonValue) -> (result: Result<i64, SearpcError>) {
        expect_int64(doc)
    }
}

impl FromDocument for bool {
    open spec fn decoded(doc: Json) -> Option<bool> {
        doc.as_bool()
    }

    fn from_document(doc: &JsonValue) -> (result: Result<bool, SearpcError>) {
        match doc.as_bool() {
            Some(b) => Ok(b),
            None => Err(type_error("Expected bool")),
        }
    }
}

impl FromDocument for String {
    open spec fn decoded(doc: Json) -> Option<Seq<char>> {
        doc.as_str()
    }

    fn from_document(doc: &JsonValue) -> (result: Result<String, SearpcError>) {
        expect_string(doc)
    }
}

/// The error for a document that is not the object a record is read from.
pub(crate) fn not_an_object() -> (error: SearpcError)
    ensures
        error.kind() == ErrorKind::Type,
{
    type_error("Failed to deserialize: expected an object")
}

/// The value of a field: that of the member `key` where the object has it,
/// else the default, which a required field does not have.
pub open spec fn field<V>(
    doc: Json,
    key: Seq<char>,
    decoded: spec_fn(Json) -> Option<V>,
    default: Option<V>,
) -> Option<V> {
    match doc.member(key) {
        Some(member) => decoded(member),
        None => default,
    }
}

/// Reads a required field of a record.
pub fn required<R: FromDocument>(doc: &JsonValue, key: &str) -> (result: Result<R, SearpcError>)
    ensures
        outcome(result) == match field(doc@, key@, |d: Json| R::decoded(d), None) {
            Some(value) => Outcome::Value(value),
            None => Outcome::Failure(ErrorKind::Type),
        },
{
    match doc.get(key) {
        Some(member) => R::from_document(member),
        None => Err(type_error("missing field")),
    }
}

/// Reads a field of a record that has a default.
pub fn optional<R: FromDocument>(doc: &JsonValue, key: &str, default: R) -> (result: Result<
    R,
    SearpcError,
>)
    ensures
        outcome(result) == match field(doc@, key@, |d: Json| R::decoded(d), Some(default@)) {
            Some(value) => Outcome::Value(value),
            None => Outcome::Failure(ErrorKind::Type),
        },
{
    match doc.get(key) {
        Some(member) => R::from_document(member),
        None => Ok(default),
    }
}

/// The records of a list, each by its content.
pub open spec fn record_views<R: View>(records: Seq<R>) -> Seq<R::V> {
    Seq::new(records.len(), |i: int| records[i]@)
}

/// The outcome that a result with a list of records stands for.
pub open spec fn records_outcome<R: View>(result: Result<Vec<R>, SearpcError>) -> Outcome<
    Seq<R::V>,
> {
    match result {
        Ok(records) => Outcome::Value(record_views(records@)),
        Err(error) => Outcome::Failure(error.kind()),
    }
}

/// The outcome that a result with an optional record stands for.
pub open spec fn optional_outcome<R: View>(result: Result<Option<R>, SearpcError>) -> Outcome<
    Option<R::V>,
> {
    match result {
        Ok(Some(record)) => Outcome::Value(Some(record@)),
        Ok(None) => Outcome::Value(None),
        Err(error) => Outcome::Failure(error.kind()),
    }
}

/// The records that a list of documents stands for: each document must stand
/// for one.
pub open spec fn decoded_list<R: FromDocument>(docs: Seq<Json>) -> Outcome<Seq<R::V>> {
    if forall|i: int| 0 <= i < docs.len() ==> (#[trigger] R::decoded(docs[i])) is Some {
        Outcome::Value(Seq::new(docs.len(), |i: int| R::decoded(docs[i])->0))
    } else {
        Outcome::Failure(ErrorKind::Type)
    }
}

/// The optional record that a document stands for: none for `null`, else the
/// record that the document must stand for.
pub open spec fn decoded_optional<R: FromDocument>(doc: Json) -> Outcome<Option<R::V>> {
    if doc is Null {
        Outcome::Value(None)
    } else {
        match R::decoded(doc) {
            Some(value) => Outcome::Value(Some(value)),
            None => Outcome::Failure(ErrorKind::Type),
        }
    }
}

/// The record that a document stands for.
pub open spec fn decoded_one<R: FromDocument>(doc: Json) -> Outcome<R::V> {
    match R::decoded(doc) {
        Some(value) => Outcome::Value(value),
        None => Outcome::Failure(ErrorKind::Type),
    }
}

/// Reads each document of a list as a record.
pub fn decode_list<R: FromDocument>(docs: &Vec<JsonValue>) -> (result: Result<Vec<R>, SearpcError>)
    ensures
        records_outcome(result) == decoded_list::<R>(contents(docs@)),
{
    let mut records: Vec<R> = Vec::new();
    let mut i: usize = 0;
    while i < docs.len()
        invariant
            i <= docs.len(),
            records@.len() == i,
            forall|k: int|
                0 <= k < i ==> (#[trigger] R::decoded(contents(docs@)[k])) == Some(records@[k]@),
        decreases docs.len() - i,
    {
        assert(contents(docs@)[i as int] == docs@[i as int]@);
        match R::from_document(&docs[i]) {
            Ok(record) => {
                records.push(record);
            },
            Err(e) => {
                assert(!(R::decoded(contents(docs@)[i as int]) is Some));
                return Err(e);
            },
        }
        i += 1;
    }
    assert(record_views(records@) =~= decoded_list::<R>(contents(docs@))->Value_0);
    Ok(records)
}

/// Reads a document as an optional record.
pub fn decode_optional<R: FromDocument>(doc: &JsonValue) -> (result: Result<
    Option<R>,
    SearpcError,
>)
    ensures
        optional_outcome(result) == decoded_optional::<R>(doc@),
{
    if doc.is_null() {
        Ok(None)
    } else {
        match R::from_document(doc) {
            Ok(record) => Ok(Some(record)),
            Err(e) => Err(e),
        }
    }
}

} // verus!
