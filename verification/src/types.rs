//! Typed arguments: the closed set of values a call can carry.

use crate::json::{Json, JsonValue};
use vstd::prelude::*;

verus! {

/// One argument of a call.
#[derive(Debug)]
pub enum Arg {
    /// JSON `null`: the only way to pass an absent value.
    Null,
    /// A 32-bit integer.
    Int(i32),
    /// A 64-bit integer.
    Int64(i64),
    /// A UTF-8 string.
    String(String),
    /// Any JSON document, passed as it is.
    Json(JsonValue),
}

/// The mathematical content of an [`Arg`].
pub enum ArgView {
    Null,
    Int(i32),
    Int64(i64),
    String(Seq<char>),
    Json(Json),
}

impl ArgView {
    /// The JSON document that stands for this argument on the wire.
    pub open spec fn wire(self) -> Json {
        match self {
            ArgView::Null => Json::Null,
            ArgView::Int(v) => Json::Int(v as int),
            ArgView::Int64(v) => Json::Int(v as int),
            ArgView::String(s) => Json::String(s),
            ArgView::Json(doc) => doc,
        }
    }
}

impl View for Arg {
    type V = ArgView;

    open spec fn view(&self) -> ArgView {
        match self {
            Arg::Null => ArgView::Null,
            Arg::Int(v) => ArgView::Int(*v),
            Arg::Int64(v) => ArgView::Int64(*v),
            Arg::String(s) => ArgView::String(s@),
            Arg::Json(doc) => ArgView::Json(doc@),
        }
    }
}

impl Arg {
    pub fn null() -> (arg: Arg)
        ensures
            arg@ == ArgView::Null,
    {
        Arg::Null
    }

    /// A 32-bit integer argument.
    pub fn int32(v: i32) -> (arg: Arg)
        ensures
            arg@ == ArgView::Int(v),
    {
        Arg::Int(v)
    }

    pub fn int64(v: i64) -> (arg: Arg)
        ensures
            arg@ == ArgView::Int64(v),
    {
        Arg::Int64(v)
    }

    pub fn string(s: &str) -> (arg: Arg)
        ensures
            arg@ == ArgView::String(s@),
    {
        Arg::String(String::from_str(s))
    }

    pub fn json(v: JsonValue) -> (arg: Arg)
        ensures
            arg@ == ArgView::Json(v@),
    {
        Arg::Json(v)
    }

    /// The document that stands for this argument on the wire.
    pub fn to_document(&self) -> (doc: JsonValue)
        ensures
            doc@ == self@.wire(),
    {
        match self {
            Arg::Null => JsonValue::Null,
            Arg::Int(v) => JsonValue::Int(*v as i64),
            Arg::Int64(v) => JsonValue::Int(*v),
            Arg::String(s) => JsonValue::String(s.clone()),
            Arg::Json(doc) => doc.duplicate(),
        }
    }
}

impl Clone for Arg {
    fn clone(&self) -> (copy: Arg)
        ensures
            copy@ == self@,
    {
        match self {
            Arg::Null => Arg::Null,
            Arg::Int(v) => Arg::Int(*v),
            Arg::Int64(v) => Arg::Int64(*v),
            Arg::String(s) => Arg::String(s.clone()),
            Arg::Json(doc) => Arg::Json(doc.duplicate()),
        }
    }
}

impl From<i32> for Arg {
    fn from(v: i32) -> (arg: Arg)
        ensures
            arg@ == ArgView::Int(v),
    {
        Arg::Int(v)
    }
}

impl vstd::std_specs::convert::FromSpecImpl<i32> for Arg {
    open spec fn obeys_from_spec() -> bool {
        true
    }

    open spec fn from_spec(v: i32) -> Arg {
        Arg::Int(v)
    }
}

impl From<i64> for Arg {
    fn from(v: i64) -> (arg: Arg)
        ensures
            arg@ == ArgView::Int64(v),
    {
        Arg::Int64(v)
    }
}

impl vstd::std_specs::convert::FromSpecImpl<i64> for Arg {
    open spec fn obeys_from_spec() -> bool {
        true
    }

    open spec fn from_spec(v: i64) -> Arg {
        Arg::Int64(v)
    }
}

impl From<String> for Arg {
    fn from(s: String) -> (arg: Arg)
        ensures
            arg@ == ArgView::String(s@),
    {
        Arg::String(s)
    }
}

impl vstd::std_specs::convert::FromSpecImpl<String> for Arg {
    open spec fn obeys_from_spec() -> bool {
        true
    }

    open spec fn from_spec(s: String) -> Arg {
        Arg::String(s)
    }
}

impl From<JsonValue> for Arg {
    fn from(v: JsonValue) -> (arg: Arg)
        ensures
            arg@ == ArgView::Json(v@),
    {
        Arg::Json(v)
    }
}

impl vstd::std_specs::convert::FromSpecImpl<JsonValue> for Arg {
    open spec fn obeys_from_spec() -> bool {
        true
    }

    open spec fn from_spec(v: JsonValue) -> Arg {
        Arg::Json(v)
    }
}

impl<'a> From<&'a str> for Arg {
    fn from(s: &'a str) -> (arg: Arg)
        ensures
            arg@ == ArgView::String(s@),
    {
        Arg::String(String::from_str(s))
    }
}

/// A string slice is copied into a fresh `String`, so the argument is fixed
/// by its content alone, which the `ensures` of `from` states.
impl<'a> vstd::std_specs::convert::FromSpecImpl<&'a str> for Arg {
    open spec fn obeys_from_spec() -> bool {
        false
    }

    open spec fn from_spec(s: &'a str) -> Arg {
        Arg::Null
    }
}

/// Native values that can be passed as an argument.
pub trait IntoArg: Sized {
    /// The argument this value becomes.
    spec fn arg(self) -> ArgView;

    fn into_arg(self) -> (arg: Arg)
        ensures
            arg@ == self.arg(),
    ;
}

impl IntoArg for i32 {
    open spec fn arg(self) -> ArgView {
        ArgView::Int(self)
    }

    fn into_arg(self) -> (arg: Arg) {
        Arg::Int(self)
    }
}

impl IntoArg for i64 {
    open spec fn arg(self) -> ArgView {
        ArgView::Int64(self)
    }

    fn into_arg(self) -> (arg: Arg) {
        Arg::Int64(self)
    }
}

impl IntoArg for &str {
    open spec fn arg(self) -> ArgView {
        ArgView::String(self@)
    }

    fn into_arg(self) -> (arg: Arg) {
        Arg::String(String::from_str(self))
    }
}

impl IntoArg for String {
    open spec fn arg(self) -> ArgView {
        ArgView::String(self@)
    }

    fn into_arg(self) -> (arg: Arg) {
        Arg::String(self)
    }
}

impl IntoArg for JsonValue {
    open spec fn arg(self) -> ArgView {
        ArgView::Json(self@)
    }

    fn into_arg(self) -> (arg: Arg) {
        Arg::Json(self)
    }
}

/// An absent value is `null`; a present one is passed as its content, never
/// wrapped.
impl<T: IntoArg> IntoArg for Option<T> {
    open spec fn arg(self) -> ArgView {
        match self {
            Some(v) => v.arg(),
            None => ArgView::Null,
        }
    }

    fn into_arg(self) -> (arg: Arg) {
        match self {
            Some(v) => v.into_arg(),
            None => Arg::Null,
        }
    }
}

} // verus!
