//! Return shapes: how the declared return type of a method selects the call
//! primitive and the decoding of its reply.

use crate::client::{one_round_trip, raw_outcome, SearpcClient};
use crate::dispatch::{
    and_then, expect_int, expect_int64, expect_object, expect_objlist, expect_string,
    int64_outcome, int_outcome, object_outcome, objlist_outcome, string_outcome,
};
use crate::error::{ErrorKind, Outcome, SearpcError};
use crate::json::{contents, Json, JsonValue};
use crate::protocol::{arg_views, response_outcome, ResponseView};
use crate::transport::Transport;
use crate::types::Arg;
use vstd::prelude::*;

verus! {

/// A type as a signature writes it, as far as the binding rules read it.
#[derive(Debug)]
pub enum TypeExpr {
    /// A path type: the name of its last segment and that segment's generic
    /// arguments, in order.
    Path { name: String, args: Vec<TypeExpr> },
    /// A type that is not a path, such as a reference or a tuple, as written.
    Other(String),
    /// A generic argument that is not a type, such as a lifetime, as written.
    NonType(String),
}

/// The structure of a declared return type.
#[derive(Debug, PartialEq, Eq)]
pub enum Shape {
    /// A signed 32-bit integer.
    Int32,
    /// A signed 64-bit integer.
    Int64,
    /// A truth value, carried as a 32-bit integer that is not zero.
    Flag,
    /// A UTF-8 string.
    Text,
    /// A value that may be absent.
    Optional(Box<Shape>),
    /// A list of values.
    Sequence(Box<Shape>),
    /// Anything else: one structured document.
    Structured,
}

/// The call primitives, one for each kind of reply.
#[derive(Debug, Clone, Copy, PartialEq, Eq)]
pub enum CallKind {
    Int,
    Int64,
    String,
    Object,
    ObjList,
    Json,
}

impl TypeExpr {
    /// Whether this is a path type whose last segment is `name`.
    pub open spec fn is_named(&self, name: Seq<char>) -> bool {
        match self {
            TypeExpr::Path { name: n, .. } => n@ == name,
            _ => false,
        }
    }

    /// Whether this is a path type whose last segment has a type as its first
    /// generic argument.
    pub open spec fn has_type_arg(&self) -> bool {
        match self {
            TypeExpr::Path { args, .. } => args@.len() > 0 && !(args@[0] is NonType),
            _ => false,
        }
    }

    /// The first generic argument of a path type.
    pub open spec fn type_arg(&self) -> TypeExpr
        recommends
            self.has_type_arg(),
    {
        self->args@[0]
    }

    /// The shape of this type: the four primitives by name, then `Option` and
    /// `Vec` of a type, and everything else as one structured document.
    pub open spec fn shape(&self) -> Shape
        decreases self,
    {
        if self.is_named("String"@) {
            Shape::Text
        } else if self.is_named("i32"@) {
            Shape::Int32
        } else if self.is_named("i64"@) {
            Shape::Int64
        } else if self.is_named("bool"@) {
            Shape::Flag
        } else if self.is_named("Option"@) && self.has_type_arg() {
            Shape::Optional(Box::new(self.type_arg().shape()))
        } else if self.is_named("Vec"@) && self.has_type_arg() {
            Shape::Sequence(Box::new(self.type_arg().shape()))
        } else {
            Shape::Structured
        }
    }
}

impl Shape {
    /// The call primitive that fetches a reply of this shape. An optional
    /// structured value comes through the object primitive, for which `null`
    /// is "no object"; any other optional value comes through the primitive
    /// for arbitrary JSON, so that a present value can be of any kind.
    pub open spec fn call_kind(&self) -> CallKind {
        match self {
            Shape::Int32 => CallKind::Int,
            Shape::Int64 => CallKind::Int64,
            Shape::Flag => CallKind::Int,
            Shape::Text => CallKind::String,
            Shape::Optional(inner) => if **inner is Structured {
                CallKind::Object
            } else {
                CallKind::Json
            },
            Shape::Sequence(_) => CallKind::ObjList,
            Shape::Structured => CallKind::Object,
        }
    }

    /// The call primitive that fetches a reply of this shape.
    pub fn select_call(&self) -> (kind: CallKind)
        ensures
            kind == self.call_kind(),
    {
        match self {
            Shape::Int32 => CallKind::Int,
            Shape::Int64 => CallKind::Int64,
            Shape::Flag => CallKind::Int,
            Shape::Text => CallKind::String,
            Shape::Optional(inner) => match **inner {
                Shape::Structured => CallKind::Object,
                _ => CallKind::Json,
            },
            Shape::Sequence(_) => CallKind::ObjList,
            Shape::Structured => CallKind::Object,
        }
    }
}

/// Whether `text` is exactly `literal`.
pub fn text_is(text: &String, literal: &str) -> (same: bool)
    ensures
        same == (text@ == literal@),
{
    let wanted = String::from_str(literal);
    *text == wanted
}

/// Whether `ty` is a path type whose last segment is `name`.
pub fn is_type(ty: &TypeExpr, name: &str) -> (b: bool)
    ensures
        b == ty.is_named(name@),
{
    match ty {
        TypeExpr::Path { name: n, .. } => text_is(n, name),
        _ => false,
    }
}

/// The first generic argument of `ty`, where that is a type.
pub fn first_type_arg(ty: &TypeExpr) -> (arg: Option<&TypeExpr>)
    ensures
        match arg {
            Some(inner) => ty.has_type_arg() && *inner == ty.type_arg(),
            None => !ty.has_type_arg(),
        },
{
    match ty {
        TypeExpr::Path { args, .. } => {
            if args.len() == 0 {
                None
            } else {
                match &args[0] {
                    TypeExpr::NonType(_) => None,
                    _ => Some(&args[0]),
                }
            }
        },
        _ => None,
    }
}

/// Classifies a declared return type, see [`TypeExpr::shape`].
pub fn match_return_type(ty: &TypeExpr) -> (shape: Shape)
    ensures
        shape == ty.shape(),
    decreases ty,
{
    if is_type(ty, "String") {
        return Shape::Text;
    }
    if is_type(ty, "i32") {
        return Shape::Int32;
    }
    if is_type(ty, "i64") {
        return Shape::Int64;
    }
    if is_type(ty, "bool") {
        return Shape::Flag;
    }
    if is_type(ty, "Option") {
        if let Some(inner) = first_type_arg(ty) {
            assert(decreases_to!(ty => ty->args));
            return Shape::Optional(Box::new(match_return_type(inner)));
        }
    }
    if is_type(ty, "Vec") {
        if let Some(inner) = first_type_arg(ty) {
            assert(decreases_to!(ty => ty->args));
            return Shape::Sequence(Box::new(match_return_type(inner)));
        }
    }
    Shape::Structured
}

/// The reply of a call, decoded as far as its shape says. Documents are left
/// for the caller's own types to read.
#[derive(Debug)]
pub enum Reply {
    Int(i32),
    Int64(i64),
    Flag(bool),
    Text(String),
    /// No value.
    Absent,
    /// A value, as its document.
    Present(JsonValue),
    /// A list, each element as its document.
    List(Vec<JsonValue>),
    /// One structured document.
    Document(JsonValue),
}

/// The mathematical content of a [`Reply`].
pub enum ReplyView {
    Int(i32),
    Int64(i64),
    Flag(bool),
    Text(Seq<char>),
    Absent,
    Present(Json),
    List(Seq<Json>),
    Document(Json),
}

impl View for Reply {
    type V = ReplyView;

    open spec fn view(&self) -> ReplyView {
        match self {
            Reply::Int(n) => ReplyView::Int(*n),
            Reply::Int64(n) => ReplyView::Int64(*n),
            Reply::Flag(b) => ReplyView::Flag(*b),
            Reply::Text(s) => ReplyView::Text(s@),
            Reply::Absent => ReplyView::Absent,
            Reply::Present(doc) => ReplyView::Present(doc@),
            Reply::List(docs) => ReplyView::List(contents(docs@)),
            Reply::Document(doc) => ReplyView::Document(doc@),
        }
    }
}

/// The outcome that a reply result stands for.
pub open spec fn reply_result(result: Result<Reply, SearpcError>) -> Outcome<ReplyView> {
    match result {
        Ok(reply) => Outcome::Value(reply@),
        Err(error) => Outcome::Failure(error.kind()),
    }
}

/// An optional outcome: absent for `null`, present with its document
/// otherwise.
pub open spec fn absent_or_present(value: Json) -> Outcome<ReplyView> {
    if value is Null {
        Outcome::Value(ReplyView::Absent)
    } else {
        Outcome::Value(ReplyView::Present(value))
    }
}

/// What a returned value means under a shape: it is narrowed as the shape's
/// call primitive narrows it, and then a flag is the integer's being not zero,
/// an optional value is absent for `null` and present otherwise, a list is its
/// elements, and a structured value is its document.
pub open spec fn shaped_outcome(shape: Shape, value: Json) -> Outcome<ReplyView> {
    match shape {
        Shape::Int32 => and_then(int_outcome(value), |n: i32| Outcome::Value(ReplyView::Int(n))),
        Shape::Int64 => and_then(
            int64_outcome(value),
            |n: i64| Outcome::Value(ReplyView::Int64(n)),
        ),
        Shape::Flag => and_then(
            int_outcome(value),
            |n: i32| Outcome::Value(ReplyView::Flag(n != 0)),
        ),
        Shape::Text => and_then(
            string_outcome(value),
            |s: Seq<char>| Outcome::Value(ReplyView::Text(s)),
        ),
        Shape::Optional(inner) => if *inner is Structured {
            and_then(object_outcome(value), |v: Json| absent_or_present(v))
        } else {
            absent_or_present(value)
        },
        Shape::Sequence(_) => and_then(
            objlist_outcome(value),
            |items: Seq<Json>| Outcome::Value(ReplyView::List(items)),
        ),
        Shape::Structured => and_then(
            object_outcome(value),
            |v: Json| Outcome::Value(ReplyView::Document(v)),
        ),
    }
}

/// An optional reply: absent for `null`, present with its document otherwise.
pub fn present(value: JsonValue) -> (reply: Reply)
    ensures
        Outcome::Value(reply@) == absent_or_present(value@),
{
    if value.is_null() {
        Reply::Absent
    } else {
        Reply::Present(value)
    }
}

/// Decodes a returned value under a shape, see [`shaped_outcome`].
pub fn decode_reply(shape: &Shape, value: JsonValue) -> (result: Result<Reply, SearpcError>)
    ensures
        reply_result(result) == shaped_outcome(*shape, value@),
{
    match shape {
        Shape::Int32 => match expect_int(&value) {
            Ok(n) => Ok(Reply::Int(n)),
            Err(e) => Err(e),
        },
        Shape::Int64 => match expect_int64(&value) {
            Ok(n) => Ok(Reply::Int64(n)),
            Err(e) => Err(e),
        },
        Shape::Flag => match expect_int(&value) {
            Ok(n) => Ok(Reply::Flag(n != 0)),
            Err(e) => Err(e),
        },
        Shape::Text => match expect_string(&value) {
            Ok(s) => Ok(Reply::Text(s)),
            Err(e) => Err(e),
        },
        Shape::Optional(inner) => {
            let checked = match **inner {
                Shape::Structured => expect_object(value),
                _ => Ok(value),
            };
            match checked {
                Ok(v) => Ok(present(v)),
                Err(e) => Err(e),
            }
        },
        Shape::Sequence(_) => match expect_objlist(value) {
            Ok(items) => Ok(Reply::List(items)),
            Err(e) => Err(e),
        },
        Shape::Structured => match expect_object(value) {
            Ok(v) => Ok(Reply::Document(v)),
            Err(e) => Err(e),
        },
    }
}

/// Makes the call of a bound method: one round trip under the method's wire
/// name, through the call primitive of its shape, and the reply decoded under
/// that shape.
pub fn invoke<T: Transport>(
    client: &mut SearpcClient<T>,
    wire_name: &str,
    shape: &Shape,
    args: Vec<Arg>,
) -> (result: Result<Reply, SearpcError>)
    ensures
        one_round_trip(
            old(client).history(),
            final(client).history(),
            wire_name@,
            arg_views(args@),
        ),
        reply_result(result) == and_then(
            raw_outcome(final(client).history(), wire_name@, arg_views(args@)),
            |v: Json| shaped_outcome(*shape, v),
        ),
{
    match shape.select_call() {
        CallKind::Int => match client.call_int(wire_name, args) {
            Ok(n) => match shape {
                Shape::Flag => Ok(Reply::Flag(n != 0)),
                _ => Ok(Reply::Int(n)),
            },
            Err(e) => Err(e),
        },
        CallKind::Int64 => match client.call_int64(wire_name, args) {
            Ok(n) => Ok(Reply::Int64(n)),
            Err(e) => Err(e),
        },
        CallKind::String => match client.call_string(wire_name, args) {
            Ok(s) => Ok(Reply::Text(s)),
            Err(e) => Err(e),
        },
        CallKind::ObjList => match client.call_objlist(wire_name, args) {
            Ok(items) => Ok(Reply::List(items)),
            Err(e) => Err(e),
        },
        CallKind::Object => match client.call_object(wire_name, args) {
            Ok(v) => match shape {
                Shape::Optional(_) => Ok(present(v)),
                _ => Ok(Reply::Document(v)),
            },
            Err(e) => Err(e),
        },
        CallKind::Json => match client.call_json(wire_name, args) {
            Ok(v) => Ok(present(v)),
            Err(e) => Err(e),
        },
    }
}

/// For every optional shape: a `null` reply is "no value", and a reply that
/// is not `null` is "value present" with that reply as the value's document.
/// Only where the value is structured must the reply be an object, and any
/// other reply is a type error.
pub proof fn lemma_optional_reply(shape: Shape, value: Json)
    requires
        shape is Optional,
    ensures
        value is Null ==> shaped_outcome(shape, value) == Outcome::Value(ReplyView::Absent),
        !(value is Null) && (value is Object || !(*shape->Optional_0 is Structured))
            ==> shaped_outcome(shape, value) == Outcome::Value(ReplyView::Present(value)),
        !(value is Null) && !(value is Object) && *shape->Optional_0 is Structured
            ==> shaped_outcome(shape, value) == Outcome::<ReplyView>::Failure(ErrorKind::Type),
{
}

/// For every sequence shape, a `null` reply is the empty list.
pub proof fn lemma_null_list_is_empty(shape: Shape)
    requires
        shape is Sequence,
    ensures
        shaped_outcome(shape, Json::Null) == Outcome::Value(ReplyView::List(Seq::empty())),
{
}

/// A response with an error code fails the method with that code and the
/// response's message, whatever shape the method's return type has and
/// whatever the response holds as its result.
pub proof fn lemma_remote_error_whatever_the_shape(shape: Shape, response: ResponseView)
    requires
        response.err_code is Some,
    ensures
        and_then(response_outcome(response), |v: Json| shaped_outcome(shape, v))
            == Outcome::<ReplyView>::Failure(
            ErrorKind::Remote {
                code: response.err_code->0 as int,
                message: match response.err_msg {
                    Some(m) => m,
                    None => "Unknown error"@,
                },
            },
        ),
{
}

} // verus!
