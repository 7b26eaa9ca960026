//! The wire codec: requests as JSON arrays, responses as JSON objects.

use crate::error::{outcome, ErrorKind, Outcome, SearpcError};
use crate::json::{json_parse, json_print, lemma_array_view, Json, JsonValue};
use crate::text::decode_text;
use crate::types::{Arg, ArgView};
use vstd::prelude::*;
use vstd::slice::slice_to_vec;
use vstd::utf8::{decode_utf8, encode_utf8, valid_utf8};

verus! {

/// A call: the method's name and its arguments in call order.
#[derive(Debug)]
pub struct RpcRequest {
    pub function_name: String,
    pub args: Vec<Arg>,
}

/// The arguments of a list, each by its content.
pub open spec fn arg_views(args: Seq<Arg>) -> Seq<ArgView> {
    Seq::new(args.len(), |i: int| args[i]@)
}

/// The JSON array `[name, arg0, arg1, ...]` that carries a call.
pub open spec fn request_document(name: Seq<char>, args: Seq<ArgView>) -> Json {
    Json::Array(seq![Json::String(name)] + Seq::new(args.len(), |i: int| args[i].wire()))
}

/// The text of a request: what the JSON writer makes of its array.
pub open spec fn request_text(name: Seq<char>, args: Seq<ArgView>) -> Option<Seq<char>> {
    json_print(request_document(name, args))
}

impl RpcRequest {
    /// A call of `function_name` without arguments.
    pub fn new(function_name: &str) -> (request: RpcRequest)
        ensures
            request.function_name@ == function_name@,
            request.args@.len() == 0,
            request.well_formed() == (function_name@.len() > 0),
    {
        RpcRequest { function_name: String::from_str(function_name), args: Vec::new() }
    }

    /// A call of `function_name` with the given arguments.
    pub fn with_args(function_name: &str, args: Vec<Arg>) -> (request: RpcRequest)
        ensures
            request.function_name@ == function_name@,
            request.args == args,
            request.well_formed() == (function_name@.len() > 0),
    {
        RpcRequest { function_name: String::from_str(function_name), args }
    }

    /// Appends one argument, converted from a native value.
    pub fn add_arg<A: Into<Arg>>(&mut self, arg: A)
        ensures
            final(self).function_name == old(self).function_name,
            final(self).well_formed() == old(self).well_formed(),
            final(self).args@.len() == old(self).args@.len() + 1,
            final(self).args@.drop_last() == old(self).args@,
            call_ensures(<A as Into<Arg>>::into, (arg,), final(self).args@.last()),
    {
        let converted: Arg = arg.into();
        self.args.push(converted);
        assert(self.args@.drop_last() =~= old(self).args@);
    }

    /// Whether the request names a method, as every request on the wire must.
    pub open spec fn well_formed(&self) -> bool {
        self.function_name@.len() > 0
    }

    /// The JSON array that carries this call.
    pub open spec fn document(&self) -> Json {
        request_document(self.function_name@, arg_views(self.args@))
    }

    /// Builds the JSON array `[name, arg0, arg1, ...]`.
    pub fn to_document(&self) -> (doc: JsonValue)
        ensures
            doc@ == self.document(),
    {
        let mut items: Vec<JsonValue> = Vec::new();
        items.push(JsonValue::String(self.function_name.clone()));
        let mut i: usize = 0;
        while i < self.args.len()
            invariant
                i <= self.args.len(),
                items.len() == i + 1,
                items@[0]@ == Json::String(self.function_name@),
                forall|k: int| 0 <= k < i ==> #[trigger] items@[k + 1]@ == self.args@[k]@.wire(),
            decreases self.args.len() - i,
        {
            items.push(self.args[i].to_document());
            i += 1;
        }
        let doc = JsonValue::Array(items);
        proof {
            lemma_array_view(doc);
            let want = self.document()->Array_0;
            assert(doc@->Array_0.len() == want.len());
            assert forall|k: int| 0 <= k < want.len() implies doc@->Array_0[k] == want[k] by {
                if k > 0 {
                    assert(items@[(k - 1) + 1]@ == self.args@[k - 1]@.wire());
                }
            }
            assert(doc@->Array_0 =~= want);
        }
        doc
    }

    /// Serializes the call to JSON text. It fails only where the JSON writer
    /// refuses the array, which takes a raw argument that is not valid JSON.
    pub fn to_json(&self) -> (result: Result<String, SearpcError>)
        ensures
            outcome(result) == match json_print(self.document()) {
                Some(text) => Outcome::Value(text),
                None => Outcome::Failure(ErrorKind::Json),
            },
    {
        let doc = self.to_document();
        match doc.to_text() {
            Some(text) => Ok(text),
            None => Err(SearpcError::JsonError(String::from_str("request is not valid JSON"))),
        }
    }
}

impl Clone for RpcRequest {
    fn clone(&self) -> (copy: RpcRequest)
        ensures
            copy.function_name@ == self.function_name@,
            arg_views(copy.args@) == arg_views(self.args@),
    {
        let mut args: Vec<Arg> = Vec::new();
        let mut i: usize = 0;
        while i < self.args.len()
            invariant
                i <= self.args.len(),
                args.len() == i,
                forall|k: int| 0 <= k < i ==> args@[k]@ == self.args@[k]@,
            decreases self.args.len() - i,
        {
            args.push(self.args[i].clone());
            i += 1;
        }
        assert(arg_views(args@) =~= arg_views(self.args@));
        RpcRequest { function_name: self.function_name.clone(), args }
    }
}

/// The bytes of a request: the UTF-8 encoding of its text.
pub open spec fn request_bytes(name: Seq<char>, args: Seq<ArgView>) -> Option<Seq<u8>> {
    match request_text(name, args) {
        Some(text) => Some(encode_utf8(text)),
        None => None,
    }
}

/// Encodes a call as the bytes handed to a transport.
pub fn encode_request(function_name: &str, args: Vec<Arg>) -> (result: Result<
    Vec<u8>,
    SearpcError,
>)
    ensures
        outcome(result) == match request_bytes(function_name@, arg_views(args@)) {
            Some(bytes) => Outcome::Value(bytes),
            None => Outcome::Failure(ErrorKind::Json),
        },
{
    let request = RpcRequest::with_args(function_name, args);
    match request.to_json() {
        Ok(text) => Ok(slice_to_vec(text.as_str().as_bytes())),
        Err(e) => Err(e),
    }
}

/// A reply of the peer, as its JSON object.
#[derive(Debug)]
pub struct RpcResponse {
    pub ret: Option<JsonValue>,
    pub err_code: Option<i32>,
    pub err_msg: Option<String>,
}

/// The mathematical content of an [`RpcResponse`].
pub struct ResponseView {
    pub ret: Option<Json>,
    pub err_code: Option<i32>,
    pub err_msg: Option<Seq<char>>,
}

/// A member that counts as present: one that is there and is not `null`.
pub open spec fn present(member: Option<Json>) -> Option<Json> {
    match member {
        Some(Json::Null) => None,
        other => other,
    }
}

/// The response that a JSON document stands for, or `None` where it is not a
/// well-formed response: it must be an object whose `err_code`, where present,
/// is a 32-bit integer and whose `err_msg`, where present, is a string. Other
/// members are ignored.
pub open spec fn response_of(doc: Json) -> Option<ResponseView> {
    let code = present(doc.member("err_code"@));
    let msg = present(doc.member("err_msg"@));
    if !(doc is Object) {
        None
    } else if code is Some && code->0.as_i32() is None {
        None
    } else if msg is Some && msg->0.as_str() is None {
        None
    } else {
        Some(
            ResponseView {
                ret: present(doc.member("ret"@)),
                err_code: match code {
                    Some(c) => c.as_i32(),
                    None => None,
                },
                err_msg: match msg {
                    Some(m) => m.as_str(),
                    None => None,
                },
            },
        )
    }
}

/// What a response means for the caller: an error code wins over any result,
/// and a missing result is `null`.
pub open spec fn response_outcome(response: ResponseView) -> Outcome<Json> {
    match response.err_code {
        Some(code) => Outcome::Failure(
            ErrorKind::Remote {
                code: code as int,
                message: match response.err_msg {
                    Some(m) => m,
                    None => "Unknown error"@,
                },
            },
        ),
        None => Outcome::Value(
            match response.ret {
                Some(v) => v,
                None => Json::Null,
            },
        ),
    }
}

/// What a parsed reply means for the caller.
pub open spec fn document_outcome(doc: Json) -> Outcome<Json> {
    match response_of(doc) {
        Some(response) => response_outcome(response),
        None => Outcome::Failure(ErrorKind::InvalidResponse),
    }
}

/// What a reply text means for the caller.
pub open spec fn text_outcome(text: Seq<char>) -> Outcome<Json> {
    match json_parse(text) {
        Some(doc) => document_outcome(doc),
        None => Outcome::Failure(ErrorKind::InvalidResponse),
    }
}

/// What the bytes of a reply mean for the caller.
pub open spec fn reply_outcome(bytes: Seq<u8>) -> Outcome<Json> {
    if valid_utf8(bytes) {
        text_outcome(decode_utf8(bytes))
    } else {
        Outcome::Failure(ErrorKind::InvalidResponse)
    }
}

impl View for RpcResponse {
    type V = ResponseView;

    open spec fn view(&self) -> ResponseView {
        ResponseView {
            ret: match self.ret {
                Some(v) => Some(v@),
                None => None,
            },
            err_code: self.err_code,
            err_msg: match self.err_msg {
                Some(m) => Some(m@),
                None => None,
            },
        }
    }
}

impl Clone for RpcResponse {
    fn clone(&self) -> (copy: RpcResponse)
        ensures
            copy@ == self@,
    {
        RpcResponse {
            ret: match &self.ret {
                Some(v) => Some(v.duplicate()),
                None => None,
            },
            err_code: self.err_code,
            err_msg: match &self.err_msg {
                Some(m) => Some(m.clone()),
                None => None,
            },
        }
    }
}

/// The invalid-response error that carries `reason` as its message.
fn invalid_response(reason: &str) -> (error: SearpcError)
    ensures
        error matches SearpcError::InvalidResponse(message) && message@ == reason@,
        error.kind() == ErrorKind::InvalidResponse,
{
    SearpcError::InvalidResponse(String::from_str(reason))
}

impl RpcResponse {
    /// Reads a response out of a parsed document, see [`response_of`].
    pub fn from_document(doc: &JsonValue) -> (result: Result<RpcResponse, SearpcError>)
        ensures
            outcome(result) == match response_of(doc@) {
                Some(response) => Outcome::Value(response),
                None => Outcome::Failure(ErrorKind::InvalidResponse),
            },
    {
        if !doc.is_object() {
            return Err(invalid_response("response is not a JSON object"));
        }
        let err_code = match doc.get("err_code") {
            None => None,
            Some(code) => {
                if code.is_null() {
                    None
                } else {
                    match code.as_i64() {
                        Some(n) => {
                            if n < -2147483648 || n > 2147483647 {
                                return Err(invalid_response("err_code is out of range"));
                            }
                            Some(n as i32)
                        },
                        None => {
                            return Err(invalid_response("err_code is not an integer"));
                        },
                    }
                }
            },
        };
        let err_msg = match doc.get("err_msg") {
            None => None,
            Some(msg) => {
                if msg.is_null() {
                    None
                } else {
                    match msg.as_str() {
                        Some(text) => Some(String::from_str(text)),
                        None => {
                            return Err(invalid_response("err_msg is not a string"));
                        },
                    }
                }
            },
        };
        let ret = match doc.get("ret") {
            None => None,
            Some(value) => {
                if value.is_null() {
                    None
                } else {
                    Some(value.duplicate())
                }
            },
        };
        Ok(RpcResponse { ret, err_code, err_msg })
    }

    /// Parses a response from JSON text.
    pub fn from_json(json: &str) -> (result: Result<RpcResponse, SearpcError>)
        ensures
            outcome(result) == match json_parse(json@) {
                Some(doc) => match response_of(doc) {
                    Some(response) => Outcome::Value(response),
                    None => Outcome::Failure(ErrorKind::InvalidResponse),
                },
                None => Outcome::Failure(ErrorKind::InvalidResponse),
            },
    {
        match JsonValue::parse(json) {
            Some(doc) => RpcResponse::from_document(&doc),
            None => Err(invalid_response("response is not valid JSON")),
        }
    }

    /// Turns the response into the call's result, see [`response_outcome`].
    pub fn into_result(self) -> (result: Result<JsonValue, SearpcError>)
        ensures
            outcome(result) == response_outcome(self@),
    {
        match self.err_code {
            Some(code) => {
                let message = match self.err_msg {
                    Some(m) => m,
                    None => String::from_str("Unknown error"),
                };
                Err(SearpcError::RpcError { code, message })
            },
            None => match self.ret {
                Some(v) => Ok(v),
                None => Ok(JsonValue::Null),
            },
        }
    }
}

/// Decodes the bytes of a reply into the call's result: the returned JSON
/// value, the peer's error, or an invalid-response error where the bytes are
/// not UTF-8 or not a well-formed response object.
pub fn decode_response(bytes: &[u8]) -> (result: Result<JsonValue, SearpcError>)
    ensures
        outcome(result) == reply_outcome(bytes@),
{
    match decode_text(bytes) {
        None => Err(invalid_response("response is not valid UTF-8")),
        Some(text) => {
            match RpcResponse::from_json(text) {
                Ok(response) => response.into_result(),
                Err(e) => Err(e),
            }
        },
    }
}

/// A response with an error code is a failure with that code and message,
/// whatever its result holds.
pub proof fn lemma_error_code_wins(response: ResponseView)
    requires
        response.err_code is Some,
    ensures
        response_outcome(response) is Failure,
        response_outcome(response)->Failure_0 matches ErrorKind::Remote { code, message }
            && code == response.err_code->0 && (response.err_msg matches Some(m) ==> message
            == m),
{
}

/// A response with neither a result nor an error code is a success whose
/// value is `null`.
pub proof fn lemma_empty_response_is_null(response: ResponseView)
    requires
        response.err_code is None,
        response.ret is None,
    ensures
        response_outcome(response) == Outcome::Value(Json::Null),
{
}

/// A reply object without members is a well-formed response, and so is one
/// whose only member is a `null` result.
pub proof fn lemma_empty_object_is_null(doc: Json)
    requires
        doc is Object,
        doc.member("err_code"@) is None,
        doc.member("err_msg"@) is None,
        present(doc.member("ret"@)) is None,
    ensures
        document_outcome(doc) == Outcome::Value(Json::Null),
{
}

} // verus!
