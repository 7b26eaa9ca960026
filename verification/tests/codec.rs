use searpc::json::JsonValue;
use searpc::protocol::{decode_response, encode_request, RpcRequest, RpcResponse};
use searpc::types::{Arg, IntoArg};
use searpc::SearpcError;

fn args_json(args: &[Arg]) -> String {
    let items: Vec<JsonValue> = args.iter().map(|a| a.to_document()).collect();
    JsonValue::Array(items).to_text().unwrap()
}

#[test]
fn test_arg_creation() {
    let a1: Arg = 42.into();
    let a2: Arg = "hello".into();
    let a3 = Arg::int64(1234567890);
    assert!(matches!(a1, Arg::Int(42)));
    assert!(matches!(a2, Arg::String(ref s) if s == "hello"));
    assert!(matches!(a3, Arg::Int64(1234567890)));
}

#[test]
fn test_arg_serialization() {
    let args = vec![Arg::int32(42), Arg::string("test"), Arg::int64(9999)];
    let json = args_json(&args);
    assert_eq!(json, r#"[42,"test",9999]"#);
}

#[test]
fn test_arg_null() {
    let args = vec![Arg::int32(42), Arg::null(), Arg::string("test")];
    let json = args_json(&args);
    assert_eq!(json, r#"[42,null,"test"]"#);
}

#[test]
fn test_request_serialization() {
    let mut req = RpcRequest::new("get_substring");
    req.add_arg("hello");
    req.add_arg(2);

    let json = req.to_json().unwrap();
    assert_eq!(json, r#"["get_substring","hello",2]"#);
}

#[test]
fn test_response_success() {
    let json = r#"{"ret": 42}"#;
    let resp = RpcResponse::from_json(json).unwrap();
    let value = resp.into_result().unwrap();
    assert_eq!(value.as_i64(), Some(42));
}

#[test]
fn test_response_error() {
    let json = r#"{"err_code": 500, "err_msg": "Test error"}"#;
    let resp = RpcResponse::from_json(json).unwrap();
    let err = resp.into_result().unwrap_err();

    match err {
        SearpcError::RpcError { code, message } => {
            assert_eq!(code, 500);
            assert_eq!(message, "Test error");
        }
        _ => panic!("Wrong error type"),
    }
}

#[test]
fn test_response_with_string() {
    let json = r#"{"ret": "hello world"}"#;
    let resp = RpcResponse::from_json(json).unwrap();
    let value = resp.into_result().unwrap();
    assert_eq!(value.as_str(), Some("hello world"));
}

#[test]
fn encode_request_without_arguments() {
    let bytes = encode_request("f", vec![]).unwrap();
    assert_eq!(bytes, br#"["f"]"#.to_vec());
}

#[test]
fn encode_request_with_arguments() {
    let bytes = encode_request("get_substring", vec!["hello".into(), 2.into()]).unwrap();
    assert_eq!(bytes, br#"["get_substring","hello",2]"#.to_vec());
}

#[test]
fn encode_request_passes_raw_json_unwrapped() {
    let raw = JsonValue::parse(r#"{"a":[1,2.5,true,null]}"#).unwrap();
    let bytes = encode_request("f", vec![Arg::json(raw), Arg::null()]).unwrap();
    assert_eq!(bytes, br#"["f",{"a":[1,2.5,true,null]},null]"#.to_vec());
}

#[test]
fn encode_request_fails_on_malformed_raw_json() {
    let bad = JsonValue::Number("not a number".to_string());
    let err = encode_request("f", vec![Arg::json(bad)]).unwrap_err();
    assert!(matches!(err, SearpcError::JsonError(_)));
}

#[test]
fn optional_argument_is_null_or_its_content() {
    let none: Option<&str> = None;
    assert!(matches!(none.into_arg(), Arg::Null));
    assert!(matches!(Some("pw").into_arg(), Arg::String(ref s) if s == "pw"));
    assert!(matches!(Some(7i32).into_arg(), Arg::Int(7)));
    assert!(matches!(5i64.into_arg(), Arg::Int64(5)));
    assert!(matches!("x".to_string().into_arg(), Arg::String(ref s) if s == "x"));
    assert!(matches!(JsonValue::Bool(true).into_arg(), Arg::Json(JsonValue::Bool(true))));
}

#[test]
fn response_without_ret_or_error_is_null() {
    let value = decode_response(b"{}").unwrap();
    assert!(value.is_null());
    let value = decode_response(br#"{"ret": null}"#).unwrap();
    assert!(value.is_null());
}

#[test]
fn error_code_wins_over_result() {
    let err = decode_response(br#"{"ret": 1, "err_code": 7}"#).unwrap_err();
    match err {
        SearpcError::RpcError { code, message } => {
            assert_eq!(code, 7);
            assert_eq!(message, "Unknown error");
        }
        _ => panic!("Wrong error type"),
    }
}

#[test]
fn null_error_code_is_no_error() {
    let value = decode_response(br#"{"ret": 3, "err_code": null, "err_msg": null}"#).unwrap();
    assert_eq!(value.as_i64(), Some(3));
}

#[test]
fn malformed_replies_are_invalid_responses() {
    let cases: Vec<&[u8]> = vec![
        b"\xff\xfe",
        b"not json",
        b"[1,2,3]",
        b"42",
        br#"{"err_code": "x"}"#,
        br#"{"err_code": 1.5}"#,
        br#"{"err_code": 2147483648}"#,
        br#"{"err_code": 1, "err_msg": 5}"#,
        br#"{"ret": 1} trailing"#,
    ];
    for bytes in cases {
        let err = decode_response(bytes).unwrap_err();
        assert!(matches!(err, SearpcError::InvalidResponse(_)), "{:?}", bytes);
    }
}

#[test]
fn extreme_error_codes_are_kept() {
    let err = decode_response(br#"{"err_code": -2147483648, "err_msg": "low"}"#).unwrap_err();
    assert!(matches!(err, SearpcError::RpcError { code: -2147483648, .. }));
    let err = decode_response(br#"{"err_code": 2147483647, "err_msg": "high"}"#).unwrap_err();
    assert!(matches!(err, SearpcError::RpcError { code: 2147483647, .. }));
}

#[test]
fn parse_keeps_numbers_apart() {
    assert!(matches!(JsonValue::parse("5"), Some(JsonValue::Int(5))));
    assert!(matches!(JsonValue::parse("-9223372036854775808"), Some(JsonValue::Int(i64::MIN))));
    assert!(matches!(JsonValue::parse("1.5"), Some(JsonValue::Number(ref t)) if t == "1.5"));
    assert!(
        matches!(JsonValue::parse("18446744073709551615"), Some(JsonValue::Number(ref t)) if t == "18446744073709551615")
    );
    assert!(JsonValue::parse("{").is_none());
}

#[test]
fn parse_and_print_are_inverse_on_documents() {
    let text = r#"{"a":[1,"two",null,false,{"b":-3}],"c":2.5}"#;
    let doc = JsonValue::parse(text).unwrap();
    assert_eq!(doc.to_text().unwrap(), text);
    assert_eq!(doc.duplicate().to_text().unwrap(), text);
    assert_eq!(doc.get("c").and_then(|v| v.to_text()), Some("2.5".to_string()));
    assert!(doc.get("missing").is_none());
    assert_eq!(doc.get("a").and_then(|a| a.as_array()).map(|a| a.len()), Some(5));
}

#[test]
fn later_member_replaces_earlier() {
    let doc = JsonValue::Object(vec![
        searpc::Member { key: "k".to_string(), value: JsonValue::Int(1) },
        searpc::Member { key: "k".to_string(), value: JsonValue::Int(2) },
    ]);
    assert_eq!(doc.get("k").and_then(|v| v.as_i64()), Some(2));
    assert_eq!(doc.to_text().unwrap(), r#"{"k":2}"#);
}

#[test]
fn copies_are_equal_in_content() {
    let doc = JsonValue::parse(r#"{"a":[1,{"b":"c"}],"d":null}"#).unwrap();
    assert_eq!(doc.clone().to_text(), doc.to_text());
    let mut request = RpcRequest::with_args("f", vec![Arg::json(doc), Arg::int32(3)]);
    request.add_arg("tail".to_string());
    request.add_arg(7i64);
    let copy = request.clone();
    assert_eq!(copy.function_name, "f");
    assert_eq!(copy.to_json().unwrap(), request.to_json().unwrap());
    assert_eq!(copy.to_json().unwrap(), r#"["f",{"a":[1,{"b":"c"}],"d":null},3,"tail",7]"#);
    let response = RpcResponse::from_json(r#"{"ret": [1], "err_code": 3, "err_msg": "m"}"#).unwrap();
    let copy = response.clone();
    assert_eq!(copy.err_code, Some(3));
    assert_eq!(copy.err_msg.as_deref(), Some("m"));
    assert_eq!(copy.ret.and_then(|v| v.to_text()), Some("[1]".to_string()));
    assert!(matches!(Arg::string("s").clone(), Arg::String(ref s) if s == "s"));
}
