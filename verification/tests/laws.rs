use searpc::dispatch::{expect_int, expect_int64, expect_object, expect_objlist, expect_string};
use searpc::protocol::{decode_response, encode_request};
use searpc::{Arg, IntoArg, JsonValue, SearpcError};

// A request whose single argument is `arg`, sent to a peer that answers with
// that argument as its result.
fn echoed(arg: Arg) -> JsonValue {
    let request = encode_request("echo", vec![arg]).unwrap();
    let text = String::from_utf8(request).unwrap();
    let sent = JsonValue::parse(&text).unwrap();
    let items = sent.as_array().unwrap();
    assert_eq!(items.len(), 2);
    assert_eq!(items[0].as_str(), Some("echo"));
    let reply = format!("{{\"ret\": {}}}", items[1].to_text().unwrap());
    decode_response(reply.as_bytes()).unwrap()
}

#[test]
fn int32_round_trip() {
    for n in [0i32, 1, -1, 42, i32::MIN, i32::MAX] {
        assert_eq!(expect_int(&echoed(n.into_arg())).unwrap(), n);
    }
}

#[test]
fn int64_round_trip() {
    for n in [0i64, -1, 2147483648, i64::MIN, i64::MAX] {
        assert_eq!(expect_int64(&echoed(n.into_arg())).unwrap(), n);
    }
}

#[test]
fn string_round_trip() {
    for s in ["", "hello", "quote \" backslash \\ newline \n tab \t", "snow \u{2603} and \u{1F600}", "\u{0}\u{1f}"] {
        assert_eq!(expect_string(&echoed(s.into_arg())).unwrap(), s);
        assert_eq!(expect_string(&echoed(s.to_string().into_arg())).unwrap(), s);
    }
}

#[test]
fn raw_json_round_trip_is_json_equal() {
    let text = r#"{"a":[1,2.5,"x",null,true],"b":{"c":-3}}"#;
    let raw = JsonValue::parse(text).unwrap();
    let back = echoed(Arg::json(raw));
    assert_eq!(back.to_text().unwrap(), text);
}

#[test]
fn null_round_trip() {
    assert!(echoed(Arg::null()).is_null());
    let none: Option<i32> = None;
    assert!(expect_object(echoed(none.into_arg())).unwrap().is_null());
    assert!(expect_objlist(echoed(Arg::null())).unwrap().is_empty());
}

#[test]
fn no_widening_across_shapes() {
    assert!(matches!(expect_int(&echoed(Arg::int64(1 << 40))), Err(SearpcError::TypeError(_))));
    assert!(matches!(expect_string(&echoed(Arg::int32(1))), Err(SearpcError::TypeError(_))));
    assert!(matches!(expect_int(&echoed(Arg::string("1"))), Err(SearpcError::TypeError(_))));
}
