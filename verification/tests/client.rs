use searpc::async_client::AsyncSearpcClient;
use searpc::async_transport::AsyncTransport;
use searpc::{Arg, JsonValue, SearpcClient, SearpcError, Transport};

type Reply = Result<Vec<u8>, SearpcError>;

fn mock_transport(expected_req: &str, response: &str) -> impl FnMut(&[u8]) -> Reply {
    let expected = expected_req.to_string();
    let resp = response.to_string();

    move |req: &[u8]| -> Reply {
        let req_str = std::str::from_utf8(req).unwrap();
        assert_eq!(req_str, expected);
        Ok(resp.as_bytes().to_vec())
    }
}

#[test]
fn test_function_transport() {
    let mut transport = |req: &[u8]| -> Reply {
        // Echo transport
        Ok(req.to_vec())
    };

    let result = transport.send(b"test").unwrap();
    assert_eq!(result, b"test");
}

#[test]
fn test_call_int() {
    let transport = mock_transport(r#"["searpc_strlen","hello"]"#, r#"{"ret": 5}"#);

    let mut client = SearpcClient::new(transport);
    let result = client.call_int("searpc_strlen", vec!["hello".into()]).unwrap();
    assert_eq!(result, 5);
}

#[test]
fn test_call_string() {
    let transport = mock_transport(r#"["get_version"]"#, r#"{"ret": "1.0.0"}"#);

    let mut client = SearpcClient::new(transport);
    let result = client.call_string("get_version", vec![]).unwrap();
    assert_eq!(result, "1.0.0");
}

#[test]
fn test_call_error() {
    let transport = mock_transport(
        r#"["bad_func"]"#,
        r#"{"err_code": 404, "err_msg": "Function not found"}"#,
    );

    let mut client = SearpcClient::new(transport);
    let result = client.call_int("bad_func", vec![]);

    match result {
        Err(SearpcError::RpcError { code, message }) => {
            assert_eq!(code, 404);
            assert_eq!(message, "Function not found");
        }
        _ => panic!("Expected RpcError"),
    }
}

fn answering(response: &'static str) -> impl FnMut(&[u8]) -> Reply {
    move |_req: &[u8]| -> Reply { Ok(response.as_bytes().to_vec()) }
}

#[test]
fn int_and_string_expectations() {
    let mut client = SearpcClient::new(answering(r#"{"ret": 42}"#));
    assert_eq!(client.call_int("f", vec![]).unwrap(), 42);
    assert_eq!(client.call_int64("f", vec![]).unwrap(), 42);
    assert!(matches!(client.call_string("f", vec![]), Err(SearpcError::TypeError(_))));

    let mut client = SearpcClient::new(answering(r#"{"ret": "hello world"}"#));
    assert_eq!(client.call_string("f", vec![]).unwrap(), "hello world");
    assert!(matches!(client.call_int("f", vec![]), Err(SearpcError::TypeError(_))));
    assert!(matches!(client.call_int64("f", vec![]), Err(SearpcError::TypeError(_))));
}

#[test]
fn remote_error_whatever_the_shape() {
    let reply = r#"{"err_code": 404, "err_msg": "Function not found"}"#;
    let mut client = SearpcClient::new(answering(reply));
    let is_remote = |e: &SearpcError| {
        matches!(e, SearpcError::RpcError { code: 404, message } if message == "Function not found")
    };
    assert!(is_remote(&client.call("f", vec![]).unwrap_err()));
    assert!(is_remote(&client.call_int("f", vec![]).unwrap_err()));
    assert!(is_remote(&client.call_int64("f", vec![]).unwrap_err()));
    assert!(is_remote(&client.call_string("f", vec![]).unwrap_err()));
    assert!(is_remote(&client.call_object("f", vec![]).unwrap_err()));
    assert!(is_remote(&client.call_objlist("f", vec![]).unwrap_err()));
    assert!(is_remote(&client.call_json("f", vec![]).unwrap_err()));
}

#[test]
fn int_is_not_truncated() {
    let mut client = SearpcClient::new(answering(r#"{"ret": 2147483648}"#));
    assert!(matches!(client.call_int("f", vec![]), Err(SearpcError::TypeError(_))));
    assert_eq!(client.call_int64("f", vec![]).unwrap(), 2147483648);

    let mut client = SearpcClient::new(answering(r#"{"ret": -2147483648}"#));
    assert_eq!(client.call_int("f", vec![]).unwrap(), i32::MIN);
    let mut client = SearpcClient::new(answering(r#"{"ret": 2147483647}"#));
    assert_eq!(client.call_int("f", vec![]).unwrap(), i32::MAX);
    let mut client = SearpcClient::new(answering(r#"{"ret": 9223372036854775808}"#));
    assert!(matches!(client.call_int64("f", vec![]), Err(SearpcError::TypeError(_))));
    let mut client = SearpcClient::new(answering(r#"{"ret": 1.0}"#));
    assert!(matches!(client.call_int("f", vec![]), Err(SearpcError::TypeError(_))));
}

#[test]
fn object_may_be_null() {
    let mut client = SearpcClient::new(answering(r#"{"ret": null}"#));
    assert!(client.call_object("f", vec![]).unwrap().is_null());
    let mut client = SearpcClient::new(answering(r#"{"ret": {"a": 1}}"#));
    let doc = client.call_object("f", vec![]).unwrap();
    assert_eq!(doc.get("a").and_then(|v| v.as_i64()), Some(1));
    let mut client = SearpcClient::new(answering(r#"{"ret": "text"}"#));
    assert!(matches!(client.call_object("f", vec![]), Err(SearpcError::TypeError(_))));
}

#[test]
fn null_list_is_empty() {
    let mut client = SearpcClient::new(answering(r#"{"ret": null}"#));
    assert!(client.call_objlist("f", vec![]).unwrap().is_empty());
    let mut client = SearpcClient::new(answering(r#"{}"#));
    assert!(client.call_objlist("f", vec![]).unwrap().is_empty());
    let mut client = SearpcClient::new(answering(r#"{"ret": [{"id": 1}, {"id": 2}]}"#));
    let items = client.call_objlist("f", vec![]).unwrap();
    assert_eq!(items.len(), 2);
    assert_eq!(items[1].get("id").and_then(|v| v.as_i64()), Some(2));
    let mut client = SearpcClient::new(answering(r#"{"ret": {"id": 1}}"#));
    assert!(matches!(client.call_objlist("f", vec![]), Err(SearpcError::TypeError(_))));
}

#[test]
fn json_call_returns_any_value() {
    let mut client = SearpcClient::new(answering(r#"{"ret": [1, "two", 3.5]}"#));
    let value = client.call_json("f", vec![]).unwrap();
    assert_eq!(value.to_text().unwrap(), r#"[1,"two",3.5]"#);
    let mut client = SearpcClient::new(answering("{}"));
    assert!(client.call_json("f", vec![]).unwrap().is_null());
}

#[test]
fn transport_error_is_handed_on() {
    let failing = |_req: &[u8]| -> Reply { Err(SearpcError::TransportError("down".to_string())) };
    let mut client = SearpcClient::new(failing);
    match client.call_int("f", vec![]) {
        Err(SearpcError::TransportError(message)) => assert_eq!(message, "down"),
        _ => panic!("Expected TransportError"),
    }
}

#[test]
fn invalid_reply_is_reported() {
    let mut client = SearpcClient::new(answering("nonsense"));
    assert!(matches!(client.call("f", vec![]), Err(SearpcError::InvalidResponse(_))));
    let not_utf8 = |_req: &[u8]| -> Reply { Ok(vec![0xc3, 0x28]) };
    let mut client = SearpcClient::new(not_utf8);
    assert!(matches!(client.call("f", vec![]), Err(SearpcError::InvalidResponse(_))));
}

#[test]
fn unencodable_request_never_reaches_the_transport() {
    let untouched = |_req: &[u8]| -> Reply { panic!("the transport was used") };
    let mut client = SearpcClient::new(untouched);
    let bad = Arg::json(JsonValue::Number("1..2".to_string()));
    assert!(matches!(client.call_int("f", vec![bad]), Err(SearpcError::JsonError(_))));
}

#[test]
fn each_call_is_one_round_trip() {
    let count = std::rc::Rc::new(std::cell::Cell::new(0));
    let seen = count.clone();
    let counting = move |_req: &[u8]| -> Reply {
        seen.set(seen.get() + 1);
        Ok(br#"{"ret": 1}"#.to_vec())
    };
    let mut client = SearpcClient::new(counting);
    client.call_int("a", vec![]).unwrap();
    assert_eq!(count.get(), 1);
    client.call_json("b", vec![Arg::null()]).unwrap();
    assert_eq!(count.get(), 2);
}

struct Pipe {
    sent: Vec<Vec<u8>>,
}

impl AsyncTransport for Pipe {}

#[test]
fn suspending_client_prepares_and_reads() {
    let mut client = AsyncSearpcClient::new(Pipe { sent: Vec::new() });
    let request = client.request("strlen", vec![Arg::string("hello")]).unwrap();
    assert_eq!(request, br#"["strlen","hello"]"#.to_vec());
    client.transport().sent.push(request);
    assert_eq!(client.transport().sent.len(), 1);

    type Client = AsyncSearpcClient<Pipe>;
    assert_eq!(Client::int_reply(Ok(br#"{"ret": 5}"#.to_vec())).unwrap(), 5);
    assert_eq!(Client::int64_reply(Ok(br#"{"ret": 5000000000}"#.to_vec())).unwrap(), 5000000000);
    assert_eq!(Client::string_reply(Ok(br#"{"ret": "v"}"#.to_vec())).unwrap(), "v");
    assert!(Client::object_reply(Ok(br#"{"ret": null}"#.to_vec())).unwrap().is_null());
    assert!(Client::objlist_reply(Ok(br#"{"ret": null}"#.to_vec())).unwrap().is_empty());
    assert_eq!(Client::json_reply(Ok(br#"{"ret": true}"#.to_vec())).unwrap().as_bool(), Some(true));
    assert!(matches!(
        Client::int_reply(Ok(br#"{"ret": 4294967296}"#.to_vec())),
        Err(SearpcError::TypeError(_))
    ));
    assert!(matches!(
        Client::int_reply(Err(SearpcError::TransportError("closed".to_string()))),
        Err(SearpcError::TransportError(_))
    ));
    assert!(matches!(
        Client::string_reply(Ok(br#"{"err_code": 1, "err_msg": "no"}"#.to_vec())),
        Err(SearpcError::RpcError { code: 1, .. })
    ));
}

#[test]
fn transport_error_constants() {
    assert_eq!(searpc::error::TRANSPORT_ERROR_CODE, 500);
    assert_eq!(searpc::error::TRANSPORT_ERROR_MSG, "Transport Error");
}
