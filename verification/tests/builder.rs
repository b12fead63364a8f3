use json_rpc::objects::{IncompleteRequest, Request, RequestBuilder};
use serde_json::Value;

#[test]
fn finish_needs_method_and_id() {
    assert!(matches!(Request::build().finish(), Err(IncompleteRequest)));
    assert!(matches!(Request::build().method("getinfo").finish(), Err(IncompleteRequest)));
    assert!(matches!(Request::build().id(Value::from(1u64)).finish(), Err(IncompleteRequest)));
    assert!(matches!(
        Request::build().params(Value::Bool(true)).jsonrpc("1.0").finish(),
        Err(IncompleteRequest)
    ));
    assert!(Request::build().method("getinfo").id(Value::from(1u64)).finish().is_ok());
}

#[test]
fn finish_fills_in_null_params_and_version_two() {
    let request = Request::build().id(Value::from(7u64)).method("getinfo").finish().unwrap();
    assert_eq!(
        request,
        Request {
            method: "getinfo".to_string(),
            params: Value::Null,
            id: Value::from(7u64),
            jsonrpc: "2.0".to_string(),
        }
    );
}

#[test]
fn finish_keeps_what_was_set() {
    let params = Value::Array(vec![Value::from(1u64), Value::String("two".to_string())]);
    let request = Request::build()
        .jsonrpc("1.0")
        .params(params.clone())
        .method("sum")
        .id(Value::String("abc".to_string()))
        .finish()
        .unwrap();
    assert_eq!(request.method, "sum");
    assert_eq!(request.params, params);
    assert_eq!(request.id, Value::String("abc".to_string()));
    assert_eq!(request.jsonrpc, "1.0");
}

#[test]
fn the_last_write_wins() {
    let request = Request::build()
        .method("first")
        .id(Value::from(1u64))
        .method("second")
        .id(Value::from(2u64))
        .params(Value::Bool(false))
        .params(Value::Bool(true))
        .jsonrpc("1.0")
        .jsonrpc("1.1")
        .finish()
        .unwrap();
    assert_eq!(request.method, "second");
    assert_eq!(request.id, Value::from(2u64));
    assert_eq!(request.params, Value::Bool(true));
    assert_eq!(request.jsonrpc, "1.1");
}

#[test]
fn the_default_builder_is_empty() {
    assert!(RequestBuilder::default().finish().is_err());
    let request = RequestBuilder::default().method("m").id(Value::Null).finish().unwrap();
    assert_eq!(request.params, Value::Null);
    assert_eq!(request.jsonrpc, "2.0");
}
