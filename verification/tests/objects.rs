use json_rpc::objects::{JsonError, Malformed, Request, Response, RpcError};
use serde_json::{Number, Value};

fn getinfo() -> Request {
    Request {
        method: "getinfo".to_string(),
        params: Value::Null,
        id: Value::from(1u64),
        jsonrpc: "2.0".to_string(),
    }
}

fn parse(text: &str) -> Value {
    serde_json::from_str(text).unwrap()
}

#[test]
fn a_request_goes_over_the_wire_as_compact_json() {
    assert_eq!(
        getinfo().into_bytes(),
        br#"{"method":"getinfo","params":null,"id":1,"jsonrpc":"2.0"}"#.to_vec()
    );
}

#[test]
fn a_request_with_parameters_and_a_string_id() {
    let request = Request {
        method: "send \"it\"".to_string(),
        params: parse(r#"[1,-2,{"deep":[true,null]},"x"]"#),
        id: Value::String("abc".to_string()),
        jsonrpc: "2.0".to_string(),
    };
    assert_eq!(
        String::from_utf8(request.into_bytes()).unwrap(),
        r#"{"method":"send \"it\"","params":[1,-2,{"deep":[true,null]},"x"],"id":"abc","jsonrpc":"2.0"}"#
    );
}

#[test]
fn a_request_as_a_value_has_its_four_members_in_order() {
    let value = getinfo().into_value();
    let members: Vec<(String, Value)> =
        value.as_object().unwrap().iter().map(|(k, v)| (k.clone(), v.clone())).collect();
    assert_eq!(
        members,
        vec![
            ("method".to_string(), Value::String("getinfo".to_string())),
            ("params".to_string(), Value::Null),
            ("id".to_string(), Value::from(1u64)),
            ("jsonrpc".to_string(), Value::String("2.0".to_string())),
        ]
    );
}

#[test]
fn a_request_survives_the_round_trip_through_a_value() {
    let requests = vec![
        getinfo(),
        Request {
            method: String::new(),
            params: parse(r#"{"id":7,"method":"inner","jsonrpc":null}"#),
            id: Value::Null,
            jsonrpc: String::new(),
        },
        Request {
            method: "sum".to_string(),
            params: Value::Array(vec![Value::from(-3i64), Value::from(u64::MAX)]),
            id: Value::String("7".to_string()),
            jsonrpc: "1.0".to_string(),
        },
    ];
    for request in requests {
        assert_eq!(Request::from_value(request.clone().into_value()), Ok(request));
    }
}

#[test]
fn a_request_survives_the_round_trip_through_its_text() {
    let request = Request {
        method: "sum".to_string(),
        params: parse(r#"[1,2,{"b":1,"a":[null,false]}]"#),
        id: Value::from(42u64),
        jsonrpc: "2.0".to_string(),
    };
    let text = request.clone().into_bytes();
    let value: Value = serde_json::from_slice(&text).unwrap();
    assert_eq!(Request::from_value(value), Ok(request));
}

#[test]
fn a_copy_of_a_request_equals_it() {
    let request = Request {
        method: "sum".to_string(),
        params: parse(r#"[1,{"a":"b"}]"#),
        id: Value::from(3u64),
        jsonrpc: "2.0".to_string(),
    };
    let copy = request.clone();
    assert_eq!(copy, request);
    assert_eq!(copy.params, parse(r#"[1,{"a":"b"}]"#));
}

#[test]
fn a_request_is_read_from_a_value() {
    assert_eq!(
        Request::from_value(parse(r#"{"jsonrpc":"2.0","id":1,"method":"getinfo","extra":true}"#)),
        Ok(getinfo())
    );
    assert_eq!(
        Request::from_value(parse(r#"{"jsonrpc":"2.0","id":"x","method":"m","params":[1]}"#)),
        Ok(Request {
            method: "m".to_string(),
            params: parse("[1]"),
            id: Value::String("x".to_string()),
            jsonrpc: "2.0".to_string(),
        })
    );
}

#[test]
fn what_is_not_a_request_is_refused_with_the_reason() {
    assert_eq!(Request::from_value(parse("[1,2]")), Err(Malformed::NotAnObject));
    assert_eq!(Request::from_value(parse(r#"{"id":1,"jsonrpc":"2.0"}"#)), Err(Malformed::Method));
    assert_eq!(
        Request::from_value(parse(r#"{"method":5,"id":1,"jsonrpc":"2.0"}"#)),
        Err(Malformed::Method)
    );
    assert_eq!(
        Request::from_value(parse(r#"{"method":"m","jsonrpc":"2.0"}"#)),
        Err(Malformed::Id)
    );
    assert_eq!(Request::from_value(parse(r#"{"method":"m","id":1}"#)), Err(Malformed::Version));
    assert_eq!(
        Request::from_value(parse(r#"{"method":"m","id":1,"jsonrpc":2}"#)),
        Err(Malformed::Version)
    );
    assert_eq!(Request::from_value(parse(r#"{"method":5}"#)), Err(Malformed::Method));
    assert_eq!(Request::from_value(parse(r#"{"method":"m","jsonrpc":2}"#)), Err(Malformed::Id));
}

#[test]
fn a_response_with_a_result() {
    let response =
        Response::from_slice(br#"{"result":{"version":1},"id":1,"jsonrpc":"2.0"}"#).unwrap();
    assert_eq!(
        response,
        Response {
            result: Some(parse(r#"{"version":1}"#)),
            error: None,
            id: Value::from(1u64),
            jsonrpc: Some("2.0".to_string()),
        }
    );
    assert!(response.is_result());
    assert!(!response.is_error());
    assert_eq!(response.result(), Some(&parse(r#"{"version":1}"#)));
    assert_eq!(response.clone().error(), None);
    let result = response.into_result().unwrap();
    assert_eq!(result.get("version").and_then(Value::as_u64), Some(1));
}

#[test]
fn a_response_with_an_error() {
    let response = Response::from_slice(
        br#"{"error":{"code":-32601,"message":"Method not found","data":[1,2]},"id":"a","jsonrpc":"2.0"}"#,
    )
    .unwrap();
    assert!(response.is_error());
    assert!(!response.is_result());
    assert_eq!(response.result(), None);
    assert_eq!(response.id, Value::String("a".to_string()));
    assert_eq!(response.clone().into_result(), None);
    assert_eq!(
        response.error(),
        Some(RpcError {
            code: -32601,
            message: "Method not found".to_string(),
            data: Some(parse("[1,2]")),
        })
    );
}

#[test]
fn members_that_are_null_or_absent_are_not_given() {
    let response =
        Response::from_slice(br#"{"result":null,"error":null,"id":null,"jsonrpc":null}"#).unwrap();
    assert_eq!(
        response,
        Response { result: None, error: None, id: Value::Null, jsonrpc: None }
    );
    assert!(!response.is_result());
    assert!(!response.is_error());
    let response = Response::from_slice(br#"{"id":5}"#).unwrap();
    assert_eq!(
        response,
        Response { result: None, error: None, id: Value::from(5u64), jsonrpc: None }
    );
}

#[test]
fn a_response_may_carry_both_and_more() {
    let response = Response::from_value(parse(
        r#"{"extra":1,"jsonrpc":"1.0","id":[1],"error":{"message":"m","code":0,"more":{}},"result":false}"#,
    ))
    .unwrap();
    assert_eq!(
        response,
        Response {
            result: Some(Value::Bool(false)),
            error: Some(RpcError { code: 0, message: "m".to_string(), data: None }),
            id: parse("[1]"),
            jsonrpc: Some("1.0".to_string()),
        }
    );
    assert!(response.is_result());
    assert!(response.is_error());
}

#[test]
fn what_is_not_a_response_is_refused_with_the_reason() {
    assert_eq!(Response::from_value(parse("7")), Err(Malformed::NotAnObject));
    assert_eq!(Response::from_value(parse("[null,null,1,null]")), Err(Malformed::NotAnObject));
    assert_eq!(Response::from_value(parse(r#"{"result":1}"#)), Err(Malformed::Id));
    assert_eq!(
        Response::from_value(parse(r#"{"result":1,"id":1,"jsonrpc":2.0}"#)),
        Err(Malformed::Version)
    );
    assert_eq!(
        Response::from_value(parse(r#"{"error":"boom","id":1}"#)),
        Err(Malformed::ErrorObject)
    );
    assert_eq!(
        Response::from_value(parse(r#"{"error":{"code":1},"jsonrpc":7}"#)),
        Err(Malformed::ErrorObject)
    );
    assert_eq!(Response::from_value(parse(r#"{"jsonrpc":7}"#)), Err(Malformed::Id));
}

#[test]
fn bytes_that_are_not_a_response() {
    assert!(matches!(Response::from_slice(b"not json"), Err(JsonError::Syntax(_))));
    assert!(matches!(Response::from_slice(b""), Err(JsonError::Syntax(_))));
    assert!(matches!(Response::from_slice(br#"{"id":1} x"#), Err(JsonError::Syntax(_))));
    assert!(matches!(
        Response::from_slice(b"[]"),
        Err(JsonError::Shape(Malformed::NotAnObject))
    ));
    assert!(matches!(
        Response::from_slice(br#"{"result":1}"#),
        Err(JsonError::Shape(Malformed::Id))
    ));
}

#[test]
fn an_error_object_is_read_from_a_value() {
    assert_eq!(
        RpcError::from_value(parse(r#"{"code":-1,"message":"no","data":null}"#)),
        Some(RpcError { code: -1, message: "no".to_string(), data: None })
    );
    assert_eq!(
        RpcError::from_value(parse(r#"{"code":2147483647,"message":"","data":"d"}"#)),
        Some(RpcError {
            code: i32::MAX,
            message: String::new(),
            data: Some(Value::String("d".to_string())),
        })
    );
    assert_eq!(
        RpcError::from_value(parse(r#"{"code":-2147483648,"message":"m"}"#)).map(|e| e.code),
        Some(i32::MIN)
    );
}

#[test]
fn what_is_not_an_error_object_is_refused() {
    assert_eq!(RpcError::from_value(parse(r#""text""#)), None);
    assert_eq!(RpcError::from_value(parse(r#"{"message":"m"}"#)), None);
    assert_eq!(RpcError::from_value(parse(r#"{"code":1}"#)), None);
    assert_eq!(RpcError::from_value(parse(r#"{"code":"1","message":"m"}"#)), None);
    assert_eq!(RpcError::from_value(parse(r#"{"code":1,"message":2}"#)), None);
    assert_eq!(RpcError::from_value(parse(r#"{"code":2147483648,"message":"m"}"#)), None);
    assert_eq!(RpcError::from_value(parse(r#"{"code":-2147483649,"message":"m"}"#)), None);
    assert_eq!(RpcError::from_value(parse(r#"{"code":18446744073709551615,"message":"m"}"#)), None);
    let mut members = serde_json::Map::new();
    members.insert("code".to_string(), Value::Number(Number::from_f64(1.0).unwrap()));
    members.insert("message".to_string(), Value::String("m".to_string()));
    assert_eq!(RpcError::from_value(Value::Object(members)), None);
}

#[test]
fn the_reasons_in_words() {
    assert_eq!(Malformed::NotAnObject.message(), "not an object");
    assert_eq!(Malformed::Method.message(), "no method name");
    assert_eq!(Malformed::Id.message(), "no id");
    assert_eq!(Malformed::Version.message(), "no version string");
    assert_eq!(Malformed::ErrorObject.message(), "malformed error object");
    assert_eq!(JsonError::Shape(Malformed::Id).message(), "no id");
    let syntax = Response::from_slice(b"{").unwrap_err();
    assert_eq!(syntax.message(), "EOF while parsing an object at line 1 column 1");
}
