use jsonrpc_client::client::{HttpClient, HttpConfig};
use jsonrpc_client::error::{ClientError, ErrorKind};
use jsonrpc_client::ids::Id;
use jsonrpc_client::json::{JsonValue, Member, Number};
use jsonrpc_client::request::{
    build_call, build_notification, MethodCall, Notification, Params, Request, RequestEnvelope,
    Version,
};
use jsonrpc_client::response::{Output, Response, RpcError};

fn member(key: &str, value: JsonValue) -> Member {
    Member { key: key.to_string(), value }
}

fn text(s: &str) -> JsonValue {
    JsonValue::String(s.to_string())
}

fn num(n: u64) -> JsonValue {
    JsonValue::Number(Number::PosInt(n))
}

fn object(members: Vec<Member>) -> JsonValue {
    JsonValue::Object(members)
}

fn named_a_1() -> Params {
    Params::Named(vec![member("a", num(1))])
}

fn malformed_response() -> Result<Response, ErrorKind> {
    Err(ErrorKind::Custom("malformed response".to_string()))
}

#[test]
fn call_round_trip_keeps_method_params_and_id() {
    let request = build_call("m".to_string(), named_a_1(), 7);
    let json = request.clone().into_json();
    let back = Request::from_json(json);
    assert_eq!(back, Some(request));
    match back {
        Some(Request::MethodCall(call)) => {
            assert_eq!(call.method, "m");
            assert_eq!(call.params, named_a_1());
            assert_eq!(call.id, 7);
        }
        _ => panic!("a call went in"),
    }
}

#[test]
fn call_has_the_wire_shape() {
    let json = build_call("m".to_string(), named_a_1(), 7).into_json();
    assert_eq!(
        json,
        object(vec![
            member("jsonrpc", text("2.0")),
            member("method", text("m")),
            member("params", object(vec![member("a", num(1))])),
            member("id", num(7)),
        ])
    );
}

#[test]
fn call_with_positional_params_has_an_array() {
    let params = Params::Positional(vec![num(1), JsonValue::Null]);
    let json = build_call("sum".to_string(), params, 0).into_json();
    assert_eq!(
        json,
        object(vec![
            member("jsonrpc", text("2.0")),
            member("method", text("sum")),
            member("params", JsonValue::Array(vec![num(1), JsonValue::Null])),
            member("id", num(0)),
        ])
    );
}

#[test]
fn call_without_params_omits_them() {
    let json = build_call("ping".to_string(), Params::Absent, u64::MAX).into_json();
    assert_eq!(
        json,
        object(vec![
            member("jsonrpc", text("2.0")),
            member("method", text("ping")),
            member("id", num(u64::MAX)),
        ])
    );
}

#[test]
fn notification_has_the_wire_shape_without_id() {
    let params = Params::Named(vec![member("msg", text("x"))]);
    let json = build_notification("log".to_string(), params).into_json();
    assert_eq!(
        json,
        object(vec![
            member("jsonrpc", text("2.0")),
            member("method", text("log")),
            member("params", object(vec![member("msg", text("x"))])),
        ])
    );
}

#[test]
fn notification_round_trip() {
    let request = build_notification("log".to_string(), Params::Positional(vec![text("x")]));
    assert_eq!(Request::from_json(request.clone().into_json()), Some(request));
    let request = build_notification("log".to_string(), Params::Absent);
    assert_eq!(Request::from_json(request.clone().into_json()), Some(request));
}

#[test]
fn batch_envelope_is_an_array_of_request_objects() {
    let envelope = RequestEnvelope::Batch(vec![
        build_call("a".to_string(), Params::Absent, 3),
        build_call("b".to_string(), Params::Absent, 4),
    ]);
    assert_eq!(
        envelope.into_json(),
        JsonValue::Array(vec![
            object(vec![
                member("jsonrpc", text("2.0")),
                member("method", text("a")),
                member("id", num(3)),
            ]),
            object(vec![
                member("jsonrpc", text("2.0")),
                member("method", text("b")),
                member("id", num(4)),
            ]),
        ])
    );
    assert_eq!(RequestEnvelope::Batch(Vec::new()).into_json(), JsonValue::Array(Vec::new()));
}

#[test]
fn single_envelope_is_the_request_object() {
    let envelope = RequestEnvelope::Single(build_call("a".to_string(), Params::Absent, 3));
    assert_eq!(envelope.into_json(), build_call("a".to_string(), Params::Absent, 3).into_json());
}

#[test]
fn request_members_may_come_in_any_order() {
    let json = object(vec![
        member("id", num(5)),
        member("params", JsonValue::Array(Vec::new())),
        member("method", text("m")),
        member("jsonrpc", text("2.0")),
    ]);
    assert_eq!(
        Request::from_json(json),
        Some(Request::MethodCall(MethodCall {
            jsonrpc: Version::V2,
            method: "m".to_string(),
            params: Params::Positional(Vec::new()),
            id: 5,
        }))
    );
}

#[test]
fn request_with_non_negative_signed_id_is_read() {
    let json = object(vec![
        member("jsonrpc", text("2.0")),
        member("method", text("m")),
        member("id", JsonValue::Number(Number::NegInt(12))),
    ]);
    assert_eq!(Request::from_json(json), Some(build_call("m".to_string(), Params::Absent, 12)));
}

#[test]
fn request_that_is_malformed_is_not_read() {
    assert_eq!(Request::from_json(JsonValue::Null), None);
    assert_eq!(Request::from_json(JsonValue::Array(Vec::new())), None);
    assert_eq!(Request::from_json(object(Vec::new())), None);
    // no version tag
    assert_eq!(Request::from_json(object(vec![member("method", text("m"))])), None);
    // another version
    assert_eq!(
        Request::from_json(object(vec![
            member("jsonrpc", text("1.0")),
            member("method", text("m")),
        ])),
        None
    );
    // no method
    assert_eq!(
        Request::from_json(object(vec![member("jsonrpc", text("2.0")), member("id", num(1))])),
        None
    );
    // a method that is no string
    assert_eq!(
        Request::from_json(object(vec![member("jsonrpc", text("2.0")), member("method", num(1))])),
        None
    );
    // parameters that are neither array nor object
    assert_eq!(
        Request::from_json(object(vec![
            member("jsonrpc", text("2.0")),
            member("method", text("m")),
            member("params", JsonValue::Null),
        ])),
        None
    );
    // an id that is no integer of the range
    assert_eq!(
        Request::from_json(object(vec![
            member("jsonrpc", text("2.0")),
            member("method", text("m")),
            member("id", JsonValue::Number(Number::NegInt(-1))),
        ])),
        None
    );
    assert_eq!(
        Request::from_json(object(vec![
            member("jsonrpc", text("2.0")),
            member("method", text("m")),
            member("id", text("1")),
        ])),
        None
    );
    assert_eq!(
        Request::from_json(object(vec![
            member("jsonrpc", text("2.0")),
            member("method", text("m")),
            member("id", JsonValue::Number(Number::Literal("1.5".to_string()))),
        ])),
        None
    );
    // a key twice
    assert_eq!(
        Request::from_json(object(vec![
            member("jsonrpc", text("2.0")),
            member("method", text("m")),
            member("method", text("m")),
        ])),
        None
    );
    // a key that no request has
    assert_eq!(
        Request::from_json(object(vec![
            member("jsonrpc", text("2.0")),
            member("method", text("m")),
            member("extra", JsonValue::Null),
        ])),
        None
    );
}

#[test]
fn success_object_is_read_as_single_response() {
    let json = object(vec![
        member("jsonrpc", text("2.0")),
        member("result", text("pong")),
        member("id", num(3)),
    ]);
    assert_eq!(
        Response::from_json(json),
        Ok(Response::Single(Output::Success {
            jsonrpc: Version::V2,
            result: text("pong"),
            id: Id::Num(3),
        }))
    );
}

#[test]
fn null_result_is_a_result() {
    let json = object(vec![
        member("id", num(3)),
        member("result", JsonValue::Null),
        member("jsonrpc", text("2.0")),
    ]);
    assert_eq!(
        Response::from_json(json),
        Ok(Response::Single(Output::Success {
            jsonrpc: Version::V2,
            result: JsonValue::Null,
            id: Id::Num(3),
        }))
    );
}

#[test]
fn error_object_is_read_as_failure() {
    let json = object(vec![
        member("jsonrpc", text("2.0")),
        member(
            "error",
            object(vec![
                member("code", JsonValue::Number(Number::NegInt(-32601))),
                member("message", text("Method not found")),
            ]),
        ),
        member("id", num(3)),
    ]);
    assert_eq!(
        Response::from_json(json),
        Ok(Response::Single(Output::Failure {
            jsonrpc: Version::V2,
            error: RpcError {
                code: -32601,
                message: "Method not found".to_string(),
                data: None,
            },
            id: Id::Num(3),
        }))
    );
}

#[test]
fn error_object_keeps_its_data() {
    let json = object(vec![
        member("jsonrpc", text("2.0")),
        member(
            "error",
            object(vec![
                member("code", num(7)),
                member("message", text("m")),
                member("data", JsonValue::Array(vec![num(1)])),
            ]),
        ),
        member("id", JsonValue::Null),
    ]);
    assert_eq!(
        Response::from_json(json),
        Ok(Response::Single(Output::Failure {
            jsonrpc: Version::V2,
            error: RpcError {
                code: 7,
                message: "m".to_string(),
                data: Some(JsonValue::Array(vec![num(1)])),
            },
            id: Id::Null,
        }))
    );
}

#[test]
fn answer_ids_may_be_null_or_text() {
    let json = object(vec![
        member("jsonrpc", text("2.0")),
        member("result", num(1)),
        member("id", text("abc")),
    ]);
    assert_eq!(
        Output::from_json(json),
        Some(Output::Success {
            jsonrpc: Version::V2,
            result: num(1),
            id: Id::Str("abc".to_string()),
        })
    );
    let json = object(vec![
        member("jsonrpc", text("2.0")),
        member("result", num(1)),
        member("id", JsonValue::Null),
    ]);
    assert_eq!(
        Output::from_json(json),
        Some(Output::Success { jsonrpc: Version::V2, result: num(1), id: Id::Null })
    );
}

#[test]
fn array_is_read_as_batch_in_order() {
    let json = JsonValue::Array(vec![
        object(vec![
            member("jsonrpc", text("2.0")),
            member("result", num(10)),
            member("id", num(1)),
        ]),
        object(vec![
            member("jsonrpc", text("2.0")),
            member("result", num(0)),
            member("id", num(0)),
        ]),
    ]);
    assert_eq!(
        Response::from_json(json),
        Ok(Response::Batch(vec![
            Output::Success { jsonrpc: Version::V2, result: num(10), id: Id::Num(1) },
            Output::Success { jsonrpc: Version::V2, result: num(0), id: Id::Num(0) },
        ]))
    );
    assert_eq!(
        Response::from_json(JsonValue::Array(Vec::new())),
        Ok(Response::Batch(Vec::new()))
    );
}

#[test]
fn malformed_batch_member_is_a_custom_error() {
    let json = JsonValue::Array(vec![
        object(vec![
            member("jsonrpc", text("2.0")),
            member("result", num(10)),
            member("id", num(1)),
        ]),
        num(5),
    ]);
    assert_eq!(
        Response::from_json(json),
        Err(ErrorKind::Custom("malformed batch member".to_string()))
    );
}

#[test]
fn object_with_method_is_read_as_notification() {
    let json = object(vec![
        member("jsonrpc", text("2.0")),
        member("method", text("tick")),
        member("params", JsonValue::Array(vec![num(1)])),
    ]);
    assert_eq!(
        Response::from_json(json),
        Ok(Response::Notif(Notification {
            jsonrpc: Version::V2,
            method: "tick".to_string(),
            params: Params::Positional(vec![num(1)]),
        }))
    );
}

#[test]
fn malformed_response_is_a_custom_error() {
    assert_eq!(Response::from_json(JsonValue::Null), malformed_response());
    assert_eq!(Response::from_json(text("ok")), malformed_response());
    assert_eq!(Response::from_json(object(Vec::new())), malformed_response());
    // a call is no response
    assert_eq!(
        Response::from_json(build_call("m".to_string(), Params::Absent, 1).into_json()),
        malformed_response()
    );
    // result and error together
    assert_eq!(
        Response::from_json(object(vec![
            member("jsonrpc", text("2.0")),
            member("result", num(1)),
            member("error", object(vec![member("code", num(1)), member("message", text("m"))])),
            member("id", num(1)),
        ])),
        malformed_response()
    );
    // neither result nor error
    assert_eq!(
        Response::from_json(object(vec![member("jsonrpc", text("2.0")), member("id", num(1))])),
        malformed_response()
    );
    // no id
    assert_eq!(
        Response::from_json(object(vec![
            member("jsonrpc", text("2.0")),
            member("result", num(1)),
        ])),
        malformed_response()
    );
    // an id that is no identifier
    assert_eq!(
        Response::from_json(object(vec![
            member("jsonrpc", text("2.0")),
            member("result", num(1)),
            member("id", JsonValue::Bool(true)),
        ])),
        malformed_response()
    );
    // no version tag
    assert_eq!(
        Response::from_json(object(vec![member("result", num(1)), member("id", num(1))])),
        malformed_response()
    );
    // an error object without a message
    assert_eq!(
        Response::from_json(object(vec![
            member("jsonrpc", text("2.0")),
            member("error", object(vec![member("code", num(1))])),
            member("id", num(1)),
        ])),
        malformed_response()
    );
    // an error code out of range
    assert_eq!(
        Response::from_json(object(vec![
            member("jsonrpc", text("2.0")),
            member(
                "error",
                object(vec![member("code", num(u64::MAX)), member("message", text("m"))]),
            ),
            member("id", num(1)),
        ])),
        malformed_response()
    );
    // a key twice
    assert_eq!(
        Response::from_json(object(vec![
            member("jsonrpc", text("2.0")),
            member("result", num(1)),
            member("id", num(1)),
            member("id", num(1)),
        ])),
        malformed_response()
    );
}

#[test]
fn exchange_over_json_values() {
    let mut client = HttpClient::new("http://localhost", HttpConfig::default());
    let (envelope, pending) = client.batch_request(vec![
        ("a".to_string(), Params::Absent),
        ("b".to_string(), Params::Positional(vec![num(2)])),
    ]);
    assert_eq!(
        envelope.into_json(),
        JsonValue::Array(vec![
            object(vec![
                member("jsonrpc", text("2.0")),
                member("method", text("a")),
                member("id", num(0)),
            ]),
            object(vec![
                member("jsonrpc", text("2.0")),
                member("method", text("b")),
                member("params", JsonValue::Array(vec![num(2)])),
                member("id", num(1)),
            ]),
        ])
    );
    let reply = JsonValue::Array(vec![
        object(vec![
            member("jsonrpc", text("2.0")),
            member("result", text("for b")),
            member("id", num(1)),
        ]),
        object(vec![
            member("jsonrpc", text("2.0")),
            member("result", text("for a")),
            member("id", num(0)),
        ]),
    ]);
    let response = Response::from_json(reply).map_err(ClientError::from_kind);
    assert!(response.is_ok());
    let outcome = match response {
        Ok(response) => pending.complete(Ok(response)),
        Err(error) => Err(error),
    };
    assert_eq!(outcome, Ok(vec![text("for b"), text("for a")]));
}

#[test]
fn malformed_reply_becomes_a_custom_client_error() {
    let response = Response::from_json(JsonValue::Bool(true)).map_err(ClientError::from_kind);
    assert_eq!(response, Err(ClientError::Custom("malformed response".to_string())));
}
