use jsonrpc_client::client::HttpClient;
use jsonrpc_client::error::{ErrorKind, Shape};
use jsonrpc_client::ids::Id;
use jsonrpc_client::json::{JsonValue, Number};
use jsonrpc_client::request::{Notification, Params, Version};
use jsonrpc_client::response::{Output, Response, RpcError};
use jsonrpc_client::validate::{validate_batch, validate_single};
use std::collections::HashSet;

fn success(id: Id, n: u64) -> Output {
    Output::Success { jsonrpc: Version::V2, result: JsonValue::Number(Number::PosInt(n)), id }
}

fn failure(id: Id, code: i64, message: &str) -> Output {
    Output::Failure {
        jsonrpc: Version::V2,
        error: RpcError { code, message: message.to_string(), data: None },
        id,
    }
}

fn number(n: u64) -> JsonValue {
    JsonValue::Number(Number::PosInt(n))
}

fn ids(list: &[u64]) -> HashSet<u64> {
    list.iter().copied().collect()
}

fn server_notification() -> Response {
    Response::Notif(Notification {
        jsonrpc: Version::V2,
        method: "tick".to_string(),
        params: Params::Absent,
    })
}

#[test]
fn process_response_returns_the_result_for_the_expected_id() {
    assert_eq!(HttpClient::process_response(success(Id::Num(4), 99), 4), Ok(number(99)));
}

#[test]
fn process_response_refuses_another_id() {
    assert_eq!(HttpClient::process_response(success(Id::Num(5), 99), 4), Err(ErrorKind::InvalidId));
}

#[test]
fn process_response_refuses_an_id_that_is_no_number() {
    assert_eq!(HttpClient::process_response(success(Id::Null, 99), 0), Err(ErrorKind::InvalidId));
    assert_eq!(
        HttpClient::process_response(success(Id::Str("4".to_string()), 99), 4),
        Err(ErrorKind::InvalidId)
    );
}

#[test]
fn process_response_hands_on_the_server_error() {
    assert_eq!(
        HttpClient::process_response(failure(Id::Num(4), -32601, "Method not found"), 4),
        Err(ErrorKind::RpcError(RpcError {
            code: -32601,
            message: "Method not found".to_string(),
            data: None,
        }))
    );
}

#[test]
fn process_response_checks_the_id_before_the_error() {
    assert_eq!(
        HttpClient::process_response(failure(Id::Num(9), -32601, "Method not found"), 4),
        Err(ErrorKind::InvalidId)
    );
}

#[test]
fn validate_single_accepts_the_matching_answer() {
    assert_eq!(validate_single(Response::Single(success(Id::Num(7), 1)), 7), Ok(number(1)));
}

#[test]
fn validate_single_mismatched_id_is_invalid_id() {
    assert_eq!(
        validate_single(Response::Single(success(Id::Num(8), 1)), 7),
        Err(ErrorKind::InvalidId)
    );
}

#[test]
fn validate_single_batch_response_is_shape_mismatch() {
    assert_eq!(
        validate_single(Response::Batch(vec![success(Id::Num(7), 1)]), 7),
        Err(ErrorKind::ShapeMismatch { expected: Shape::Single, received: Shape::Batch })
    );
}

#[test]
fn validate_single_notification_response_is_shape_mismatch() {
    assert_eq!(
        validate_single(server_notification(), 7),
        Err(ErrorKind::ShapeMismatch { expected: Shape::Single, received: Shape::Notification })
    );
}

#[test]
fn validate_single_rpc_error_is_surfaced() {
    let data = JsonValue::String("detail".to_string());
    let output = Output::Failure {
        jsonrpc: Version::V2,
        error: RpcError { code: -32000, message: "boom".to_string(), data: Some(data.clone()) },
        id: Id::Num(7),
    };
    assert_eq!(
        validate_single(Response::Single(output), 7),
        Err(ErrorKind::RpcError(RpcError {
            code: -32000,
            message: "boom".to_string(),
            data: Some(data),
        }))
    );
}

#[test]
fn validate_batch_single_response_is_shape_mismatch() {
    assert_eq!(
        validate_batch(Response::Single(success(Id::Num(0), 1)), ids(&[0])),
        Err(ErrorKind::ShapeMismatch { expected: Shape::Batch, received: Shape::Single })
    );
}

#[test]
fn validate_batch_notification_response_is_shape_mismatch() {
    assert_eq!(
        validate_batch(server_notification(), ids(&[0])),
        Err(ErrorKind::ShapeMismatch { expected: Shape::Batch, received: Shape::Notification })
    );
}

#[test]
fn validate_batch_returns_results_in_received_order() {
    let response = Response::Batch(vec![
        success(Id::Num(2), 20),
        success(Id::Num(0), 0),
        success(Id::Num(1), 10),
    ]);
    assert_eq!(
        validate_batch(response, ids(&[0, 1, 2])),
        Ok(vec![number(20), number(0), number(10)])
    );
}

#[test]
fn validate_batch_duplicate_id_is_invalid_id() {
    let response = Response::Batch(vec![success(Id::Num(0), 0), success(Id::Num(0), 1)]);
    assert_eq!(validate_batch(response, ids(&[0, 1])), Err(ErrorKind::InvalidId));
}

#[test]
fn validate_batch_unknown_id_is_invalid_id() {
    let response = Response::Batch(vec![success(Id::Num(0), 0), success(Id::Num(5), 1)]);
    assert_eq!(validate_batch(response, ids(&[0, 1])), Err(ErrorKind::InvalidId));
}

#[test]
fn validate_batch_id_that_is_no_number_is_invalid_id() {
    let response = Response::Batch(vec![success(Id::Null, 0)]);
    assert_eq!(validate_batch(response, ids(&[0])), Err(ErrorKind::InvalidId));
    let response = Response::Batch(vec![success(Id::Str("0".to_string()), 0)]);
    assert_eq!(validate_batch(response, ids(&[0])), Err(ErrorKind::InvalidId));
}

#[test]
fn validate_batch_fewer_answers_than_sent_are_accepted() {
    let response = Response::Batch(vec![success(Id::Num(1), 10)]);
    assert_eq!(validate_batch(response, ids(&[0, 1, 2])), Ok(vec![number(10)]));
}

#[test]
fn validate_batch_empty_batch_is_accepted() {
    assert_eq!(validate_batch(Response::Batch(Vec::new()), ids(&[0, 1])), Ok(Vec::new()));
    assert_eq!(validate_batch(Response::Batch(Vec::new()), ids(&[])), Ok(Vec::new()));
}

#[test]
fn validate_batch_answer_to_nothing_sent_is_invalid_id() {
    let response = Response::Batch(vec![success(Id::Num(0), 0)]);
    assert_eq!(validate_batch(response, ids(&[])), Err(ErrorKind::InvalidId));
}

#[test]
fn validate_batch_fails_with_the_first_server_error() {
    let response = Response::Batch(vec![
        success(Id::Num(0), 0),
        failure(Id::Num(1), -1, "first"),
        failure(Id::Num(2), -2, "second"),
    ]);
    assert_eq!(
        validate_batch(response, ids(&[0, 1, 2])),
        Err(ErrorKind::RpcError(RpcError { code: -1, message: "first".to_string(), data: None }))
    );
}

#[test]
fn validate_batch_first_offending_answer_decides() {
    let response = Response::Batch(vec![
        failure(Id::Num(1), -1, "first"),
        success(Id::Num(9), 0),
    ]);
    assert_eq!(
        validate_batch(response, ids(&[0, 1])),
        Err(ErrorKind::RpcError(RpcError { code: -1, message: "first".to_string(), data: None }))
    );
    let response = Response::Batch(vec![
        success(Id::Num(9), 0),
        failure(Id::Num(1), -1, "first"),
    ]);
    assert_eq!(validate_batch(response, ids(&[0, 1])), Err(ErrorKind::InvalidId));
}

#[test]
fn validate_batch_checks_the_id_before_the_error() {
    let response = Response::Batch(vec![failure(Id::Num(9), -1, "first")]);
    assert_eq!(validate_batch(response, ids(&[0, 1])), Err(ErrorKind::InvalidId));
}

#[test]
fn validate_batch_server_error_uses_up_its_id() {
    let response = Response::Batch(vec![
        success(Id::Num(0), 0),
        success(Id::Num(1), 1),
        success(Id::Num(0), 2),
    ]);
    assert_eq!(validate_batch(response, ids(&[0, 1])), Err(ErrorKind::InvalidId));
}
