//! The JSON shape of responses: which JSON values are answers, batches of
//! answers and notifications.

use crate::error::{ErrorKind, ErrorKindView};
use crate::ids::{Id, IdView};
use crate::json::{
    lemma_array_view, lemma_object_view, values_view, JsonValue, JsonView, Number, NumberView,
};
use crate::request::{Request, RequestView, Version};
use crate::response::{
    outputs_view, Output, OutputView, Response, ResponseView, RpcError, RpcErrorView,
};
use crate::wire::fields::{
    has_key, is_version_tag, keyed_by, keys_view, lookup, number_to_id, read_correlation_id,
    sort_by_key, take_slot,
};
use crate::wire::requests::read_request;
use vstd::prelude::*;

verus! {

/// The keys that the object of an answer may hold.
pub open spec fn output_keys() -> Seq<Seq<char>> {
    seq!["jsonrpc"@, "result"@, "error"@, "id"@]
}

/// The keys that an error object may hold.
pub open spec fn error_keys() -> Seq<Seq<char>> {
    seq!["code"@, "message"@, "data"@]
}

/// The identifier that a JSON value holds in an answer: null, a string, or
/// an integer of the identifiers' range.
pub open spec fn read_id(json: JsonView) -> Option<IdView> {
    match json {
        JsonView::Null => Some(IdView::Null),
        JsonView::String(text) => Some(IdView::Str(text)),
        JsonView::Number(_) => match read_correlation_id(json) {
            Some(id) => Some(IdView::Num(id)),
            None => None,
        },
        _ => None,
    }
}

/// The error code that a JSON value holds: an integer of 64 bits.
pub open spec fn read_code(json: JsonView) -> Option<int> {
    match json {
        JsonView::Number(NumberView::Int(v)) => if i64::MIN <= v <= i64::MAX {
            Some(v)
        } else {
            None
        },
        _ => None,
    }
}

/// The error object that a JSON value stands for, if it stands for one: an
/// object under the keys of an error alone, with a code, a message and data
/// if any.
pub open spec fn read_error(json: JsonView) -> Option<RpcErrorView> {
    match json {
        JsonView::Object(members) => {
            if !keyed_by(members, error_keys()) {
                None
            } else {
                match (lookup(members, "code"@), lookup(members, "message"@)) {
                    (Some(code), Some(JsonView::String(message))) => match read_code(code) {
                        Some(code) => Some(
                            RpcErrorView { code, message, data: lookup(members, "data"@) },
                        ),
                        None => None,
                    },
                    _ => None,
                }
            }
        },
        _ => None,
    }
}

/// The answer that a JSON value stands for, if it stands for one: an object
/// under the keys of an answer alone, with the version tag, an identifier,
/// and either a result or an error object.
pub open spec fn read_output(json: JsonView) -> Option<OutputView> {
    match json {
        JsonView::Object(members) => {
            if !keyed_by(members, output_keys()) {
                None
            } else if lookup(members, "jsonrpc"@) != Some(JsonView::String("2.0"@)) {
                None
            } else {
                match lookup(members, "id"@) {
                    None => None,
                    Some(id) => match read_id(id) {
                        None => None,
                        Some(id) => match (lookup(members, "result"@), lookup(members, "error"@)) {
                            (Some(result), None) => Some(OutputView::Success { result, id }),
                            (None, Some(error)) => match read_error(error) {
                                Some(error) => Some(OutputView::Failure { error, id }),
                                None => None,
                            },
                            _ => None,
                        },
                    },
                }
            }
        },
        _ => None,
    }
}

/// Why a JSON value is no response: it is an array with a member that is
/// no answer, or it is something else that is none.
pub open spec fn malformed(json: JsonView) -> Seq<char> {
    if json is Array {
        "malformed batch member"@
    } else {
        "malformed response"@
    }
}

/// The response that a JSON value stands for: an array of answers is a
/// batch, an object with a method name is a notification, any other object
/// is a single answer.
pub open spec fn read_response(json: JsonView) -> Option<ResponseView> {
    match json {
        JsonView::Array(items) => {
            if forall|i: int| 0 <= i < items.len() ==> read_output(#[trigger] items[i]) is Some {
                Some(
                    ResponseView::Batch(
                        Seq::new(items.len(), |i: int| read_output(items[i])->Some_0),
                    ),
                )
            } else {
                None
            }
        },
        JsonView::Object(members) => {
            if lookup(members, "method"@) is Some {
                match read_request(json) {
                    Some(RequestView::Notification(note)) => Some(ResponseView::Notif(note)),
                    _ => None,
                }
            } else {
                match read_output(json) {
                    Some(output) => Some(ResponseView::Single(output)),
                    None => None,
                }
            }
        },
        _ => None,
    }
}

/// The keys of an answer are four different ones, and those of an error
/// object three.
pub proof fn lemma_response_keys()
    ensures
        output_keys().len() == 4,
        forall|a: int, b: int|
            0 <= a < b < 4 ==> (#[trigger] output_keys()[a]) != (#[trigger] output_keys()[b]),
        error_keys().len() == 3,
        forall|a: int, b: int|
            0 <= a < b < 3 ==> (#[trigger] error_keys()[a]) != (#[trigger] error_keys()[b]),
        !output_keys().contains("method"@),
{
    reveal_strlit("jsonrpc");
    reveal_strlit("result");
    reveal_strlit("error");
    reveal_strlit("id");
    reveal_strlit("code");
    reveal_strlit("message");
    reveal_strlit("data");
    reveal_strlit("method");
    let outs = output_keys();
    assert("code"@[0] != "data"@[0]);
    assert("method"@[0] != "result"@[0]);
    assert forall|a: int, b: int| 0 <= a < b < 4 implies (#[trigger] outs[a]) != (
    #[trigger] outs[b]) by {
        assert(outs[a].len() != outs[b].len());
    }
}

fn output_key_names() -> (keys: Vec<String>)
    ensures
        keys.len() == 4,
        keys_view(keys@) == output_keys(),
        forall|a: int, b: int| 0 <= a < b < keys.len() ==> keys[a]@ != keys[b]@,
{
    let mut keys: Vec<String> = Vec::with_capacity(4);
    keys.push("jsonrpc".to_owned());
    keys.push("result".to_owned());
    keys.push("error".to_owned());
    keys.push("id".to_owned());
    proof {
        lemma_response_keys();
    }
    keys
}

fn error_key_names() -> (keys: Vec<String>)
    ensures
        keys.len() == 3,
        keys_view(keys@) == error_keys(),
        forall|a: int, b: int| 0 <= a < b < keys.len() ==> keys[a]@ != keys[b]@,
{
    let mut keys: Vec<String> = Vec::with_capacity(3);
    keys.push("code".to_owned());
    keys.push("message".to_owned());
    keys.push("data".to_owned());
    proof {
        lemma_response_keys();
    }
    keys
}

fn number_to_code(number: &Number) -> (code: Option<i64>)
    ensures
        match code {
            Some(code) => read_code(JsonView::Number(number@)) == Some(code as int),
            None => read_code(JsonView::Number(number@)) is None,
        },
{
    match number {
        Number::PosInt(v) => if *v <= 0x7fff_ffff_ffff_ffff {
            Some(*v as i64)
        } else {
            None
        },
        Number::NegInt(v) => Some(*v),
        Number::Literal(_) => None,
    }
}

fn take_id(json: JsonValue) -> (id: Option<Id>)
    ensures
        match id {
            Some(id) => read_id(json@) == Some(id@),
            None => read_id(json@) is None,
        },
{
    match json {
        JsonValue::Null => Some(Id::Null),
        JsonValue::String(text) => Some(Id::Str(text)),
        JsonValue::Number(number) => match number_to_id(&number) {
            Some(id) => Some(Id::Num(id)),
            None => None,
        },
        _ => None,
    }
}

fn take_error(json: JsonValue) -> (error: Option<RpcError>)
    ensures
        match error {
            Some(error) => read_error(json@) == Some(error@),
            None => read_error(json@) is None,
        },
{
    match json {
        JsonValue::Object(members) => {
            proof {
                lemma_object_view(members);
            }
            let keys = error_key_names();
            let mut slots = match sort_by_key(members, &keys) {
                Some(slots) => slots,
                None => {
                    return None;
                },
            };
            let data = take_slot(&mut slots);
            let message_slot = take_slot(&mut slots);
            let code_slot = take_slot(&mut slots);
            let code = match code_slot {
                Some(JsonValue::Number(number)) => match number_to_code(&number) {
                    Some(code) => code,
                    None => {
                        return None;
                    },
                },
                _ => {
                    return None;
                },
            };
            match message_slot {
                Some(JsonValue::String(message)) => Some(RpcError { code, message, data }),
                _ => None,
            }
        },
        _ => None,
    }
}

impl Output {
    /// Reads an answer from the JSON value that stands for it. `None`
    /// where the value stands for none.
    pub fn from_json(json: JsonValue) -> (output: Option<Output>)
        ensures
            match output {
                Some(output) => read_output(json@) == Some(output@),
                None => read_output(json@) is None,
            },
    {
        match json {
            JsonValue::Object(members) => {
                proof {
                    lemma_object_view(members);
                }
                let keys = output_key_names();
                let mut slots = match sort_by_key(members, &keys) {
                    Some(slots) => slots,
                    None => {
                        return None;
                    },
                };
                    let id_slot = take_slot(&mut slots);
                let error_slot = take_slot(&mut slots);
                let result_slot = take_slot(&mut slots);
                let version_slot = take_slot(&mut slots);
                if !is_version_tag(&version_slot) {
                    return None;
                }
                let id = match id_slot {
                    Some(id) => match take_id(id) {
                        Some(id) => id,
                        None => {
                            return None;
                        },
                    },
                    None => {
                        return None;
                    },
                };
                match (result_slot, error_slot) {
                    (Some(result), None) => Some(
                        Output::Success { jsonrpc: Version::V2, result, id },
                    ),
                    (None, Some(error)) => match take_error(error) {
                        Some(error) => Some(Output::Failure { jsonrpc: Version::V2, error, id }),
                        None => None,
                    },
                    _ => None,
                }
            },
            _ => None,
        }
    }
}

impl Response {
    /// Reads a response from the JSON value that stands for it. A value
    /// that stands for none is a violation of the protocol.
    #[verifier::loop_isolation(false)]
    pub fn from_json(json: JsonValue) -> (response: Result<Response, ErrorKind>)
        ensures
            match response {
                Ok(response) => read_response(json@) == Some(response@),
                Err(error) => read_response(json@) is None && error@ == ErrorKindView::Custom(
                    malformed(json@),
                ),
            },
    {
        match json {
            JsonValue::Array(items) => {
                proof {
                    lemma_array_view(items);
                }
                let ghost given = values_view(items@);
                let mut outputs: Vec<Output> = Vec::with_capacity(items.len());
                for item in it: items.into_iter()
                    invariant
                        it.seq() == items@,
                        given == values_view(items@),
                        outputs.len() == it.index(),
                        forall|j: int|
                            0 <= j < it.index() ==> read_output(#[trigger] given[j]) == Some(
                                outputs[j]@,
                            ),
                {
                    assert(item@ == given[it.index() as int]);
                    match Output::from_json(item) {
                        Some(output) => {
                            outputs.push(output);
                        },
                        None => {
                            return Err(ErrorKind::Custom("malformed batch member".to_owned()));
                        },
                    }
                }
                assert(outputs_view(outputs@) =~= Seq::new(
                    given.len(),
                    |i: int| read_output(given[i])->Some_0,
                ));
                Ok(Response::Batch(outputs))
            },
            JsonValue::Object(members) => {
                proof {
                    lemma_object_view(members);
                }
                if has_key(&members, &"method".to_owned()) {
                    match Request::from_json(JsonValue::Object(members)) {
                        Some(Request::Notification(note)) => Ok(Response::Notif(note)),
                        _ => Err(ErrorKind::Custom("malformed response".to_owned())),
                    }
                } else {
                    match Output::from_json(JsonValue::Object(members)) {
                        Some(output) => Ok(Response::Single(output)),
                        None => Err(ErrorKind::Custom("malformed response".to_owned())),
                    }
                }
            },
            _ => Err(ErrorKind::Custom("malformed response".to_owned())),
        }
    }
}

} // verus!
