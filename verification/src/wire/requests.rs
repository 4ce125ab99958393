//! The JSON shape of requests: what a request looks like as a JSON value,
//! and which JSON values are requests.

use crate::json::{
    lemma_array_view, lemma_object_view, members_view, values_view, JsonValue, JsonView, Member,
    MemberView, Number, NumberView,
};
use crate::request::{
    requests_view, EnvelopeView, MethodCall, MethodCallView, Notification, NotificationView,
    Params, ParamsView, Request, RequestEnvelope, RequestView, Version,
};
use crate::wire::fields::{
    is_version_tag, keyed_by, keys_view, lookup, number_to_id, read_correlation_id, slot_view,
    sort_by_key, take_slot,
};
use vstd::prelude::*;

verus! {

/// The member that names the protocol version.
pub open spec fn version_member() -> MemberView {
    MemberView { key: "jsonrpc"@, value: JsonView::String("2.0"@) }
}

/// The member that names the method.
pub open spec fn method_member(method: Seq<char>) -> MemberView {
    MemberView { key: "method"@, value: JsonView::String(method) }
}

/// The member that carries the identifier of a call.
pub open spec fn id_member(id: u64) -> MemberView {
    MemberView { key: "id"@, value: JsonView::Number(NumberView::Int(id as int)) }
}

/// The members that carry the parameters: none where they are absent, else
/// one that holds an array or an object.
pub open spec fn params_members(params: ParamsView) -> Seq<MemberView> {
    match params {
        ParamsView::Absent => Seq::empty(),
        ParamsView::Positional(items) => seq![
            MemberView { key: "params"@, value: JsonView::Array(items) },
        ],
        ParamsView::Named(members) => seq![
            MemberView { key: "params"@, value: JsonView::Object(members) },
        ],
    }
}

/// The JSON object that stands for a request: version, method, parameters
/// unless absent, and for a call its identifier, in this order.
pub open spec fn request_shape(request: RequestView) -> JsonView {
    match request {
        RequestView::MethodCall(call) => JsonView::Object(
            seq![version_member(), method_member(call.method)] + params_members(call.params)
                + seq![id_member(call.id)],
        ),
        RequestView::Notification(note) => JsonView::Object(
            seq![version_member(), method_member(note.method)] + params_members(note.params),
        ),
    }
}

/// The JSON value that stands for an envelope: the request's object, or for
/// a batch the array of its requests' objects.
pub open spec fn envelope_shape(envelope: EnvelopeView) -> JsonView {
    match envelope {
        EnvelopeView::Single(request) => request_shape(request),
        EnvelopeView::Batch(requests) => JsonView::Array(
            Seq::new(requests.len(), |i: int| request_shape(requests[i])),
        ),
    }
}

fn push_params(members: &mut Vec<Member>, params: Params)
    ensures
        members_view(final(members)@) == members_view(old(members)@) + params_members(params@),
{
    match params {
        Params::Absent => {},
        Params::Positional(items) => {
            proof {
                lemma_array_view(items);
            }
            members.push(Member { key: "params".to_owned(), value: JsonValue::Array(items) });
        },
        Params::Named(named) => {
            proof {
                lemma_object_view(named);
            }
            members.push(Member { key: "params".to_owned(), value: JsonValue::Object(named) });
        },
    }
}

impl Request {
    /// The JSON object that stands for this request.
    pub fn into_json(self) -> (json: JsonValue)
        ensures
            json@ == request_shape(self@),
    {
        let mut members: Vec<Member> = Vec::new();
        members.push(
            Member { key: "jsonrpc".to_owned(), value: JsonValue::String("2.0".to_owned()) },
        );
        match self {
            Request::MethodCall(call) => {
                members.push(
                    Member { key: "method".to_owned(), value: JsonValue::String(call.method) },
                );
                let ghost head = members_view(members@);
                assert(head =~= seq![version_member(), method_member(call.method@)]);
                push_params(&mut members, call.params);
                let ghost body = members_view(members@);
                members.push(
                    Member {
                        key: "id".to_owned(),
                        value: JsonValue::Number(Number::PosInt(call.id)),
                    },
                );
                proof {
                    assert(members_view(members@) =~= body + seq![id_member(call.id)]);
                    lemma_object_view(members);
                }
                JsonValue::Object(members)
            },
            Request::Notification(note) => {
                members.push(
                    Member { key: "method".to_owned(), value: JsonValue::String(note.method) },
                );
                let ghost head = members_view(members@);
                assert(head =~= seq![version_member(), method_member(note.method@)]);
                push_params(&mut members, note.params);
                proof {
                    lemma_object_view(members);
                }
                JsonValue::Object(members)
            },
        }
    }
}

impl RequestEnvelope {
    /// The JSON value that stands for this envelope.
    pub fn into_json(self) -> (json: JsonValue)
        ensures
            json@ == envelope_shape(self@),
    {
        match self {
            RequestEnvelope::Single(request) => request.into_json(),
            RequestEnvelope::Batch(requests) => {
                let ghost sent = requests_view(requests@);
                let mut items: Vec<JsonValue> = Vec::with_capacity(requests.len());
                for request in it: requests.into_iter()
                    invariant
                        it.seq() == requests@,
                        sent == requests_view(requests@),
                        items.len() == it.index(),
                        forall|j: int| 0 <= j < it.index() ==> items[j]@ == request_shape(sent[j]),
                {
                    items.push(request.into_json());
                }
                proof {
                    lemma_array_view(items);
                    assert(values_view(items@) =~= Seq::new(
                        sent.len(),
                        |i: int| request_shape(sent[i]),
                    ));
                }
                JsonValue::Array(items)
            },
        }
    }
}

/// The keys that a request object may hold.
pub open spec fn request_keys() -> Seq<Seq<char>> {
    seq!["jsonrpc"@, "method"@, "params"@, "id"@]
}

/// The parameters that a slot holds: none where the member is missing, else
/// an array or an object; anything else holds no parameters.
pub open spec fn read_params(slot: Option<JsonView>) -> Option<ParamsView> {
    match slot {
        None => Some(ParamsView::Absent),
        Some(JsonView::Array(items)) => Some(ParamsView::Positional(items)),
        Some(JsonView::Object(members)) => Some(ParamsView::Named(members)),
        Some(_) => None,
    }
}

/// The request that a JSON value stands for, if it stands for one: an
/// object under the keys of a request alone, with the version tag, a method
/// name, parameters if any, and for a call its identifier.
pub open spec fn read_request(json: JsonView) -> Option<RequestView> {
    match json {
        JsonView::Object(members) => {
            if !keyed_by(members, request_keys()) {
                None
            } else if lookup(members, "jsonrpc"@) != Some(JsonView::String("2.0"@)) {
                None
            } else {
                match (lookup(members, "method"@), read_params(lookup(members, "params"@))) {
                    (Some(JsonView::String(method)), Some(params)) => match lookup(
                        members,
                        "id"@,
                    ) {
                        None => Some(
                            RequestView::Notification(NotificationView { method, params }),
                        ),
                        Some(id) => match read_correlation_id(id) {
                            Some(id) => Some(
                                RequestView::MethodCall(MethodCallView { method, params, id }),
                            ),
                            None => None,
                        },
                    },
                    _ => None,
                }
            }
        },
        _ => None,
    }
}

/// The value of a request that may be missing.
pub open spec fn request_slot_view(request: Option<Request>) -> Option<RequestView> {
    match request {
        Some(request) => Some(request@),
        None => None,
    }
}

fn take_params(slot: Option<JsonValue>) -> (params: Option<Params>)
    ensures
        match params {
            Some(params) => read_params(slot_view(slot)) == Some(params@),
            None => read_params(slot_view(slot)) is None,
        },
{
    match slot {
        None => Some(Params::Absent),
        Some(JsonValue::Array(items)) => {
            proof {
                lemma_array_view(items);
            }
            Some(Params::Positional(items))
        },
        Some(JsonValue::Object(members)) => {
            proof {
                lemma_object_view(members);
            }
            Some(Params::Named(members))
        },
        Some(_) => None,
    }
}

/// The keys of a request object are four different ones.
pub proof fn lemma_request_keys()
    ensures
        request_keys().len() == 4,
        forall|a: int, b: int|
            0 <= a < b < 4 ==> (#[trigger] request_keys()[a]) != (#[trigger] request_keys()[b]),
        request_keys().contains("jsonrpc"@),
        request_keys().contains("method"@),
        request_keys().contains("params"@),
        request_keys().contains("id"@),
{
    reveal_strlit("jsonrpc");
    reveal_strlit("method");
    reveal_strlit("params");
    reveal_strlit("id");
    let keys = request_keys();
    assert("method"@[0] != "params"@[0]);
    assert forall|a: int, b: int| 0 <= a < b < 4 implies (#[trigger] keys[a]) != (
    #[trigger] keys[b]) by {
        if a != 1 || b != 2 {
            assert(keys[a].len() != keys[b].len());
        }
    }
}

fn request_key_names() -> (keys: Vec<String>)
    ensures
        keys.len() == 4,
        keys_view(keys@) == request_keys(),
        forall|a: int, b: int| 0 <= a < b < keys.len() ==> keys[a]@ != keys[b]@,
{
    let mut keys: Vec<String> = Vec::with_capacity(4);
    keys.push("jsonrpc".to_owned());
    keys.push("method".to_owned());
    keys.push("params".to_owned());
    keys.push("id".to_owned());
    proof {
        lemma_request_keys();
    }
    keys
}

impl Request {
    /// Reads a request from the JSON value that stands for it. `None` where
    /// the value stands for none.
    pub fn from_json(json: JsonValue) -> (request: Option<Request>)
        ensures
            request_slot_view(request) == read_request(json@),
    {
        match json {
            JsonValue::Object(members) => {
                proof {
                    lemma_object_view(members);
                }
                let keys = request_key_names();
                let mut slots = match sort_by_key(members, &keys) {
                    Some(slots) => slots,
                    None => {
                        return None;
                    },
                };
                let id_slot = take_slot(&mut slots);
                let params_slot = take_slot(&mut slots);
                let method_slot = take_slot(&mut slots);
                let version_slot = take_slot(&mut slots);
                if !is_version_tag(&version_slot) {
                    return None;
                }
                let method = match method_slot {
                    Some(JsonValue::String(method)) => method,
                    _ => {
                        return None;
                    },
                };
                let params = match take_params(params_slot) {
                    Some(params) => params,
                    None => {
                        return None;
                    },
                };
                match id_slot {
                    None => Some(
                        Request::Notification(Notification { jsonrpc: Version::V2, method, params }),
                    ),
                    Some(JsonValue::Number(number)) => match number_to_id(&number) {
                        Some(id) => Some(
                            Request::MethodCall(
                                MethodCall { jsonrpc: Version::V2, method, params, id },
                            ),
                        ),
                        None => None,
                    },
                    Some(_) => None,
                }
            },
            _ => None,
        }
    }
}

/// Reading the JSON object of a request gives the request back.
pub proof fn lemma_request_round_trip(request: RequestView)
    ensures
        read_request(request_shape(request)) == Some(request),
{
    lemma_request_keys();
    reveal_with_fuel(lookup, 5);
}

} // verus!
