//! Requests: method calls, notifications and batches, and their builders.

use crate::ids::{
    id_space, lemma_id_after_add, lemma_ids_distinct, lemma_successive_ids, successive_ids,
    CorrelationId, IdAllocator,
};
use crate::json::{members_view, values_view, JsonValue, JsonView, Member, MemberView};
use std::collections::HashSet;
use vstd::prelude::*;

verus! {

broadcast use vstd::std_specs::hash::group_hash_axioms;

/// The protocol version tag that every request and response carries.
#[derive(Clone, Copy, Debug, PartialEq, Eq)]
pub enum Version {
    /// JSON-RPC 2.0
    V2,
}

/// The parameters of a request: absent, positional or named.
#[derive(Clone, Debug, PartialEq, Eq)]
pub enum Params {
    Absent,
    Positional(Vec<JsonValue>),
    Named(Vec<Member>),
}

/// The mathematical value of [`Params`].
pub enum ParamsView {
    Absent,
    Positional(Seq<JsonView>),
    Named(Seq<MemberView>),
}

impl View for Params {
    type V = ParamsView;

    open spec fn view(&self) -> ParamsView {
        match *self {
            Params::Absent => ParamsView::Absent,
            Params::Positional(items) => ParamsView::Positional(values_view(items@)),
            Params::Named(members) => ParamsView::Named(members_view(members@)),
        }
    }
}

/// A request that expects a response, found again by its identifier.
#[derive(Clone, Debug, PartialEq, Eq)]
pub struct MethodCall {
    pub jsonrpc: Version,
    pub method: String,
    pub params: Params,
    pub id: CorrelationId,
}

/// A request that carries no identifier and expects no response.
#[derive(Clone, Debug, PartialEq, Eq)]
pub struct Notification {
    pub jsonrpc: Version,
    pub method: String,
    pub params: Params,
}

/// One request object.
#[derive(Clone, Debug, PartialEq, Eq)]
pub enum Request {
    MethodCall(MethodCall),
    Notification(Notification),
}

/// What is handed to the transport: one request, or a batch in order.
#[derive(Clone, Debug, PartialEq, Eq)]
pub enum RequestEnvelope {
    Single(Request),
    Batch(Vec<Request>),
}

/// The mathematical value of a [`MethodCall`].
pub struct MethodCallView {
    pub method: Seq<char>,
    pub params: ParamsView,
    pub id: u64,
}

/// The mathematical value of a [`Notification`].
pub struct NotificationView {
    pub method: Seq<char>,
    pub params: ParamsView,
}

/// The mathematical value of a [`Request`].
pub enum RequestView {
    MethodCall(MethodCallView),
    Notification(NotificationView),
}

/// The mathematical value of a [`RequestEnvelope`].
pub enum EnvelopeView {
    Single(RequestView),
    Batch(Seq<RequestView>),
}

impl View for MethodCall {
    type V = MethodCallView;

    open spec fn view(&self) -> MethodCallView {
        MethodCallView { method: self.method@, params: self.params@, id: self.id }
    }
}

impl View for Notification {
    type V = NotificationView;

    open spec fn view(&self) -> NotificationView {
        NotificationView { method: self.method@, params: self.params@ }
    }
}

impl View for Request {
    type V = RequestView;

    open spec fn view(&self) -> RequestView {
        match *self {
            Request::MethodCall(call) => RequestView::MethodCall(call@),
            Request::Notification(note) => RequestView::Notification(note@),
        }
    }
}

/// The values of a sequence of requests, element by element.
pub open spec fn requests_view(requests: Seq<Request>) -> Seq<RequestView> {
    Seq::new(requests.len(), |i: int| requests[i]@)
}

impl View for RequestEnvelope {
    type V = EnvelopeView;

    open spec fn view(&self) -> EnvelopeView {
        match *self {
            RequestEnvelope::Single(request) => EnvelopeView::Single(request@),
            RequestEnvelope::Batch(requests) => EnvelopeView::Batch(requests_view(requests@)),
        }
    }
}

/// A notification for `method` with `params`.
pub fn build_notification(method: String, params: Params) -> (request: Request)
    ensures
        request@ == RequestView::Notification(
            NotificationView { method: method@, params: params@ },
        ),
{
    Request::Notification(Notification { jsonrpc: Version::V2, method, params })
}

/// A call of `method` with `params`, to be answered under `id`.
pub fn build_call(method: String, params: Params, id: CorrelationId) -> (request: Request)
    ensures
        request@ == RequestView::MethodCall(MethodCallView { method: method@, params: params@, id }),
{
    Request::MethodCall(MethodCall { jsonrpc: Version::V2, method, params, id })
}

/// The calls of a batch built from `items` by a counter that stands at
/// `start`: the call at `i` carries the identifier of the allocation that
/// follows `i` earlier ones.
pub open spec fn batch_calls(items: Seq<(String, Params)>, start: u64) -> Seq<RequestView> {
    Seq::new(
        items.len(),
        |i: int|
            RequestView::MethodCall(
                MethodCallView {
                    method: items[i].0@,
                    params: items[i].1@,
                    id: IdAllocator::id_after(start, i as nat),
                },
            ),
    )
}

/// The identifiers that `count` allocations in a row hand out, from a
/// counter that stands at `start`, as a set.
pub open spec fn issued_ids(start: u64, count: nat) -> Set<u64> {
    successive_ids(start, count).to_set()
}

/// One more allocation adds its identifier to those issued, and that
/// identifier is a new one as long as the run is shorter than 2^64.
pub proof fn lemma_issued_ids_step(start: u64, count: nat)
    ensures
        issued_ids(start, count + 1) == issued_ids(start, count).insert(
            IdAllocator::id_after(start, count),
        ),
        count < id_space() ==> !issued_ids(start, count).contains(
            IdAllocator::id_after(start, count),
        ),
        issued_ids(start, 0) == Set::<u64>::empty(),
{
    let next = IdAllocator::id_after(start, count);
    let shorter = successive_ids(start, count);
    let longer = successive_ids(start, count + 1);
    lemma_successive_ids(start, count);
    lemma_successive_ids(start, count + 1);
    assert forall|id: u64| longer.to_set().contains(id) <==> shorter.to_set().insert(
        next,
    ).contains(id) by {
        if longer.contains(id) {
            let k = choose|k: int| 0 <= k < longer.len() && longer[k] == id;
            if k < count {
                assert(shorter[k] == id);
            }
        }
        if shorter.contains(id) {
            let k = choose|k: int| 0 <= k < shorter.len() && shorter[k] == id;
            assert(longer[k] == id);
        }
        if id == next {
            assert(longer[count as int] == id);
        }
    }
    if count < id_space() && shorter.contains(next) {
        let k = choose|k: int| 0 <= k < shorter.len() && shorter[k] == next;
        lemma_ids_distinct(start, k as nat, count);
    }
}

/// The calls of one batch carry pairwise distinct identifiers, as long as
/// the batch holds no more than 2^64 of them.
pub proof fn lemma_batch_ids_distinct(items: Seq<(String, Params)>, start: u64)
    requires
        items.len() <= id_space(),
    ensures
        forall|i: int, j: int|
            0 <= i < j < items.len() ==> (#[trigger] batch_calls(items, start)[i])->MethodCall_0.id
                != (#[trigger] batch_calls(items, start)[j])->MethodCall_0.id,
{
}

/// Builds a batch of calls, one per item and in their order, and takes one
/// fresh identifier from `alloc` for each. Returns the batch together with
/// the identifiers it carries, which are as many as the items.
pub fn build_batch(alloc: &mut IdAllocator, items: Vec<(String, Params)>) -> (built: (
    RequestEnvelope,
    HashSet<CorrelationId>,
))
    ensures
        built.0@ == EnvelopeView::Batch(batch_calls(items@, old(alloc)@)),
        built.1@ == issued_ids(old(alloc)@, items@.len()),
        built.1@.finite(),
        built.1@.len() == items@.len(),
        final(alloc)@ == IdAllocator::id_after(old(alloc)@, items@.len()),
{
    let ghost start = alloc@;
    let mut calls: Vec<Request> = Vec::new();
    let mut ids: HashSet<CorrelationId> = HashSet::new();
    proof {
        lemma_issued_ids_step(start, 0);
        lemma_id_after_add(start, 0, 0);
    }
    for item in it: items.into_iter()
        invariant
            it.seq() == items@,
            calls.len() == it.index(),
            forall|j: int| 0 <= j < it.index() ==> calls[j]@ == batch_calls(items@, start)[j],
            alloc@ == IdAllocator::id_after(start, it.index() as nat),
            ids@ == issued_ids(start, it.index() as nat),
            ids@.finite(),
            ids@.len() == it.index(),
    {
        let ghost k = it.index() as nat;
        let (method, params) = item;
        let id = alloc.next_id();
        proof {
            lemma_issued_ids_step(start, k);
            lemma_id_after_add(start, k, 1);
        }
        calls.push(build_call(method, params, id));
        ids.insert(id);
    }
    assert(requests_view(calls@) =~= batch_calls(items@, start));
    (RequestEnvelope::Batch(calls), ids)
}

} // verus!
