//! The client: it hands out identifiers, builds what goes to the transport
//! and judges what comes back. Sending and waiting are the caller's part.

use crate::error::{ClientError, ClientErrorView, TransportError};
use crate::ids::{CorrelationId, IdAllocator};
use crate::json::{values_view, JsonValue, JsonView};
use crate::request::{
    batch_calls, build_batch, build_call, build_notification, issued_ids, EnvelopeView,
    MethodCallView, NotificationView, Params, RequestEnvelope, RequestView,
};
use crate::response::{Response, ResponseView};
use crate::validate::{batch_verdict, single_verdict, validate_batch, validate_single};
use std::collections::HashSet;
use vstd::prelude::*;

verus! {

/// Default maximum request body size (10 MB).
pub const DEFAULT_MAX_BODY_SIZE_TEN_MB: u32 = 10 * 1024 * 1024;

/// HTTP configuration.
#[derive(Clone, Copy, Debug, PartialEq, Eq)]
pub struct HttpConfig {
    /// Maximum request body size in bytes.
    pub max_request_body_size: u32,
}

impl Default for HttpConfig {
    fn default() -> (config: HttpConfig)
        ensures
            config.max_request_body_size == DEFAULT_MAX_BODY_SIZE_TEN_MB,
    {
        HttpConfig { max_request_body_size: DEFAULT_MAX_BODY_SIZE_TEN_MB }
    }
}

/// The client side of the exchange with one server.
pub struct HttpClient {
    /// Where the transport sends to.
    target: String,
    /// What the transport is set up with.
    config: HttpConfig,
    /// Request identifiers, wrapping around when they overflow.
    request_id: IdAllocator,
}

/// The mathematical value of an [`HttpClient`].
pub struct HttpClientView {
    pub target: Seq<char>,
    pub config: HttpConfig,
    /// The identifier that the next call goes out under.
    pub next_id: u64,
}

impl View for HttpClient {
    type V = HttpClientView;

    closed spec fn view(&self) -> HttpClientView {
        HttpClientView { target: self.target@, config: self.config, next_id: self.request_id@ }
    }
}

impl HttpClientView {
    /// This client after `count` more identifiers have been handed out.
    pub open spec fn advanced(self, count: nat) -> HttpClientView {
        HttpClientView { next_id: IdAllocator::id_after(self.next_id, count), ..self }
    }
}

/// A call that is on its way: what is left of it until its response comes.
#[derive(Debug, PartialEq, Eq)]
pub struct PendingRequest {
    id: CorrelationId,
}

/// A batch that is on its way: what is left of it until its response comes.
#[derive(Debug, PartialEq, Eq)]
pub struct PendingBatch {
    ids: HashSet<CorrelationId>,
}

impl View for PendingRequest {
    type V = u64;

    /// The identifier the call went out under.
    closed spec fn view(&self) -> u64 {
        self.id
    }
}

impl View for PendingBatch {
    type V = Set<u64>;

    /// The identifiers the calls of the batch went out under.
    closed spec fn view(&self) -> Set<u64> {
        self.ids@
    }
}

/// The value of what the transport reports for a request that was sent.
pub open spec fn reply_view(reply: Result<Response, TransportError>) -> Result<
    ResponseView,
    Seq<char>,
> {
    match reply {
        Ok(response) => Ok(response@),
        Err(error) => Err(error.message@),
    }
}

/// What a single call ends with: a failure of the transport is handed on,
/// a response is judged against the identifier the call went out under.
pub open spec fn request_outcome(reply: Result<ResponseView, Seq<char>>, id: u64) -> Result<
    JsonView,
    ClientErrorView,
> {
    match reply {
        Err(failure) => Err(ClientErrorView::Transport(failure)),
        Ok(response) => match single_verdict(response, id) {
            Ok(value) => Ok(value),
            Err(kind) => Err(kind.to_client()),
        },
    }
}

/// What a batch ends with: a failure of the transport is handed on, a
/// response is judged against the identifiers the calls went out under.
pub open spec fn batch_outcome(reply: Result<ResponseView, Seq<char>>, ids: Set<u64>) -> Result<
    Seq<JsonView>,
    ClientErrorView,
> {
    match reply {
        Err(failure) => Err(ClientErrorView::Transport(failure)),
        Ok(response) => match batch_verdict(response, ids) {
            Ok(values) => Ok(values),
            Err(kind) => Err(kind.to_client()),
        },
    }
}

impl HttpClient {
    /// Initializes a new client for the server at `target`. The first call
    /// goes out under the identifier zero.
    pub fn new(target: &str, config: HttpConfig) -> (client: HttpClient)
        ensures
            client@ == (HttpClientView { target: target@, config, next_id: 0 }),
    {
        HttpClient { target: target.to_owned(), config, request_id: IdAllocator::new() }
    }

    /// Where the transport sends to.
    pub fn target(&self) -> (target: &str)
        ensures
            target@ == self@.target,
    {
        self.target.as_str()
    }

    /// What the transport is set up with.
    pub fn config(&self) -> (config: HttpConfig)
        ensures
            config == self@.config,
    {
        self.config
    }

    /// Builds the notification to send to the server. Nothing is awaited
    /// for it, and the client is left as it was.
    pub fn notification(&self, method: String, params: Params) -> (envelope: RequestEnvelope)
        ensures
            envelope@ == EnvelopeView::Single(
                RequestView::Notification(NotificationView { method: method@, params: params@ }),
            ),
    {
        RequestEnvelope::Single(build_notification(method, params))
    }

    /// What a notification ends with once the transport has taken it: a
    /// failure of the transport is handed on.
    pub fn notification_sent(sent: Result<(), TransportError>) -> (outcome: Result<
        (),
        ClientError,
    >)
        ensures
            match sent {
                Ok(_) => outcome is Ok,
                Err(failure) => outcome matches Err(error) && error@ == ClientErrorView::Transport(
                    failure.message@,
                ),
            },
    {
        match sent {
            Ok(_) => Ok(()),
            Err(failure) => Err(ClientError::from_transport(failure)),
        }
    }

    /// Starts a call: takes the next identifier and builds the request to
    /// send under it. The second part of the result judges the response.
    pub fn request(&mut self, method: String, params: Params) -> (started: (
        RequestEnvelope,
        PendingRequest,
    ))
        ensures
            started.0@ == EnvelopeView::Single(
                RequestView::MethodCall(
                    MethodCallView { method: method@, params: params@, id: old(self)@.next_id },
                ),
            ),
            started.1@ == old(self)@.next_id,
            final(self)@ == old(self)@.advanced(1),
    {
        let id = self.request_id.next_id();
        (RequestEnvelope::Single(build_call(method, params, id)), PendingRequest { id })
    }

    /// Starts a batch of calls: takes one identifier per call, in their
    /// order, and builds the batch to send. The second part of the result
    /// judges the response.
    pub fn batch_request(&mut self, requests: Vec<(String, Params)>) -> (started: (
        RequestEnvelope,
        PendingBatch,
    ))
        ensures
            started.0@ == EnvelopeView::Batch(batch_calls(requests@, old(self)@.next_id)),
            started.1@ == issued_ids(old(self)@.next_id, requests@.len()),
            started.1@.finite(),
            started.1@.len() == requests@.len(),
            final(self)@ == old(self)@.advanced(requests@.len()),
    {
        let (envelope, ids) = build_batch(&mut self.request_id, requests);
        (envelope, PendingBatch { ids })
    }
}

impl PendingRequest {
    /// The identifier the call went out under.
    pub fn id(&self) -> (id: CorrelationId)
        ensures
            id == self@,
    {
        self.id
    }

    /// Ends the call with what the transport reports for it.
    pub fn complete(self, reply: Result<Response, TransportError>) -> (outcome: Result<
        JsonValue,
        ClientError,
    >)
        ensures
            match outcome {
                Ok(value) => request_outcome(reply_view(reply), self@) == Ok::<
                    JsonView,
                    ClientErrorView,
                >(value@),
                Err(error) => request_outcome(reply_view(reply), self@) == Err::<
                    JsonView,
                    ClientErrorView,
                >(error@),
            },
    {
        match reply {
            Err(failure) => Err(ClientError::from_transport(failure)),
            Ok(response) => match validate_single(response, self.id) {
                Ok(value) => Ok(value),
                Err(kind) => Err(ClientError::from_kind(kind)),
            },
        }
    }
}

impl PendingBatch {
    /// The identifiers the calls of the batch went out under.
    pub fn ids(&self) -> (ids: &HashSet<CorrelationId>)
        ensures
            ids@ == self@,
    {
        &self.ids
    }

    /// Ends the batch with what the transport reports for it.
    pub fn complete(self, reply: Result<Response, TransportError>) -> (outcome: Result<
        Vec<JsonValue>,
        ClientError,
    >)
        ensures
            match outcome {
                Ok(values) => batch_outcome(reply_view(reply), self@) == Ok::<
                    Seq<JsonView>,
                    ClientErrorView,
                >(values_view(values@)),
                Err(error) => batch_outcome(reply_view(reply), self@) == Err::<
                    Seq<JsonView>,
                    ClientErrorView,
                >(error@),
            },
    {
        match reply {
            Err(failure) => Err(ClientError::from_transport(failure)),
            Ok(response) => match validate_batch(response, self.ids) {
                Ok(values) => Ok(values),
                Err(kind) => Err(ClientError::from_kind(kind)),
            },
        }
    }
}

} // verus!
