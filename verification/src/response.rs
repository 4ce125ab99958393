//! Responses as the transport hands them over.

use crate::ids::{Id, IdView};
use crate::json::{JsonValue, JsonView};
use crate::request::{Notification, NotificationView, Version};
use vstd::prelude::*;

verus! {

/// The error object of a failed call, as the server sent it.
#[derive(Clone, Debug, PartialEq, Eq)]
pub struct RpcError {
    pub code: i64,
    pub message: String,
    pub data: Option<JsonValue>,
}

/// The mathematical value of an [`RpcError`].
pub struct RpcErrorView {
    pub code: int,
    pub message: Seq<char>,
    pub data: Option<JsonView>,
}

impl View for RpcError {
    type V = RpcErrorView;

    open spec fn view(&self) -> RpcErrorView {
        RpcErrorView {
            code: self.code as int,
            message: self.message@,
            data: match self.data {
                Some(value) => Some(value@),
                None => None,
            },
        }
    }
}

/// The answer to one method call.
#[derive(Clone, Debug, PartialEq, Eq)]
pub enum Output {
    Success { jsonrpc: Version, result: JsonValue, id: Id },
    Failure { jsonrpc: Version, error: RpcError, id: Id },
}

/// The mathematical value of an [`Output`].
pub enum OutputView {
    Success { result: JsonView, id: IdView },
    Failure { error: RpcErrorView, id: IdView },
}

impl View for Output {
    type V = OutputView;

    open spec fn view(&self) -> OutputView {
        match *self {
            Output::Success { jsonrpc, result, id } => OutputView::Success {
                result: result@,
                id: id@,
            },
            Output::Failure { jsonrpc, error, id } => OutputView::Failure {
                error: error@,
                id: id@,
            },
        }
    }
}

impl OutputView {
    /// The identifier the answer carries.
    pub open spec fn id(self) -> IdView {
        match self {
            OutputView::Success { id, .. } => id,
            OutputView::Failure { id, .. } => id,
        }
    }

    /// What the answer holds: the result of the call, or the server's error.
    pub open spec fn payload(self) -> Result<JsonView, RpcErrorView> {
        match self {
            OutputView::Success { result, .. } => Ok(result),
            OutputView::Failure { error, .. } => Err(error),
        }
    }
}

impl Output {
    /// The identifier the answer carries.
    pub fn id(&self) -> (id: &Id)
        ensures
            id@ == self@.id(),
    {
        match self {
            Output::Success { id, .. } => id,
            Output::Failure { id, .. } => id,
        }
    }

    /// Takes the answer apart: the result of the call, or the server's error.
    pub fn into_payload(self) -> (payload: Result<JsonValue, RpcError>)
        ensures
            match payload {
                Ok(value) => self@.payload() == Ok::<JsonView, RpcErrorView>(value@),
                Err(error) => self@.payload() == Err::<JsonView, RpcErrorView>(error@),
            },
    {
        match self {
            Output::Success { result, .. } => Ok(result),
            Output::Failure { error, .. } => Err(error),
        }
    }
}

/// What came back from the transport for one envelope.
#[derive(Clone, Debug, PartialEq, Eq)]
pub enum Response {
    /// The answer to a single call.
    Single(Output),
    /// The answers to a batch, in the order received.
    Batch(Vec<Output>),
    /// A notification in place of an answer.
    Notif(Notification),
}

/// The mathematical value of a [`Response`].
pub enum ResponseView {
    Single(OutputView),
    Batch(Seq<OutputView>),
    Notif(NotificationView),
}

/// The values of a sequence of answers, element by element.
pub open spec fn outputs_view(outputs: Seq<Output>) -> Seq<OutputView> {
    Seq::new(outputs.len(), |i: int| outputs[i]@)
}

impl View for Response {
    type V = ResponseView;

    open spec fn view(&self) -> ResponseView {
        match *self {
            Response::Single(output) => ResponseView::Single(output@),
            Response::Batch(outputs) => ResponseView::Batch(outputs_view(outputs@)),
            Response::Notif(note) => ResponseView::Notif(note@),
        }
    }
}

} // verus!
