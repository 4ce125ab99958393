//! The errors of the validator and of the client.

use crate::response::{RpcError, RpcErrorView};
use vstd::prelude::*;

verus! {

/// The structural kind of a response, or of the request it should answer.
#[derive(Clone, Copy, Debug, PartialEq, Eq)]
pub enum Shape {
    Single,
    Batch,
    Notification,
}

/// What is wrong where a response of one kind answers a request of another.
pub open spec fn mismatch_message(expected: Shape, received: Shape) -> Seq<char> {
    match (expected, received) {
        (Shape::Single, Shape::Batch) => "batch response to single request"@,
        (Shape::Single, Shape::Notification) => "notification response to request"@,
        (Shape::Batch, Shape::Single) => "single response to batch request"@,
        (Shape::Batch, Shape::Notification) => "notification response to batch request"@,
        _ => "response does not fit the request"@,
    }
}

fn mismatch_text(expected: Shape, received: Shape) -> (text: String)
    ensures
        text@ == mismatch_message(expected, received),
{
    match (expected, received) {
        (Shape::Single, Shape::Batch) => "batch response to single request".to_owned(),
        (Shape::Single, Shape::Notification) => "notification response to request".to_owned(),
        (Shape::Batch, Shape::Single) => "single response to batch request".to_owned(),
        (Shape::Batch, Shape::Notification) => "notification response to batch request".to_owned(),
        _ => "response does not fit the request".to_owned(),
    }
}

/// Why a response was not accepted.
#[derive(Clone, Debug, PartialEq, Eq)]
pub enum ErrorKind {
    /// The response's kind does not fit the request's.
    ShapeMismatch { expected: Shape, received: Shape },
    /// An answer carries an identifier that is not awaited, or not awaited any more.
    InvalidId,
    /// The server answered a call with a well-formed error object.
    RpcError(RpcError),
    /// Any other violation of the protocol.
    Custom(String),
}

/// The mathematical value of an [`ErrorKind`].
pub enum ErrorKindView {
    ShapeMismatch { expected: Shape, received: Shape },
    InvalidId,
    RpcError(RpcErrorView),
    Custom(Seq<char>),
}

impl View for ErrorKind {
    type V = ErrorKindView;

    open spec fn view(&self) -> ErrorKindView {
        match *self {
            ErrorKind::ShapeMismatch { expected, received } => ErrorKindView::ShapeMismatch {
                expected,
                received,
            },
            ErrorKind::InvalidId => ErrorKindView::InvalidId,
            ErrorKind::RpcError(error) => ErrorKindView::RpcError(error@),
            ErrorKind::Custom(message) => ErrorKindView::Custom(message@),
        }
    }
}

/// A failure of the channel below this layer. It is passed through as it came.
#[derive(Clone, Debug, PartialEq, Eq)]
pub struct TransportError {
    pub message: String,
}

/// What a caller of the client gets when an operation fails.
#[derive(Clone, Debug, PartialEq, Eq)]
pub enum ClientError {
    /// The channel failed.
    Transport(TransportError),
    /// The response's kind does not fit the request's.
    ShapeMismatch { expected: Shape, received: Shape },
    /// An answer carries an identifier that is not awaited, or not awaited any more.
    InvalidId,
    /// The server answered a call with a well-formed error object.
    RpcError(RpcError),
    /// Any other violation of the protocol.
    Custom(String),
}

/// The mathematical value of a [`ClientError`].
pub enum ClientErrorView {
    Transport(Seq<char>),
    ShapeMismatch { expected: Shape, received: Shape },
    InvalidId,
    RpcError(RpcErrorView),
    Custom(Seq<char>),
}

impl View for ClientError {
    type V = ClientErrorView;

    open spec fn view(&self) -> ClientErrorView {
        match *self {
            ClientError::Transport(error) => ClientErrorView::Transport(error.message@),
            ClientError::ShapeMismatch { expected, received } => ClientErrorView::ShapeMismatch {
                expected,
                received,
            },
            ClientError::InvalidId => ClientErrorView::InvalidId,
            ClientError::RpcError(error) => ClientErrorView::RpcError(error@),
            ClientError::Custom(message) => ClientErrorView::Custom(message@),
        }
    }
}

impl ErrorKindView {
    /// The error in words. A server error speaks with the server's message.
    pub open spec fn message(self) -> Seq<char> {
        match self {
            ErrorKindView::ShapeMismatch { expected, received } => mismatch_message(
                expected,
                received,
            ),
            ErrorKindView::InvalidId => "invalid request id"@,
            ErrorKindView::RpcError(error) => error.message,
            ErrorKindView::Custom(message) => message,
        }
    }

    /// The client error that stands for this validator error.
    pub open spec fn to_client(self) -> ClientErrorView {
        match self {
            ErrorKindView::ShapeMismatch { expected, received } => ClientErrorView::ShapeMismatch {
                expected,
                received,
            },
            ErrorKindView::InvalidId => ClientErrorView::InvalidId,
            ErrorKindView::RpcError(error) => ClientErrorView::RpcError(error),
            ErrorKindView::Custom(message) => ClientErrorView::Custom(message),
        }
    }
}

impl ClientErrorView {
    /// The error in words. A failure of the channel speaks with the
    /// channel's message, a server error with the server's.
    pub open spec fn message(self) -> Seq<char> {
        match self {
            ClientErrorView::Transport(message) => message,
            ClientErrorView::ShapeMismatch { expected, received } => mismatch_message(
                expected,
                received,
            ),
            ClientErrorView::InvalidId => "invalid request id"@,
            ClientErrorView::RpcError(error) => error.message,
            ClientErrorView::Custom(message) => message,
        }
    }
}

impl ErrorKind {
    /// The error in words.
    pub fn message(&self) -> (text: String)
        ensures
            text@ == self@.message(),
    {
        match self {
            ErrorKind::ShapeMismatch { expected, received } => mismatch_text(*expected, *received),
            ErrorKind::InvalidId => "invalid request id".to_owned(),
            ErrorKind::RpcError(error) => error.message.clone(),
            ErrorKind::Custom(message) => message.clone(),
        }
    }
}

impl ClientError {
    /// The error in words.
    pub fn message(&self) -> (text: String)
        ensures
            text@ == self@.message(),
    {
        match self {
            ClientError::Transport(error) => error.message.clone(),
            ClientError::ShapeMismatch { expected, received } => mismatch_text(
                *expected,
                *received,
            ),
            ClientError::InvalidId => "invalid request id".to_owned(),
            ClientError::RpcError(error) => error.message.clone(),
            ClientError::Custom(message) => message.clone(),
        }
    }

    /// Carries a validator error over, variant by variant.
    pub fn from_kind(kind: ErrorKind) -> (error: ClientError)
        ensures
            error@ == kind@.to_client(),
    {
        match kind {
            ErrorKind::ShapeMismatch { expected, received } => ClientError::ShapeMismatch {
                expected,
                received,
            },
            ErrorKind::InvalidId => ClientError::InvalidId,
            ErrorKind::RpcError(error) => ClientError::RpcError(error),
            ErrorKind::Custom(message) => ClientError::Custom(message),
        }
    }

    /// Wraps a failure of the channel.
    pub fn from_transport(error: TransportError) -> (out: ClientError)
        ensures
            out@ == ClientErrorView::Transport(error.message@),
    {
        ClientError::Transport(error)
    }
}

} // verus!
