//! What can go wrong, by the operation that failed.
//!
//! Every error keeps the cause that the transport or the service gave, as
//! text, and can describe itself in one line for the operator.

use crate::text::{decimal, decimal_text};
use vstd::prelude::*;
use vstd::string::StringExecFns;

verus! {

/// The connection could not be established: the endpoint was unreachable,
/// the handshake was rejected, or the name did not resolve.
#[derive(Debug, PartialEq, Eq)]
pub struct ConnectError {
    pub cause: String,
}

impl View for ConnectError {
    type V = Seq<char>;

    open spec fn view(&self) -> Seq<char> {
        self.cause@
    }
}

/// The call failed after the connection had been established.
#[derive(Debug, PartialEq, Eq)]
pub enum CallError {
    /// The connection dropped or timed out before a reply arrived.
    Transport(String),
    /// A reply arrived, but its bytes are not a response message.
    Decode(String),
    /// The service answered with an error status in place of a reply.
    Remote { code: i32, message: String },
}

/// The mathematical value of a [`CallError`].
pub enum CallErrorView {
    Transport(Seq<char>),
    Decode(Seq<char>),
    Remote { code: i32, message: Seq<char> },
}

impl View for CallError {
    type V = CallErrorView;

    open spec fn view(&self) -> CallErrorView {
        match *self {
            CallError::Transport(cause) => CallErrorView::Transport(cause@),
            CallError::Decode(cause) => CallErrorView::Decode(cause@),
            CallError::Remote { code, message } => CallErrorView::Remote { code, message: message@ },
        }
    }
}

/// The one error of a run: a run that fails, fails once.
#[derive(Debug, PartialEq, Eq)]
pub enum Failure {
    Connect(ConnectError),
    Call(CallError),
}

/// The mathematical value of a [`Failure`].
pub enum FailureView {
    Connect(Seq<char>),
    Call(CallErrorView),
}

impl View for Failure {
    type V = FailureView;

    open spec fn view(&self) -> FailureView {
        match *self {
            Failure::Connect(error) => FailureView::Connect(error@),
            Failure::Call(error) => FailureView::Call(error@),
        }
    }
}

/// The error of a call that ended with a status in place of a reply.
///
/// `dropped` says that the status was made up on this side because the
/// connection failed under the call; the status then carries the cause of
/// that failure as its message. Every other status is the service's own.
pub open spec fn status_error(code: i32, message: Seq<char>, dropped: bool) -> CallErrorView {
    if dropped {
        CallErrorView::Transport(message)
    } else {
        CallErrorView::Remote { code, message }
    }
}

/// The line that describes a failed connect with the given cause.
pub open spec fn connect_text(cause: Seq<char>) -> Seq<char> {
    "connect failed: "@ + cause
}

/// The line that describes a failed call.
pub open spec fn call_text(error: CallErrorView) -> Seq<char> {
    match error {
        CallErrorView::Transport(cause) => "transport failure: "@ + cause,
        CallErrorView::Decode(cause) => "decode failure: "@ + cause,
        CallErrorView::Remote { code, message } => "remote failure (status "@ + decimal(
            code as int,
        ) + "): "@ + message,
    }
}

/// The line that describes a failed run.
pub open spec fn failure_text(failure: FailureView) -> Seq<char> {
    match failure {
        FailureView::Connect(cause) => connect_text(cause),
        FailureView::Call(error) => call_text(error),
    }
}

impl ConnectError {
    /// A connect error with the given cause.
    pub fn new(cause: &str) -> (error: ConnectError)
        ensures
            error@ == cause@,
    {
        ConnectError { cause: String::from_str(cause) }
    }

    /// One line for the operator: the kind of failure, then its cause.
    pub fn describe(&self) -> (text: String)
        ensures
            text@ == connect_text(self@),
    {
        String::from_str("connect failed: ").concat(self.cause.as_str())
    }
}

impl CallError {
    /// The error of a call that ended with the status `code` and
    /// `message`: a transport failure where the connection dropped under
    /// the call, and else the failure that the service reported.
    pub fn from_status(code: i32, message: String, dropped: bool) -> (error: CallError)
        ensures
            error@ == status_error(code, message@, dropped),
    {
        if dropped {
            CallError::Transport(message)
        } else {
            CallError::Remote { code, message }
        }
    }

    /// The error of a call whose reply did not decode, for the reason
    /// `cause`.
    pub fn undecodable(cause: String) -> (error: CallError)
        ensures
            error@ == CallErrorView::Decode(cause@),
    {
        CallError::Decode(cause)
    }

    /// One line for the operator: the kind of failure, then its cause.
    pub fn describe(&self) -> (text: String)
        ensures
            text@ == call_text(self@),
    {
        match self {
            CallError::Transport(cause) => String::from_str("transport failure: ").concat(
                cause.as_str(),
            ),
            CallError::Decode(cause) => String::from_str("decode failure: ").concat(cause.as_str()),
            CallError::Remote { code, message } => String::from_str(
                "remote failure (status ",
            ).concat(decimal_text(*code).as_str()).concat("): ").concat(message.as_str()),
        }
    }
}

impl Failure {
    /// One line for the operator: the kind of failure, then its cause.
    pub fn describe(&self) -> (text: String)
        ensures
            text@ == failure_text(self@),
    {
        match self {
            Failure::Connect(error) => error.describe(),
            Failure::Call(error) => error.describe(),
        }
    }
}

} // verus!
