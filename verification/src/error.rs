//! What can go wrong while a message is dispatched.

use vstd::prelude::*;

verus! {

/// Why a handler could not produce a text for a capture.
#[derive(Debug, Clone, PartialEq, Eq)]
pub enum FailureReason {
    /// The upstream service could not be reached or turned the request down.
    Upstream(String),
    /// The upstream service answered, but a required field of the answer was
    /// missing or of the wrong type.
    ContractViolation(String),
}

/// A handler's failure as contracts see it.
pub enum FailureView {
    Upstream(Seq<char>),
    ContractViolation(Seq<char>),
}

impl View for FailureReason {
    type V = FailureView;

    open spec fn view(&self) -> FailureView {
        match *self {
            FailureReason::Upstream(detail) => FailureView::Upstream(detail@),
            FailureReason::ContractViolation(detail) => FailureView::ContractViolation(detail@),
        }
    }
}

impl FailureView {
    /// The text under which the failure is reported.
    pub open spec fn diagnostic(self) -> Seq<char> {
        match self {
            FailureView::Upstream(detail) => detail,
            FailureView::ContractViolation(detail) => detail,
        }
    }
}

impl FailureReason {
    /// The text under which the failure is reported.
    pub fn diagnostic(&self) -> (text: String)
        ensures
            text@ == self@.diagnostic(),
    {
        match self {
            FailureReason::Upstream(detail) => detail.clone(),
            FailureReason::ContractViolation(detail) => detail.clone(),
        }
    }
}

/// What a handler returns, as contracts see it.
pub type Handled = Result<Seq<char>, FailureView>;

/// The contract-level value of what a handler returned.
pub open spec fn handled_view(r: Result<String, FailureReason>) -> Handled {
    match r {
        Ok(text) => Ok(text@),
        Err(reason) => Err(reason@),
    }
}

/// Why a subscriber could not answer a message.
#[derive(Debug, Clone, PartialEq, Eq)]
pub enum DispatchError {
    /// The message names no channel and no sender to reply to.
    NoReplyTarget,
    /// The message carries no free text.
    NoMessageText,
    /// One or more handlers failed; the text holds all their diagnostics.
    HandlerFailure(String),
}

/// A dispatch error as contracts see it.
pub enum DispatchErrorView {
    NoReplyTarget,
    NoMessageText,
    HandlerFailure(Seq<char>),
}

impl View for DispatchError {
    type V = DispatchErrorView;

    open spec fn view(&self) -> DispatchErrorView {
        match *self {
            DispatchError::NoReplyTarget => DispatchErrorView::NoReplyTarget,
            DispatchError::NoMessageText => DispatchErrorView::NoMessageText,
            DispatchError::HandlerFailure(text) => DispatchErrorView::HandlerFailure(text@),
        }
    }
}

impl DispatchErrorView {
    /// The text under which the error is reported.
    pub open spec fn message(self) -> Seq<char> {
        match self {
            DispatchErrorView::NoReplyTarget => "Unable to determine reply target."@,
            DispatchErrorView::NoMessageText => "No message text."@,
            DispatchErrorView::HandlerFailure(text) => text,
        }
    }
}

impl DispatchError {
    /// The text under which the error is reported.
    pub fn message(&self) -> (text: String)
        ensures
            text@ == self@.message(),
    {
        match self {
            DispatchError::NoReplyTarget => "Unable to determine reply target.".to_owned(),
            DispatchError::NoMessageText => "No message text.".to_owned(),
            DispatchError::HandlerFailure(text) => text.clone(),
        }
    }
}

/// Why the transport gave up.
#[derive(Debug, Clone, PartialEq, Eq)]
pub struct TransportError {
    /// What the transport said about the failure.
    pub detail: String,
}

} // verus!
