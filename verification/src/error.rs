//! What can go wrong, and how a failure is shown to the user interface.

use crate::ipc::{ErrorInfo, ErrorInfoView, IPCResponse, IPCResponseView};
use vstd::prelude::*;
use vstd::string::StringExecFns;

verus! {

/// The kinds of failure of the control plane.
#[derive(Clone, Copy, Debug, PartialEq, Eq, Structural)]
pub enum ErrorKind {
    /// An engine was asked for that does not fit the request.
    Configuration,
    /// The rendering engine refused or failed an operation.
    Provider,
    /// A reserved engine was asked for.
    NotImplemented,
    /// A privacy or network policy holder failed.
    Policy,
    /// The event bus had nobody to deliver to.
    Internal,
}

impl ErrorKind {
    /// The code under which the user interface sees a failure of this kind.
    pub open spec fn code_text(self) -> Seq<char> {
        match self {
            ErrorKind::Configuration => "CONFIGURATION_ERROR"@,
            ErrorKind::Provider => "PROVIDER_ERROR"@,
            ErrorKind::NotImplemented => "NOT_IMPLEMENTED"@,
            ErrorKind::Policy => "POLICY_ERROR"@,
            ErrorKind::Internal => "INTERNAL_ERROR"@,
        }
    }

    pub fn code(&self) -> (s: &'static str)
        ensures
            s@ == self.code_text(),
    {
        match self {
            ErrorKind::Configuration => "CONFIGURATION_ERROR",
            ErrorKind::Provider => "PROVIDER_ERROR",
            ErrorKind::NotImplemented => "NOT_IMPLEMENTED",
            ErrorKind::Policy => "POLICY_ERROR",
            ErrorKind::Internal => "INTERNAL_ERROR",
        }
    }
}

/// A failure: its kind and the reason in words.
#[derive(Debug, PartialEq, Eq)]
pub struct BrowserError {
    pub kind: ErrorKind,
    pub message: String,
}

pub struct BrowserErrorView {
    pub kind: ErrorKind,
    pub message: Seq<char>,
}

impl BrowserErrorView {
    /// The error as the response envelope carries it.
    pub open spec fn info(self) -> ErrorInfoView {
        ErrorInfoView { code: self.kind.code_text(), message: self.message }
    }
}

impl View for BrowserError {
    type V = BrowserErrorView;

    open spec fn view(&self) -> BrowserErrorView {
        BrowserErrorView { kind: self.kind, message: self.message@ }
    }
}

impl Clone for BrowserError {
    fn clone(&self) -> (e: Self)
        ensures
            e == *self,
    {
        BrowserError { kind: self.kind, message: self.message.clone() }
    }
}

impl BrowserError {
    pub fn new(kind: ErrorKind, message: &str) -> (e: Self)
        ensures
            e@ == (BrowserErrorView { kind, message: message@ }),
    {
        BrowserError { kind, message: String::from_str(message) }
    }

    /// A failure whose message is a fixed lead followed by the reason.
    pub fn with_reason(kind: ErrorKind, lead: &str, reason: &str) -> (e: Self)
        ensures
            e@ == (BrowserErrorView { kind, message: lead@ + reason@ }),
    {
        BrowserError { kind, message: String::from_str(lead).concat(reason) }
    }

    pub fn to_error_info(&self) -> (info: ErrorInfo)
        ensures
            info@ == self@.info(),
    {
        ErrorInfo { code: String::from_str(self.kind.code()), message: self.message.clone() }
    }

    /// The failure in one line: its code, a colon and the message.
    pub fn to_string(&self) -> (s: String)
        ensures
            s@ == self@.kind.code_text() + ": "@ + self@.message,
    {
        String::from_str(self.kind.code()).concat(": ").concat(self.message.as_str())
    }
}

/// The envelope that answers a command with the given outcome.
pub open spec fn response_of(outcome: Result<(), BrowserErrorView>) -> IPCResponseView<()> {
    match outcome {
        Ok(_) => IPCResponseView { success: true, data: None, error: None },
        Err(e) => IPCResponseView { success: false, data: None, error: Some(e.info()) },
    }
}

/// An outcome with its error, if any, as a plain value.
pub open spec fn outcome_of(outcome: Result<(), BrowserError>) -> Result<(), BrowserErrorView> {
    match outcome {
        Ok(_) => Ok(()),
        Err(e) => Err(e@),
    }
}

/// Turns the outcome of a command into its response envelope.
pub fn respond(outcome: Result<(), BrowserError>) -> (response: IPCResponse<()>)
    ensures
        response@ == response_of(outcome_of(outcome)),
        response@.well_formed(),
{
    match outcome {
        Ok(_) => IPCResponse::ok(),
        Err(e) => IPCResponse::failure(e.to_error_info()),
    }
}

} // verus!
