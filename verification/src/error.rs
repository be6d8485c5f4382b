//! The ways in which a command can fail.

use crate::text::{decimal, push_digits};
use vstd::prelude::*;
use vstd::string::*;

verus! {

/// Why a command did not complete. Every failure ends the command: nothing
/// is retried and nothing is reported after it.
#[derive(Debug)]
pub enum RedfishError {
    /// The controller could not be reached; carries the transport's words.
    Transport(String),
    /// The controller answered with a status outside 200..=299.
    RequestFailed(u16),
    /// The response body is not JSON; carries the parser's words.
    Malformed(String),
    /// The response body is JSON of another shape than the resource asked for.
    Mismatch,
    /// The system does not advertise the capability that the action needs.
    Unsupported,
}

/// A failure as a mathematical value.
pub enum Failure {
    Transport(Seq<char>),
    RequestFailed(u16),
    Malformed(Seq<char>),
    Mismatch,
    Unsupported,
}

impl View for RedfishError {
    type V = Failure;

    open spec fn view(&self) -> Failure {
        match self {
            RedfishError::Transport(words) => Failure::Transport(words@),
            RedfishError::RequestFailed(status) => Failure::RequestFailed(*status),
            RedfishError::Malformed(words) => Failure::Malformed(words@),
            RedfishError::Mismatch => Failure::Mismatch,
            RedfishError::Unsupported => Failure::Unsupported,
        }
    }
}

impl DeepView for RedfishError {
    type V = Failure;

    open spec fn deep_view(&self) -> Failure {
        self@
    }
}

/// A result with what it carries as mathematical values.
pub open spec fn outcome<T: DeepView>(r: Result<T, RedfishError>) -> Result<T::V, Failure> {
    match r {
        Ok(x) => Ok(x.deep_view()),
        Err(e) => Err(e@),
    }
}

/// The message of a failed request with its status.
pub open spec fn request_failed_text(status: u16) -> Seq<char> {
    "Request Failed! - Status Code: "@ + decimal(status as int)
}

impl RedfishError {
    /// The message shown to the operator.
    pub fn message(&self) -> (r: String)
        ensures
            match *self {
                RedfishError::Transport(words) => r@ == words@,
                RedfishError::RequestFailed(status) => r@ == request_failed_text(status),
                RedfishError::Malformed(words) => r@ == words@,
                RedfishError::Mismatch => r@ == "Response does not match the requested resource"@,
                RedfishError::Unsupported => r@
                    == "Request Failed! Requested action not supported"@,
            },
    {
        match self {
            RedfishError::Transport(words) => words.clone(),
            RedfishError::RequestFailed(status) => {
                let mut out = String::from_str("Request Failed! - Status Code: ");
                push_digits(&mut out, *status as u64);
                out
            },
            RedfishError::Malformed(words) => words.clone(),
            RedfishError::Mismatch => String::from_str(
                "Response does not match the requested resource",
            ),
            RedfishError::Unsupported => String::from_str(
                "Request Failed! Requested action not supported",
            ),
        }
    }
}

} // verus!
