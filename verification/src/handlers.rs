//! The error of a request handler.

use vstd::prelude::*;
use vstd::string::StringExecFns;

verus! {

/// Why a handler gave up.
#[derive(Debug)]
pub enum HandleError {
    /// The handler ran and failed.
    HandlerFailed(String),
    /// There is no handler of that name.
    HandlerNotFound(String),
    /// The account may not use the handler, or does not exist.
    InvaildUser(String),
}

impl HandleError {
    /// The error in words.
    pub open spec fn message_of(self) -> Seq<char> {
        match self {
            HandleError::HandlerFailed(reason) => "Handler failed: "@ + reason@,
            HandleError::HandlerNotFound(name) => "Handler not found: "@ + name@,
            HandleError::InvaildUser(name) => "Invalid user: "@ + name@,
        }
    }

    /// The error in words.
    pub fn message(&self) -> (message: String)
        ensures
            message@ == self.message_of(),
    {
        match self {
            HandleError::HandlerFailed(reason) => String::from_str("Handler failed: ").concat(
                reason.as_str(),
            ),
            HandleError::HandlerNotFound(name) => String::from_str("Handler not found: ").concat(
                name.as_str(),
            ),
            HandleError::InvaildUser(name) => String::from_str("Invalid user: ").concat(
                name.as_str(),
            ),
        }
    }

    /// The failure of a handler for the given reason.
    pub fn failed(reason: &str) -> (error: HandleError)
        ensures
            error matches HandleError::HandlerFailed(words) && words@ == reason@,
    {
        HandleError::HandlerFailed(String::from_str(reason))
    }
}

impl From<String> for HandleError {
    fn from(value: String) -> (error: HandleError) {
        HandleError::HandlerFailed(value)
    }
}

impl vstd::std_specs::convert::FromSpecImpl<String> for HandleError {
    open spec fn obeys_from_spec() -> bool {
        true
    }

    open spec fn from_spec(value: String) -> HandleError {
        HandleError::HandlerFailed(value)
    }
}

} // verus!
