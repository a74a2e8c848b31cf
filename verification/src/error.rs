//! Errors of the controller.

use vstd::prelude::*;
use vstd::string::StringExecFns;

verus! {

/// All possible error kinds.
#[derive(Debug, Clone, Copy, PartialEq, Eq, Structural)]
pub enum ErrorKind {
    /// The discovery of devices failed.
    Discovery,
    /// A request could not be sent, or no response came back.
    Request,
    /// A sender was asked for a device or a route that does not exist.
    Sender,
    /// A response body did not hold the expected JSON value.
    JsonResponse,
    /// An event receiver could not be started.
    Events,
}

/// A controller error: its kind and a description of what happened.
#[derive(Debug, PartialEq)]
pub struct Error {
    kind: ErrorKind,
    description: String,
}

impl View for Error {
    type V = (ErrorKind, Seq<char>);

    closed spec fn view(&self) -> (ErrorKind, Seq<char>) {
        (self.kind, self.description@)
    }
}

impl Error {
    /// Creates an error of the given kind with the given description.
    #[must_use]
    pub fn new(kind: ErrorKind, description: &str) -> (error: Self)
        ensures
            error@ == (kind, description@),
    {
        Error { kind, description: String::from_str(description) }
    }

    /// Returns the kind of the error.
    #[must_use]
    pub fn kind(&self) -> (kind: ErrorKind)
        ensures
            kind == self@.0,
    {
        self.kind
    }

    /// Returns the description of the error.
    #[must_use]
    pub fn description(&self) -> (description: &str)
        ensures
            description@ == self@.1,
    {
        self.description.as_str()
    }
}

} // verus!
