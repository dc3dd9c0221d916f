//! The failure taxonomy for configuration acquisition: a small closed set of
//! error kinds paired with a human-readable message.

use vstd::prelude::*;

verus! {

/// The category of a configuration-loading failure.
#[derive(Clone, Copy, Debug, PartialEq, Eq, Structural)]
pub enum ErrorKind {
    /// A required environment variable was not set (or was unreadable).
    EnvironmentVariableMissing,
    /// A variable was present but could not be coerced to the expected type.
    ParseFailure,
}

/// An immutable failure value: a kind plus a free-text message naming the
/// offending variable and the underlying cause.
#[derive(Debug)]
pub struct Exception {
    kind: ErrorKind,
    message: String,
}

/// The mathematical content of an `Exception`: its kind and the characters
/// of its message.
pub struct ExceptionModel {
    pub kind: ErrorKind,
    pub message: Seq<char>,
}

impl View for Exception {
    type V = ExceptionModel;

    closed spec fn view(&self) -> ExceptionModel {
        ExceptionModel { kind: self.kind, message: self.message@ }
    }
}

impl Exception {
    /// Pairs a kind with a message; never fails, never mutated afterwards.
    pub fn new(kind: ErrorKind, message: &str) -> (r: Exception)
        ensures
            r@.kind == kind,
            r@.message == message@,
    {
        Exception { kind, message: message.to_owned() }
    }

    /// The failure category, for callers that dispatch on it.
    pub fn get_kind(&self) -> (k: ErrorKind)
        ensures
            k == self@.kind,
    {
        self.kind
    }

    /// The human-readable description of the failure.
    pub fn get_message(&self) -> (m: &str)
        ensures
            m@ == self@.message,
    {
        self.message.as_str()
    }
}

} // verus!
