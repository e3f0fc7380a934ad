//! Failures surfaced by listings, lookups and waiters.

use vstd::prelude::*;

verus! {

/// What went wrong, independent of the wording.
#[derive(Clone, Copy, Debug, PartialEq, Eq, Structural)]
pub enum ErrorKind {
    /// The resource does not exist, or no longer exists.
    ResourceNotFound,
    /// A lookup that must match one resource matched several.
    TooManyItems,
    /// A wait ran out of time before its condition held.
    OperationTimedOut,
    /// The service reported that the awaited change can no longer happen.
    OperationFailed,
    /// The caller may not perform the request.
    AccessDenied,
    /// The request conflicts with the state of the resource.
    Conflict,
    /// The service answered with something that cannot be understood.
    InvalidResponse,
    /// The service failed while handling the request.
    InternalServerError,
    /// The request never reached the service, or its answer never came back.
    ProtocolError,
}

/// A failure: its kind and a message for the user.
#[derive(Clone, Debug, PartialEq, Eq)]
pub struct Error {
    pub kind: ErrorKind,
    pub message: String,
}

impl Error {
    /// Builds an error of the given kind with the given message.
    pub fn new(kind: ErrorKind, message: String) -> (e: Error)
        ensures
            e.kind == kind,
            e.message == message,
    {
        Error { kind, message }
    }

    /// The kind of this error.
    pub fn kind(&self) -> (k: ErrorKind)
        ensures
            k == self.kind,
    {
        self.kind
    }

    /// The message of this error.
    pub fn message(&self) -> (m: &String)
        ensures
            *m == self.message,
    {
        &self.message
    }

    /// Whether this error says that the resource does not exist.
    pub fn is_not_found(&self) -> (b: bool)
        ensures
            b == (self.kind == ErrorKind::ResourceNotFound),
    {
        self.kind == ErrorKind::ResourceNotFound
    }
}

} // verus!
