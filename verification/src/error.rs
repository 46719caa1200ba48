//! Errors, each tagged with the operation that failed.

use vstd::prelude::*;

verus! {

/// The operations of a security context that can fail.
#[derive(Clone, Copy, Debug, PartialEq, Eq, Structural)]
pub enum Operation {
    Construct,
    Step,
    Wrap,
    Unwrap,
    TimeToLive,
    Client,
}

/// The families of error a caller can tell apart.
#[derive(Clone, Copy, Debug, PartialEq, Eq, Structural)]
pub enum ErrorKind {
    /// A principal could not be resolved or no credential was available.
    Construction,
    /// A handshake token was missing or rejected.
    Handshake,
    /// A message could not be protected or unprotected.
    Protection,
    /// The context could not report its remaining lifetime.
    Lifetime,
    /// The peer's identity could not be supplied.
    Identity,
}

/// Why an operation failed.
#[derive(Clone, Copy, Debug, PartialEq, Eq, Structural)]
pub enum Cause {
    /// A handshake round was attempted without the token it needs.
    DefectiveToken,
    /// The operation needs an established context and the handshake has not
    /// completed.
    NotEstablished,
    /// The mechanism reported a failure, with its major and minor status.
    Mechanism { major: u32, minor: u32 },
}

/// A failed operation and its cause.
#[derive(Clone, Copy, Debug, PartialEq, Eq, Structural)]
pub struct Error {
    pub operation: Operation,
    pub cause: Cause,
}

/// The family of the errors that `operation` produces.
pub open spec fn kind_of(operation: Operation) -> ErrorKind {
    match operation {
        Operation::Construct => ErrorKind::Construction,
        Operation::Step => ErrorKind::Handshake,
        Operation::Wrap => ErrorKind::Protection,
        Operation::Unwrap => ErrorKind::Protection,
        Operation::TimeToLive => ErrorKind::Lifetime,
        Operation::Client => ErrorKind::Identity,
    }
}

impl Error {
    /// The error for a failure that the mechanism reported during
    /// `operation`.
    pub fn mechanism(operation: Operation, major: u32, minor: u32) -> (e: Error)
        ensures
            e == (Error { operation, cause: Cause::Mechanism { major, minor } }),
    {
        Error { operation, cause: Cause::Mechanism { major, minor } }
    }

    /// The family this error belongs to.
    pub fn kind(&self) -> (k: ErrorKind)
        ensures
            k == kind_of(self.operation),
    {
        match self.operation {
            Operation::Construct => ErrorKind::Construction,
            Operation::Step => ErrorKind::Handshake,
            Operation::Wrap => ErrorKind::Protection,
            Operation::Unwrap => ErrorKind::Protection,
            Operation::TimeToLive => ErrorKind::Lifetime,
            Operation::Client => ErrorKind::Identity,
        }
    }
}

} // verus!
