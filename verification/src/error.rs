//! The failures that reach a caller.
//!
//! A read, write or send that fails ends one connection or costs one echo and
//! is seen only in the state of its handler. What reaches a caller is the
//! failure to bind and the failure of a server's own loop.

use vstd::prelude::*;

verus! {

/// The kinds of operating system failure that this library tells apart.
#[derive(Clone, Copy, Debug, PartialEq, Eq, Structural)]
pub enum IoFailure {
    /// The request itself was malformed.
    InvalidInput,
    /// The address is taken.
    AddrInUse,
    /// The caller may not do this.
    PermissionDenied,
    /// Anything else.
    Other,
}

/// Why a server could not be bound. The server does not exist then; nothing
/// is retried.
#[derive(Clone, Copy, Debug, PartialEq, Eq, Structural)]
pub enum BindError {
    /// The address is not of the form `host:port`, or was refused as
    /// malformed.
    InvalidAddress,
    /// Another socket is bound to the address.
    AddressInUse,
    /// Binding to the address is not permitted.
    PermissionDenied,
    /// The bind failed for another reason.
    Other,
}

/// `std::io::ErrorKind`, with its variants as they are.
#[verifier::external_type_specification]
pub struct ExErrorKind(std::io::ErrorKind);

impl IoFailure {
    /// The failure that stands for a kind of error: the three kinds that a
    /// bind is refused with have a failure each, every other kind is `Other`.
    pub open spec fn of(kind: std::io::ErrorKind) -> IoFailure {
        match kind {
            std::io::ErrorKind::InvalidInput => IoFailure::InvalidInput,
            std::io::ErrorKind::AddrInUse => IoFailure::AddrInUse,
            std::io::ErrorKind::PermissionDenied => IoFailure::PermissionDenied,
            _ => IoFailure::Other,
        }
    }

    /// The failure that stands for a kind of error.
    pub fn from_kind(kind: std::io::ErrorKind) -> (failure: IoFailure)
        ensures
            failure == IoFailure::of(kind),
    {
        match kind {
            std::io::ErrorKind::InvalidInput => IoFailure::InvalidInput,
            std::io::ErrorKind::AddrInUse => IoFailure::AddrInUse,
            std::io::ErrorKind::PermissionDenied => IoFailure::PermissionDenied,
            _ => IoFailure::Other,
        }
    }
}

/// Why a server's loop ended other than by shutdown. It is fatal: the loop
/// does not go on, and the caller of the run gets this error.
#[derive(Clone, Copy, Debug, PartialEq, Eq, Structural)]
pub enum RuntimeError {
    /// Receiving on the datagram socket failed.
    ReceiveFailed(IoFailure),
}

impl RuntimeError {
    /// A short description, for a log line or a message to the user.
    pub fn message(&self) -> (text: &'static str)
        ensures
            text@ == "receiving failed"@,
    {
        "receiving failed"
    }
}

impl BindError {
    pub open spec fn of(failure: IoFailure) -> BindError {
        match failure {
            IoFailure::InvalidInput => BindError::InvalidAddress,
            IoFailure::AddrInUse => BindError::AddressInUse,
            IoFailure::PermissionDenied => BindError::PermissionDenied,
            IoFailure::Other => BindError::Other,
        }
    }

    /// The bind error for a failure of the given kind.
    pub fn classify(failure: IoFailure) -> (error: BindError)
        ensures
            error == BindError::of(failure),
    {
        match failure {
            IoFailure::InvalidInput => BindError::InvalidAddress,
            IoFailure::AddrInUse => BindError::AddressInUse,
            IoFailure::PermissionDenied => BindError::PermissionDenied,
            IoFailure::Other => BindError::Other,
        }
    }

    /// A short description, for a log line or a message to the user.
    pub fn message(&self) -> (text: &'static str)
        ensures
            text@ == match *self {
                BindError::InvalidAddress => "invalid socket address"@,
                BindError::AddressInUse => "address already in use"@,
                BindError::PermissionDenied => "permission denied"@,
                BindError::Other => "bind failed"@,
            },
    {
        match self {
            BindError::InvalidAddress => "invalid socket address",
            BindError::AddressInUse => "address already in use",
            BindError::PermissionDenied => "permission denied",
            BindError::Other => "bind failed",
        }
    }
}

} // verus!
