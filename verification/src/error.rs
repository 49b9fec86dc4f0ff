//! Error taxonomy: failures of a token exchange or API call, and failures
//! of client construction.

use vstd::prelude::*;

verus! {

/// The kind of failure produced by a token exchange or API call.
#[derive(Clone, Copy, Debug, PartialEq, Eq, Structural)]
pub enum SnooErrorKind {
    /// The supplied credentials were rejected.
    BadCredentials,
    /// The request could not be serialized.
    InvalidRequest,
    /// The response body could not be parsed as a credential, or named an
    /// unknown scope.
    InvalidResponse,
    /// The endpoint refused the request outright.
    Forbidden,
    /// The endpoint demanded authentication.
    Unauthorized,
    /// The endpoint answered with the given non-success status code.
    UnsuccessfulResponse(u16),
    /// The request failed at the transport level.
    NetworkError,
}

/// An error delivered by a failed acquisition.
#[derive(Clone, Copy, Debug, PartialEq, Eq, Structural)]
pub struct SnooError {
    kind: SnooErrorKind,
}

impl SnooError {
    /// The kind of this error.
    pub closed spec fn spec_kind(&self) -> SnooErrorKind {
        self.kind
    }

    /// Wraps an error kind.
    pub fn new(kind: SnooErrorKind) -> (r: SnooError)
        ensures
            r.spec_kind() == kind,
    {
        SnooError { kind }
    }

    /// The kind of this error.
    pub fn kind(&self) -> (r: SnooErrorKind)
        ensures
            r == self.spec_kind(),
    {
        self.kind
    }
}

/// An error that aborts construction of a client: no partially built
/// authenticator ever exists.
#[derive(Clone, Copy, Debug, PartialEq, Eq, Structural)]
pub enum SnooBuilderError {
    /// Neither a credential nor an authentication flow was supplied.
    MissingAuthFlow,
    /// No application secrets were supplied.
    MissingAppSecrets,
    /// No user agent was supplied.
    MissingUserAgent,
    /// The transport could not be initialized.
    TransportInitError,
}

} // verus!
