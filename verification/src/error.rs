//! The error taxonomy of the proxy.
//!
//! Per-candidate connect failures are recoverable and drive failover; every
//! other error is terminal, either for one session or for the whole process.

use vstd::prelude::*;

verus! {

/// The two peers of a proxy session.
#[derive(Clone, Copy, Debug, PartialEq, Eq, Structural)]
pub enum Side {
    /// The accepted inbound connection.
    Client,
    /// The backend connection that the selector established.
    Server,
}

/// The two directions of byte flow inside a relay.
#[derive(Clone, Copy, Debug, PartialEq, Eq, Structural)]
pub enum Direction {
    /// Bytes moving from the client socket to the backend socket.
    ClientToServer,
    /// Bytes moving from the backend socket to the client socket.
    ServerToClient,
}

/// This crate specific `Error` type.
#[derive(Clone, Copy, Debug, PartialEq, Eq, Structural)]
pub enum Error {
    /// The listening socket could not be bound. Fatal: the process exits.
    BindError,
    /// The directory query failed: transport error, non-2xx response, or a
    /// malformed body. Terminal for the session; never retried within it.
    DirectoryError,
    /// The candidate list was empty, or every candidate was tried and none
    /// accepted a connection. Terminal for the session.
    NoAvailableBackend,
    /// One connect attempt failed with a refusal or another socket error.
    /// Recoverable: the selector advances to the next candidate.
    ConnectAttemptError,
    /// One connect attempt exceeded the per-attempt timeout.
    /// Recoverable: the selector advances to the next candidate.
    ConnectTimeout,
    /// An I/O failure on an established relay, carrying which side and which
    /// direction failed. Terminal for the session; both sockets are closed.
    RelayError {
        /// The socket on which the failing operation ran.
        side: Side,
        /// The direction whose pump observed the failure.
        direction: Direction,
    },
}

impl Error {
    /// True exactly for the error that aborts the whole process at startup.
    pub fn is_fatal_for_process(&self) -> (r: bool)
        ensures
            r == (*self == Error::BindError),
    {
        matches!(self, Error::BindError)
    }

    /// True exactly for the errors that end one session: a failed directory
    /// query, an exhausted candidate list, or a relay I/O failure.
    pub fn is_terminal_for_session(&self) -> (r: bool)
        ensures
            r == (*self == Error::DirectoryError || *self == Error::NoAvailableBackend
                || self is RelayError),
    {
        match self {
            Error::DirectoryError => true,
            Error::NoAvailableBackend => true,
            Error::RelayError { .. } => true,
            _ => false,
        }
    }

    /// True exactly for the per-candidate connect failures, which are absorbed
    /// inside the selector and only drive failover.
    pub fn is_recoverable_per_candidate(&self) -> (r: bool)
        ensures
            r == (*self == Error::ConnectAttemptError || *self == Error::ConnectTimeout),
    {
        matches!(self, Error::ConnectAttemptError | Error::ConnectTimeout)
    }

    /// A short label for the operational log stream.
    pub fn label(&self) -> (r: &'static str)
        ensures
            *self == Error::BindError ==> r@ == "bind error"@,
            *self == Error::DirectoryError ==> r@ == "directory error"@,
            *self == Error::NoAvailableBackend ==> r@ == "no available backend"@,
            *self == Error::ConnectAttemptError ==> r@ == "connect attempt error"@,
            *self == Error::ConnectTimeout ==> r@ == "connect timeout"@,
            self is RelayError ==> r@ == "relay error"@,
    {
        match self {
            Error::BindError => "bind error",
            Error::DirectoryError => "directory error",
            Error::NoAvailableBackend => "no available backend",
            Error::ConnectAttemptError => "connect attempt error",
            Error::ConnectTimeout => "connect timeout",
            Error::RelayError { .. } => "relay error",
        }
    }
}

/// Every error falls in exactly one of the three classes: fatal for the
/// process, terminal for one session, or recoverable per candidate.
pub proof fn lemma_error_classes_partition(e: Error)
    ensures
        (e == Error::BindError) as int + (e == Error::DirectoryError || e
            == Error::NoAvailableBackend || e is RelayError) as int + (e
            == Error::ConnectAttemptError || e == Error::ConnectTimeout) as int == 1,
{
}

} // verus!
