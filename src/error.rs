//! The error taxonomy shared by every forwarding capability.
use vstd::prelude::*;

verus! {

/// Why an underlying connect, bind or socket open did not succeed.
#[derive(Clone, Copy, Debug, PartialEq, Eq, Structural)]
pub enum TransportFailure {
    Refused,
    Unreachable,
    TimedOut,
    ResourceExhausted,
}

/// A connection, session or authorization that must not proceed.
///
/// It classifies the reason and carries no retry state: whether to retry is
/// the caller's decision.
#[derive(Clone, Copy, Debug, PartialEq, Eq, Structural)]
pub enum ConnectionError {
    /// The authenticator rejected the session; nothing was allocated.
    AuthorizationDenied,
    /// The transport could not connect, bind or open a socket.
    TransportUnavailable(TransportFailure),
    /// The session has been drained or closed by its transport.
    SessionTerminal,
}

} // verus!
