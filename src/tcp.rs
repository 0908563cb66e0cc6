//! Outbound TCP connections.
use vstd::prelude::*;

use crate::addr::SocketAddress;
use crate::error::{ConnectionError, TransportFailure};

verus! {

/// Endpoint settings that outbound connections follow.
#[derive(Clone, Copy, Debug, PartialEq, Eq, Structural)]
pub struct Settings {
    /// How long a TCP handshake may stay outstanding, in milliseconds.
    pub connect_timeout_ms: u64,
}

/// A capability for one outbound TCP connection attempt. Making one does no
/// I/O; `connect` consumes it, so two attempts never interleave on it.
#[derive(Debug, PartialEq, Eq, Structural)]
pub struct TcpConnector {
    pub settings: Settings,
}

/// A connection attempt handed to the transport: where to, and how long the
/// handshake may take.
#[derive(Debug, PartialEq, Eq, Structural)]
pub struct TcpConnectAttempt {
    pub destination: SocketAddress,
    pub timeout_ms: u64,
}

/// An established outbound connection; its byte stream belongs to the
/// transport.
#[derive(Clone, Copy, Debug, PartialEq, Eq, Structural)]
pub struct TcpConnection {
    pub destination: SocketAddress,
}

impl TcpConnector {
    /// A connector that follows `settings`.
    pub fn new(settings: Settings) -> (r: TcpConnector)
        ensures
            r.settings == settings,
    {
        TcpConnector { settings }
    }

    /// Starts the one attempt this connector allows.
    pub fn connect(self, destination: SocketAddress) -> (r: TcpConnectAttempt)
        ensures
            r.destination == destination,
            r.timeout_ms == self.settings.connect_timeout_ms,
    {
        TcpConnectAttempt { destination, timeout_ms: self.settings.connect_timeout_ms }
    }
}

impl TcpConnectAttempt {
    /// Ends the attempt with the transport's report of the handshake: a
    /// connection, or a transport-unavailable error with the transport's reason.
    /// Nothing is retried.
    pub fn complete(self, outcome: Result<(), TransportFailure>) -> (r: Result<TcpConnection, ConnectionError>)
        ensures
            match outcome {
                Ok(()) => r == Ok::<TcpConnection, ConnectionError>(TcpConnection { destination: self.destination }),
                Err(f) => r == Err::<TcpConnection, ConnectionError>(ConnectionError::TransportUnavailable(f)),
            },
    {
        match outcome {
            Ok(()) => Ok(TcpConnection { destination: self.destination }),
            Err(f) => Err(ConnectionError::TransportUnavailable(f)),
        }
    }
}

} // verus!
