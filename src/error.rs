use vstd::prelude::*;

verus! {

/// The failures that the session, the receive loop and the dispose handle
/// report.
#[derive(Clone, Copy, Debug, PartialEq, Eq, Structural)]
pub enum ErrorKind {
    /// Dialing the endpoint failed.
    Connection,
    /// `connect` on a session that is connected or connecting.
    AlreadyConnected,
    /// An exchange on a session that is not connected.
    NotConnected,
    /// The request, or the exchange it began, failed.
    Send,
    /// A send or a receive ran past its timeout.
    Timeout,
    /// The transport was closed, locally or by the peer.
    Closed,
    /// The receive loop gave up reconnecting.
    RetriesExhausted,
    /// The cancellation channel of a listener was broken.
    Signal,
    /// A payload could not be compressed.
    Compression,
}

/// What a transport operation reports on failure, as plain values.
#[derive(Clone, Copy, Debug, PartialEq, Eq, Structural)]
pub enum TransportError {
    /// The operation ran past the configured timeout.
    TimedOut,
    /// The transport handle is closed.
    Closed,
    /// Any other failure.
    Other,
}

} // verus!
