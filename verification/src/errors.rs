//! The error taxonomy of the session core.
//!
//! Failures of a single inbound push are isolated to that push; the kinds
//! here are the ones request callers observe.

use vstd::prelude::*;

verus! {

/// Typed failure of a correlated request or of the session surface.
#[derive(Clone, Copy, Debug, PartialEq, Eq, Structural)]
pub enum SessionError {
    /// I/O failure on the underlying stream or its conduit; drives the
    /// status to NetworkOffline.
    TransportError,
    /// Malformed or unexpected payload from the codec; the single packet
    /// is discarded, the connection stays up.
    ProtocolError,
    /// No response within the caller-imposed deadline; the caller evicts
    /// its own table entry before reporting this.
    RequestTimeout,
    /// The remote explicitly returned a failure code for a correlated
    /// request.
    RequestRejected,
    /// The status is Stop, Drop, KickedOffline or MsfOffline: a send was
    /// refused without touching the network.
    SessionTerminated,
    /// A correlation id was registered while it already had a live waiter;
    /// unique allocation makes this a logic error.
    DuplicateCorrelationId,
}

impl SessionError {
    /// A short diagnostic name for the error kind.
    pub fn name(&self) -> (r: &'static str)
        ensures
            r@ == match *self {
                SessionError::TransportError => "transport error"@,
                SessionError::ProtocolError => "protocol error"@,
                SessionError::RequestTimeout => "request timeout"@,
                SessionError::RequestRejected => "request rejected"@,
                SessionError::SessionTerminated => "session terminated"@,
                SessionError::DuplicateCorrelationId => "duplicate correlation id"@,
            },
    {
        match *self {
            SessionError::TransportError => "transport error",
            SessionError::ProtocolError => "protocol error",
            SessionError::RequestTimeout => "request timeout",
            SessionError::RequestRejected => "request rejected",
            SessionError::SessionTerminated => "session terminated",
            SessionError::DuplicateCorrelationId => "duplicate correlation id",
        }
    }
}

} // verus!
