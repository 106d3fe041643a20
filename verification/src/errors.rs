//! Error taxonomy and dispatch outcome notes.

use vstd::prelude::*;

verus! {

/// Failures the router can report to a caller.
#[derive(Debug, Clone, Copy, PartialEq, Eq, Structural)]
pub enum RouterError {
    /// Duplicate handler registration; fatal at setup time.
    ConfigurationError,
    /// A second acknowledgement for the same inbound message, or an
    /// acknowledgement for a message that requested none.
    ProtocolViolation,
}

/// What became of one dispatched message. Non-fatal conditions are reported
/// here so a caller can log them; none of them terminates the connection.
#[derive(Debug, Clone, Copy, PartialEq, Eq, Structural)]
pub enum DispatchNote {
    /// The handler ran and its replies were collected.
    Delivered,
    /// No handler is registered for the event name; the message was dropped.
    UnknownEvent,
    /// The handler tried to acknowledge a message that requested no
    /// acknowledgement; the response was suppressed.
    AckSuppressed,
    /// The connection is not established; the message was discarded.
    ConnectionClosed,
}

} // verus!
