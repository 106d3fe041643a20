//! Inbound messages and outbound replies.

use vstd::prelude::*;
use crate::value::Value;

verus! {

/// One decoded inbound frame, as the transport layer hands it over.
#[derive(Debug, PartialEq)]
pub struct InboundMessage {
    pub event_name: String,
    pub payload: Value,
    pub binary: Vec<Vec<u8>>,
    pub ack_requested: bool,
}

/// A fire-and-forget emit back to the connection's peer.
#[derive(Debug, PartialEq)]
pub struct Emit {
    pub event_name: String,
    pub payload: Value,
    pub binary: Vec<Vec<u8>>,
}

/// The one-shot reply to an acknowledgement-requesting message.
#[derive(Debug, PartialEq)]
pub struct AckResponse {
    pub payload: Value,
    pub binary: Vec<Vec<u8>>,
}

/// The emit carrying `payload` and `binary` under `event_name`.
pub open spec fn emit_of(event_name: String, payload: Value, binary: Vec<Vec<u8>>) -> Emit {
    Emit { event_name, payload, binary }
}

/// The acknowledgement response carrying `payload` and `binary`.
pub open spec fn ack_of(payload: Value, binary: Vec<Vec<u8>>) -> AckResponse {
    AckResponse { payload, binary }
}

} // verus!
