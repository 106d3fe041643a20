//! The single-use acknowledgement capability.

use vstd::prelude::*;
use crate::errors::RouterError;
use crate::message::ack_of;
use crate::message::AckResponse;
use crate::value::Value;

verus! {

/// The reply slot tied to one inbound message. It accepts at most one
/// acknowledgement, and only when the message asked for one; every further
/// attempt is rejected and leaves the slot untouched.
pub struct AckSlot {
    requested: bool,
    sent: Option<AckResponse>,
}

/// How one `send` call relates the slot before (`pre`) and after (`post`):
/// a fresh slot of a message that requested acknowledgement accepts the
/// response; in every other state the call fails with `ProtocolViolation`
/// and changes nothing.
pub open spec fn send_post(
    pre: AckSlot,
    payload: Value,
    binary: Vec<Vec<u8>>,
    post: AckSlot,
    r: Result<(), RouterError>,
) -> bool {
    if pre.spec_requested() && pre.spec_sent() is None {
        &&& r == Ok::<(), RouterError>(())
        &&& post.spec_requested() == pre.spec_requested()
        &&& post.spec_sent() == Some(ack_of(payload, binary))
    } else {
        &&& r == Err::<(), RouterError>(RouterError::ProtocolViolation)
        &&& post == pre
    }
}

impl AckSlot {
    /// Whether the inbound message asked for an acknowledgement.
    pub closed spec fn spec_requested(self) -> bool {
        self.requested
    }

    /// The response sent so far, if any.
    pub closed spec fn spec_sent(self) -> Option<AckResponse> {
        self.sent
    }

    /// A fresh slot for one inbound message; `requested` says whether that
    /// message asked for an acknowledgement.
    pub fn new(requested: bool) -> (s: Self)
        ensures
            s.spec_requested() == requested,
            s.spec_sent() is None,
    {
        AckSlot { requested, sent: None }
    }

    /// Sends the acknowledgement response, at most once and only if one was
    /// requested; a rejected attempt leaves the slot exactly as it was.
    pub fn send(&mut self, payload: Value, binary: Vec<Vec<u8>>) -> (r: Result<(), RouterError>)
        ensures
            send_post(*old(self), payload, binary, *final(self), r),
    {
        if self.requested && self.sent.is_none() {
            self.sent = Some(AckResponse { payload, binary });
            Ok(())
        } else {
            Err(RouterError::ProtocolViolation)
        }
    }

    /// Hands the collected response, if any, to the transport layer.
    pub fn into_response(self) -> (r: Option<AckResponse>)
        ensures
            r == self.spec_sent(),
    {
        self.sent
    }
}

} // verus!
