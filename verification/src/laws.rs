//! The router's guarantees, stated over the same spec functions its
//! contracts use and proved once and for all.

use vstd::prelude::*;
use crate::ack::send_post;
use crate::ack::AckSlot;
use crate::connection::dispatch_post;
use crate::connection::is_standard_table;
use crate::connection::ConnState;
use crate::connection::Connection;
use crate::connection::DispatchResult;
use crate::errors::DispatchNote;
use crate::errors::RouterError;
use crate::message::ack_of;
use crate::message::InboundMessage;
use crate::table::lemma_lookup_contains;
use crate::table::register_post;
use crate::table::spec_lookup;
use crate::table::table_contains;
use crate::table::Handler;
use crate::table::RouterTable;
use crate::value::Value;

verus! {

/// Dispatching a `message` event with any payload and any binary
/// attachments yields exactly one `message-back` emit carrying both
/// unchanged, and no acknowledgement.
pub proof fn law_message_echo(conn: Connection, msg: InboundMessage, r: DispatchResult)
    requires
        conn.state == ConnState::Established,
        is_standard_table(conn.table@),
        msg.event_name@ == "message"@,
        dispatch_post(conn, msg, r),
    ensures
        r.emits@.len() == 1,
        r.emits@[0].event_name@ == "message-back"@,
        r.emits@[0].payload == msg.payload,
        r.emits@[0].binary == msg.binary,
        r.ack is None,
{
    assert(spec_lookup(conn.table@, msg.event_name@) == Some(conn.table@[0].1));
}

/// Dispatching a `message-with-ack` event that requested acknowledgement
/// yields exactly one acknowledgement response carrying payload and binary
/// attachments unchanged, and zero emits.
pub proof fn law_ack_echo(conn: Connection, msg: InboundMessage, r: DispatchResult)
    requires
        conn.state == ConnState::Established,
        is_standard_table(conn.table@),
        msg.event_name@ == "message-with-ack"@,
        msg.ack_requested,
        dispatch_post(conn, msg, r),
    ensures
        r.emits@.len() == 0,
        r.ack == Some(ack_of(msg.payload, msg.binary)),
{
    reveal_strlit("message");
    reveal_strlit("message-with-ack");
    let t = conn.table@;
    assert(("message"@).len() == 7);
    assert(("message-with-ack"@).len() == 16);
    assert(t[0].0@ != msg.event_name@);
    assert(spec_lookup(t, msg.event_name@) == spec_lookup(t.drop_first(), msg.event_name@));
    assert(t.drop_first()[0] == t[1]);
    assert(spec_lookup(t.drop_first(), msg.event_name@) == Some(t[1].1));
}

/// Dispatching an event name that no entry of the connection's table
/// carries produces zero emits and zero acknowledgements; the message is
/// dropped with a note, never raised to the caller.
pub proof fn law_unknown_event_dropped(conn: Connection, msg: InboundMessage, r: DispatchResult)
    requires
        conn.state == ConnState::Established,
        !table_contains(conn.table@, msg.event_name@),
        dispatch_post(conn, msg, r),
    ensures
        r.emits@.len() == 0,
        r.ack is None,
        r.note == DispatchNote::UnknownEvent,
{
    lemma_lookup_contains(conn.table@, msg.event_name@);
}

/// A second acknowledgement for the same inbound message is rejected with
/// `ProtocolViolation` and leaves the first, already-sent response exactly
/// as it was.
pub proof fn law_second_ack_rejected(
    pre: AckSlot,
    p1: Value,
    b1: Vec<Vec<u8>>,
    mid: AckSlot,
    r1: Result<(), RouterError>,
    p2: Value,
    b2: Vec<Vec<u8>>,
    post: AckSlot,
    r2: Result<(), RouterError>,
)
    requires
        pre.spec_requested(),
        pre.spec_sent() is None,
        send_post(pre, p1, b1, mid, r1),
        send_post(mid, p2, b2, post, r2),
    ensures
        r1 == Ok::<(), RouterError>(()),
        r2 == Err::<(), RouterError>(RouterError::ProtocolViolation),
        post == mid,
        post.spec_sent() == Some(ack_of(p1, b1)),
{
}

/// Registering an event name a second time on one connection's table fails
/// with `ConfigurationError` and leaves the table unchanged, so no message
/// is ever dispatched through a table that held duplicates.
pub proof fn law_duplicate_registration_rejected(
    pre: RouterTable,
    name: String,
    handler: Handler,
    post: RouterTable,
    r: Result<(), RouterError>,
)
    requires
        table_contains(pre@, name@),
        register_post(pre, name, handler, post, r),
    ensures
        r == Err::<(), RouterError>(RouterError::ConfigurationError),
        post == pre,
{
}

} // verus!
