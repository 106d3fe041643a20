//! One realtime connection: its identity, lifecycle state, event table,
//! and the dispatch of inbound messages.

use vstd::prelude::*;
use crate::ack::AckSlot;
use crate::errors::DispatchNote;
use crate::message::ack_of;
use crate::message::emit_of;
use crate::message::AckResponse;
use crate::message::Emit;
use crate::message::InboundMessage;
use crate::table::spec_lookup;
use crate::table::table_contains;
use crate::table::Handler;
use crate::table::RouterTable;
use crate::value::is_player_value;
use crate::value::default_player_record;
use crate::value::player_value;
use crate::value::Value;

verus! {

/// Lifecycle of a connection. Handlers only run while it is established.
#[derive(Debug, Clone, Copy, PartialEq, Eq, Structural)]
pub enum ConnState {
    Connecting,
    Established,
    Disconnected,
}

/// A single logical realtime session between one peer and the server. It
/// owns its event table; nothing is shared across connections.
#[derive(Debug)]
pub struct Connection {
    pub namespace: String,
    pub id: u64,
    pub state: ConnState,
    pub table: RouterTable,
}

/// Everything one dispatch hands back to the transport layer: the emits to
/// deliver, the acknowledgement response if one was sent, and a note on what
/// became of the message.
#[derive(Debug, PartialEq)]
pub struct DispatchResult {
    pub emits: Vec<Emit>,
    pub ack: Option<AckResponse>,
    pub note: DispatchNote,
}

/// How one dispatch of `msg` on `conn` relates to its result `r`:
/// a message on a connection that is not established is discarded; an event
/// name without a handler is dropped; an echo handler re-emits payload and
/// binary attachments unchanged under its reply event; an acknowledged echo
/// returns them through the acknowledgement channel, or is suppressed when
/// no acknowledgement was requested; the player-data handler ignores the
/// payload and emits its record.
pub open spec fn dispatch_post(conn: Connection, msg: InboundMessage, r: DispatchResult) -> bool {
    if conn.state != ConnState::Established {
        &&& r.emits@.len() == 0
        &&& r.ack is None
        &&& r.note == DispatchNote::ConnectionClosed
    } else {
        match spec_lookup(conn.table@, msg.event_name@) {
            None => {
                &&& r.emits@.len() == 0
                &&& r.ack is None
                &&& r.note == DispatchNote::UnknownEvent
            },
            Some(h) => match h {
                Handler::Echo { reply_event } => {
                    &&& r.emits@.len() == 1
                    &&& r.emits@[0] == emit_of(reply_event, msg.payload, msg.binary)
                    &&& r.ack is None
                    &&& r.note == DispatchNote::Delivered
                },
                Handler::EchoWithAck => {
                    if msg.ack_requested {
                        &&& r.emits@.len() == 0
                        &&& r.ack == Some(ack_of(msg.payload, msg.binary))
                        &&& r.note == DispatchNote::Delivered
                    } else {
                        &&& r.emits@.len() == 0
                        &&& r.ack is None
                        &&& r.note == DispatchNote::AckSuppressed
                    }
                },
                Handler::PlayerData { reply_event, record } => {
                    &&& r.emits@.len() == 1
                    &&& r.emits@[0].event_name == reply_event
                    &&& is_player_value(r.emits@[0].payload, record)
                    &&& r.emits@[0].binary@.len() == 0
                    &&& r.ack is None
                    &&& r.note == DispatchNote::Delivered
                },
            },
        }
    }
}

impl Connection {
    /// A new connection in the `Connecting` state, owning `table`.
    pub fn new(namespace: String, id: u64, table: RouterTable) -> (c: Self)
        ensures
            c.namespace == namespace,
            c.id == id,
            c.state == ConnState::Connecting,
            c.table == table,
    {
        Connection { namespace, id, state: ConnState::Connecting, table }
    }

    /// Marks the transport-level handshake as finished; only an established
    /// connection dispatches messages.
    pub fn establish(&mut self)
        requires
            old(self).state == ConnState::Connecting,
        ensures
            final(self).state == ConnState::Established,
            final(self).namespace == old(self).namespace,
            final(self).id == old(self).id,
            final(self).table == old(self).table,
    {
        self.state = ConnState::Established;
    }

    /// Tears the connection down; later replies are discarded, not raised.
    pub fn disconnect(&mut self)
        ensures
            final(self).state == ConnState::Disconnected,
            final(self).namespace == old(self).namespace,
            final(self).id == old(self).id,
            final(self).table == old(self).table,
    {
        self.state = ConnState::Disconnected;
    }

    /// Dispatches one inbound message to the handler registered for its
    /// event name and collects the replies. Never fails toward the caller:
    /// unknown events, messages on a connection that is not established, and
    /// unrequested acknowledgements all degrade to a dropped reply and a
    /// note.
    pub fn dispatch(&self, msg: InboundMessage) -> (r: DispatchResult)
        ensures
            dispatch_post(*self, msg, r),
    {
        match self.state {
            ConnState::Established => {},
            _ => {
                return DispatchResult {
                    emits: Vec::new(),
                    ack: None,
                    note: DispatchNote::ConnectionClosed,
                };
            },
        }
        let InboundMessage { event_name, payload, binary, ack_requested } = msg;
        let found = self.table.lookup(&event_name);
        match found {
            None => DispatchResult {
                emits: Vec::new(),
                ack: None,
                note: DispatchNote::UnknownEvent,
            },
            Some(handler) => match handler {
                Handler::Echo { reply_event } => {
                    let mut emits: Vec<Emit> = Vec::new();
                    emits.push(Emit { event_name: reply_event.clone(), payload, binary });
                    DispatchResult { emits, ack: None, note: DispatchNote::Delivered }
                },
                Handler::EchoWithAck => {
                    let mut slot = AckSlot::new(ack_requested);
                    let sent = slot.send(payload, binary);
                    let note = match sent {
                        Ok(_) => DispatchNote::Delivered,
                        Err(_) => DispatchNote::AckSuppressed,
                    };
                    DispatchResult { emits: Vec::new(), ack: slot.into_response(), note }
                },
                Handler::PlayerData { reply_event, record } => {
                    let mut emits: Vec<Emit> = Vec::new();
                    emits.push(
                        Emit {
                            event_name: reply_event.clone(),
                            payload: player_value(record),
                            binary: Vec::new(),
                        },
                    );
                    DispatchResult { emits, ack: None, note: DispatchNote::Delivered }
                },
            },
        }
    }
}

/// The fixed handler set every connection starts with: `message` echoes
/// under `message-back`, `message-with-ack` echoes through the
/// acknowledgement channel, and `get-player-data` serves the fixture record
/// under `player-data`.
pub open spec fn is_standard_table(t: Seq<(String, Handler)>) -> bool {
    &&& t.len() == 3
    &&& t[0].0@ == "message"@
    &&& (t[0].1 matches Handler::Echo { reply_event } && reply_event@ == "message-back"@)
    &&& t[1].0@ == "message-with-ack"@
    &&& t[1].1 == Handler::EchoWithAck
    &&& t[2].0@ == "get-player-data"@
    &&& (t[2].1 matches Handler::PlayerData { reply_event, record }
        && reply_event@ == "player-data"@
        && record.name@ == "Player1"@
        && record.level == 5
        && record.score == 1000)
}

/// Builds the standard table. Registration cannot fail here: the three
/// event names are distinct.
pub fn standard_table() -> (t: RouterTable)
    ensures
        t.wf(),
        is_standard_table(t@),
{
    proof {
        reveal_strlit("message");
        reveal_strlit("message-with-ack");
        reveal_strlit("get-player-data");
    }
    let mut table = RouterTable::new();
    let _ = table.register(
        "message".to_owned(),
        Handler::Echo { reply_event: "message-back".to_owned() },
    );
    let ghost t1 = table@;
    proof {
        assert(t1.len() == 1);
        assert(t1[0].0@ == "message"@);
        assert(!table_contains(t1, "message-with-ack"@));
    }
    let _ = table.register("message-with-ack".to_owned(), Handler::EchoWithAck);
    let ghost t2 = table@;
    proof {
        assert(t2.len() == 2);
        assert(t2[0] == t1[0]);
        assert(t2[1].0@ == "message-with-ack"@);
        assert(!table_contains(t2, "get-player-data"@));
    }
    let _ = table.register(
        "get-player-data".to_owned(),
        Handler::PlayerData {
            reply_event: "player-data".to_owned(),
            record: default_player_record(),
        },
    );
    proof {
        assert(table@.len() == 3);
        assert(table@[0] == t1[0]);
        assert(table@[1] == t2[1]);
        assert(table@[2].0@ == "get-player-data"@);
    }
    table
}

/// Sets one connection up: binds the standard handlers, establishes the
/// connection, and — when the integrator supplies a payload — emits it once
/// to the peer under `auth`.
pub fn on_connect(namespace: String, id: u64, auth_payload: Option<Value>) -> (r: (
    Connection,
    Vec<Emit>,
))
    ensures
        r.0.namespace == namespace,
        r.0.id == id,
        r.0.state == ConnState::Established,
        r.0.table.wf(),
        is_standard_table(r.0.table@),
        match auth_payload {
            Some(p) => r.1@.len() == 1 && r.1@[0].event_name@ == "auth"@ && r.1@[0].payload == p
                && r.1@[0].binary@.len() == 0,
            None => r.1@.len() == 0,
        },
{
    let table = standard_table();
    let mut conn = Connection::new(namespace, id, table);
    conn.establish();
    let mut emits: Vec<Emit> = Vec::new();
    match auth_payload {
        Some(p) => {
            emits.push(Emit { event_name: "auth".to_owned(), payload: p, binary: Vec::new() });
        },
        None => {},
    }
    (conn, emits)
}

} // verus!
