//! A per-connection realtime event router with acknowledgement support.
//!
//! Each connection owns a table mapping event names to handlers. Inbound
//! messages (event name, structured payload, binary attachments, and an
//! acknowledgement flag) are dispatched to the handler registered for the
//! event name; replies come back as emits or as a single-use acknowledgement.

pub mod ack;
pub mod connection;
pub mod errors;
pub mod laws;
pub mod message;
pub mod table;
pub mod value;

pub use ack::AckSlot;
pub use connection::on_connect;
pub use connection::standard_table;
pub use connection::ConnState;
pub use connection::Connection;
pub use connection::DispatchResult;
pub use errors::DispatchNote;
pub use errors::RouterError;
pub use message::AckResponse;
pub use message::Emit;
pub use message::InboundMessage;
pub use table::Handler;
pub use table::RouterTable;
pub use value::PlayerRecord;
pub use value::Value;
