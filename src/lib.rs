//! A local relay: it greets each inbound WebSocket connection, decodes the
//! JSON text frames that arrive on it, and names the topics under which each
//! typed message is published.

pub mod codec;
pub mod connection;
pub mod state;
