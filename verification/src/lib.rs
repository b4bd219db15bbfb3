//! Verified core of a single-room chat: the wire messages, the username
//! registry, the per-connection session state machine of the server, and the
//! command line handling of the client.

pub mod text;
pub mod json;
pub mod proto;
pub mod users;
pub mod command;
pub mod display;
pub mod session;
