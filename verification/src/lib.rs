//! Verified core of a WhatsApp bot bridge: the command line, the wire messages
//! exchanged with WebSocket clients, the per-socket control loop and the
//! session's decisions on bot events and control requests.

pub mod messages;
pub mod cli;
pub mod session;
pub mod jid;
pub mod bot;
pub mod socket;
