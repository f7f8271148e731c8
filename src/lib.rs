//! Core of a desktop XMPP chat client: JID handling, the connection state
//! machine, outgoing command processing and inbound stanza dispatch.
//!
//! The core performs no I/O. Every decision is a verified function from the
//! current state and an input (a command, a stanza, a transport outcome) to a
//! new state and a list of effects that the caller carries out in order.

pub mod client;
pub mod config;
pub mod dispatch;
pub mod error;
pub mod events;
pub mod jid;
pub mod protocol;
pub mod roster;
pub mod stanza_handler;
