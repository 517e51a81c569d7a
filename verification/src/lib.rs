//! Core of a terminal mail client: credentials, the typed mailbox session,
//! the fetch pipeline, the message model and the navigation state machine.
//!
//! Nothing in this crate performs I/O. Every operation that needs the network
//! or the terminal is split into the request to perform and the interpretation
//! of its outcome, so that each decision is a function of plain values.

pub mod credentials;
pub mod errors;
pub mod fetch;
pub mod imap_connection;
pub mod tui;
