//! Fetching mails: the typed mailbox session and the message model.

pub mod connection;
pub mod parser;
pub mod pipeline;
