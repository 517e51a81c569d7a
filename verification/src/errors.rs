//! Handles errors, with one [`Error`] type for the whole client

use vstd::prelude::*;
use vstd::std_specs::convert::FromSpecImpl;

use crate::credentials;
use crate::fetch::connection;
use crate::fetch::parser;
use crate::tui::app;

verus! {

/// Errors that may occur while running the client.
#[derive(Debug, PartialEq, Eq)]
pub enum Error {
    /// Failure occurred while loading the credentials.
    Credentials(credentials::Error),
    /// Failure occurred while interacting over IMAP.
    ImapConnection(connection::Error),
    /// Failure occurred while parsing a mail.
    Parsing(parser::Error),
    /// Failure occurred in the terminal interface.
    Tui(app::Error),
}

impl From<credentials::Error> for Error {
    fn from(error: credentials::Error) -> (wrapped: Self) {
        Self::Credentials(error)
    }
}

impl FromSpecImpl<credentials::Error> for Error {
    open spec fn obeys_from_spec() -> bool {
        true
    }

    open spec fn from_spec(error: credentials::Error) -> Self {
        Error::Credentials(error)
    }
}

impl From<connection::Error> for Error {
    fn from(error: connection::Error) -> (wrapped: Self) {
        Self::ImapConnection(error)
    }
}

impl FromSpecImpl<connection::Error> for Error {
    open spec fn obeys_from_spec() -> bool {
        true
    }

    open spec fn from_spec(error: connection::Error) -> Self {
        Error::ImapConnection(error)
    }
}

impl From<parser::Error> for Error {
    fn from(error: parser::Error) -> (wrapped: Self) {
        Self::Parsing(error)
    }
}

impl FromSpecImpl<parser::Error> for Error {
    open spec fn obeys_from_spec() -> bool {
        true
    }

    open spec fn from_spec(error: parser::Error) -> Self {
        Error::Parsing(error)
    }
}

impl From<app::Error> for Error {
    fn from(error: app::Error) -> (wrapped: Self) {
        Self::Tui(error)
    }
}

impl FromSpecImpl<app::Error> for Error {
    open spec fn obeys_from_spec() -> bool {
        true
    }

    open spec fn from_spec(error: app::Error) -> Self {
        Error::Tui(error)
    }
}

} // verus!
