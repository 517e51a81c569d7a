//! A session on the inbox alone, without phases.
//!
//! As in [`crate::fetch::connection`], the session does no I/O of its own: it
//! reads what the transport came back with.

use vstd::prelude::*;

use crate::fetch::connection::{
    get_email_body, logout_outcome, logout_warning, mail_outcome, text_view, ConnectFailure,
    FetchReply,
};

pub use crate::fetch::connection::Error;

verus! {

/// Name of the mailbox that the session reads.
pub const INBOX: &'static str = "INBOX";

/// Sequence set of the first message of a mailbox.
pub const FIRST_MESSAGE: &'static str = "1";

/// Represents the session to communicate with the server.
pub struct ImapSession {
    /// Whether the inbox was selected
    selected: bool,
}

impl ImapSession {
    /// Whether the inbox was selected.
    pub closed spec fn inbox_selected(&self) -> bool {
        self.selected
    }

    /// Creates a new [`ImapSession`] from the outcome of connecting and
    /// logging in.
    pub fn with_credentials(outcome: Result<(), ConnectFailure>) -> (session: Result<Self, Error>)
        ensures
            match outcome {
                Ok(_) => session matches Ok(s) && !s.inbox_selected(),
                Err(ConnectFailure::Tls(message)) => session matches Err(error) && error
                    == Error::TlsConnection(message),
                Err(ConnectFailure::Connect(message)) => session matches Err(error) && error
                    == Error::ImapConnection(message),
                Err(ConnectFailure::Login(message)) => session matches Err(error) && error
                    == Error::ImapConnection(message),
            },
    {
        match outcome {
            Ok(_) => Ok(ImapSession { selected: false }),
            Err(ConnectFailure::Tls(message)) => Err(Error::TlsConnection(message)),
            Err(ConnectFailure::Connect(message)) => Err(Error::ImapConnection(message)),
            Err(ConnectFailure::Login(message)) => Err(Error::ImapConnection(message)),
        }
    }

    /// Reads the reply to the request to select [`INBOX`].
    pub fn select_inbox(&mut self, reply: Result<(), String>) -> (selected: Result<(), Error>)
        ensures
            match reply {
                Ok(_) => selected is Ok && final(self).inbox_selected(),
                Err(message) => selected matches Err(error) && error == Error::InvalidMailboxName(
                    message,
                ) && final(self).inbox_selected() == old(self).inbox_selected(),
            },
    {
        match reply {
            Ok(_) => {
                self.selected = true;
                Ok(())
            },
            Err(message) => Err(Error::InvalidMailboxName(message)),
        }
    }

    /// Returns the body of the first mail in the inbox, given the reply to
    /// the fetch of [`FIRST_MESSAGE`].
    pub fn get_latest_inbox_mail(&mut self, reply: FetchReply) -> (mail: Result<String, Error>)
        ensures
            text_view(mail) == mail_outcome(reply),
            final(self).inbox_selected() == old(self).inbox_selected(),
    {
        let mails = match reply {
            Ok(mails) => mails,
            Err(message) => { return Err(Error::ImapFetch(message)); },
        };
        if mails.len() == 0 {
            return Err(Error::NoEmail);
        }
        get_email_body(&mails[0])
    }

    /// Ends the session, given the reply to the logout. A failure to log out
    /// is never an error: what comes back is the warning to report.
    pub fn logout(self, reply: Result<(), String>) -> (warning: Option<String>)
        ensures
            warning.deep_view() == logout_outcome(reply),
    {
        logout_warning(reply)
    }
}

} // verus!
