//! The session with the mail server, typed by its phase.
//!
//! The session does no I/O of its own. Each operation is split in two: the
//! request that the transport has to send, and the reading of what came
//! back, which is handed in as a plain value. A mailbox is fetched from only
//! through a session of the selected phase, and such a session is had only
//! from `select_mailbox`.

use core::marker::PhantomData;
use vstd::prelude::*;
use vstd::relations::{
    antisymmetric, reflexive, sorted_by, strongly_connected, total_ordering, transitive,
};
use vstd::seq_lib::lemma_sorted_unique;
use vstd::utf8::{decode_utf8, valid_utf8};

use crate::credentials::Credentials;

verus! {

/// Type of query made on the IMAP server.
pub const QUERY: &'static str = "RFC822";

/// Search criteria that match every message of a mailbox.
pub const ALL: &'static str = "ALL";

/// Sequence set of every message of a mailbox.
pub const EVERY_MESSAGE: &'static str = "1:*";

/// Errors that may occur while interacting over IMAP. A text payload is the
/// message of the transport.
#[derive(Debug, PartialEq, Eq)]
pub enum Error {
    /// Failed to connect to the IMAP server.
    ImapConnection(String),
    /// Failed to fetch from the IMAP server.
    ImapFetch(String),
    /// Given mail has a body that is no UTF-8 text.
    InvalidBody,
    /// Failed to read the wanted mailbox name.
    InvalidMailboxName(String),
    /// Given mail has no body
    NoBody,
    /// No mails were found with the given requirements.
    NoEmail,
    /// Failed to establish the TLS connection.
    TlsConnection(String),
}

/// Step at which opening a session failed, with the message of the
/// transport.
#[derive(Debug)]
pub enum ConnectFailure {
    /// The TLS connector could not be set up.
    Tls(String),
    /// The server could not be reached.
    Connect(String),
    /// The server refused the login.
    Login(String),
}

/// What the transport needs to open a session.
#[derive(Debug, PartialEq, Eq)]
pub struct ConnectRequest {
    /// Host to connect to
    pub host: String,
    /// Port to connect to
    pub port: u16,
    /// Domain that the certificate of the server is checked against
    pub domain: String,
    /// Identity to log in with
    pub email: String,
    /// Secret to log in with
    pub password: String,
}

/// State of the [`ImapSession`] after a mailbox was selected.
pub struct MailboxSelected;

/// State of the [`ImapSession`] before a mailbox was selected.
pub struct NoMailbox;

/// Represents the session to communicate with the server.
pub struct ImapSession<T> {
    /// Marker to keep the phase of the [`ImapSession`]
    ///
    /// This is a zero-sized element that informs on whether a mailbox was
    /// selected or not
    marker: PhantomData<T>,
    /// Name of the selected mailbox, empty before one is selected
    mailbox: String,
}

/// What the server sent for one message: its body, if it sent one.
pub type Fetched = Option<Vec<u8>>;

/// What a fetch request came back with: one entry for each message that
/// matched, or the message of the transport where the request failed.
pub type FetchReply = Result<Vec<Fetched>, String>;

/// Error of the decoder of UTF-8 text.
#[verifier::external_type_specification]
#[verifier::external_body]
pub struct ExUtf8Error(core::str::Utf8Error);

/// `core::str::from_utf8`: the text that the bytes encode, exactly where they
/// are valid UTF-8.
pub assume_specification[ core::str::from_utf8 ](v: &[u8]) -> (text: Result<
    &str,
    core::str::Utf8Error,
>)
    ensures
        text.is_ok() == valid_utf8(v@),
        text matches Ok(s) ==> s@ == decode_utf8(v@),
;

/// Character of a decimal digit.
pub open spec fn digit_char(digit: nat) -> char {
    if digit == 0 {
        '0'
    } else if digit == 1 {
        '1'
    } else if digit == 2 {
        '2'
    } else if digit == 3 {
        '3'
    } else if digit == 4 {
        '4'
    } else if digit == 5 {
        '5'
    } else if digit == 6 {
        '6'
    } else if digit == 7 {
        '7'
    } else if digit == 8 {
        '8'
    } else {
        '9'
    }
}

/// Decimal text of a number, without leading zeros.
pub open spec fn decimal_text(number: nat) -> Seq<char>
    decreases number,
{
    if number < 10 {
        seq![digit_char(number)]
    } else {
        decimal_text(number / 10).push(digit_char(number % 10))
    }
}

/// Text of one decimal digit.
fn digit_text(digit: u32) -> (text: &'static str)
    requires
        digit < 10,
    ensures
        text@ == seq![digit_char(digit as nat)],
{
    proof {
        reveal_strlit("0");
        reveal_strlit("1");
        reveal_strlit("2");
        reveal_strlit("3");
        reveal_strlit("4");
        reveal_strlit("5");
        reveal_strlit("6");
        reveal_strlit("7");
        reveal_strlit("8");
        reveal_strlit("9");
    }
    let text = if digit == 0 {
        "0"
    } else if digit == 1 {
        "1"
    } else if digit == 2 {
        "2"
    } else if digit == 3 {
        "3"
    } else if digit == 4 {
        "4"
    } else if digit == 5 {
        "5"
    } else if digit == 6 {
        "6"
    } else if digit == 7 {
        "7"
    } else if digit == 8 {
        "8"
    } else {
        "9"
    };
    text
}

/// Set of ids that names the single message `uid`.
pub fn uid_set(uid: u32) -> (text: String)
    ensures
        text@ == decimal_text(uid as nat),
    decreases uid,
{
    if uid < 10 {
        digit_text(uid).to_owned()
    } else {
        let mut text = uid_set(uid / 10);
        text.append(digit_text(uid % 10));
        text
    }
}

/// Ids from the largest to the smallest.
pub open spec fn is_descending(ids: Seq<u32>) -> bool {
    forall|i: int, j: int| 0 <= i < j < ids.len() ==> ids[i] >= ids[j]
}

/// Ids from the largest to the smallest, no id twice.
pub open spec fn is_strictly_descending(ids: Seq<u32>) -> bool {
    forall|i: int, j: int| 0 <= i < j < ids.len() ==> ids[i] > ids[j]
}

/// The ids listed from the largest to the smallest.
pub open spec fn newest_first(ids: Seq<u32>) -> Seq<u32> {
    ids.sort_by(|a: u32, b: u32| a >= b)
}

/// Listing ids from the largest to the smallest keeps each id as often as
/// it was there, and lists ids that are all different in strictly
/// descending order. No other listing of the same ids is descending.
pub proof fn lemma_newest_first(ids: Seq<u32>)
    ensures
        is_descending(newest_first(ids)),
        newest_first(ids).to_multiset() == ids.to_multiset(),
        ids.no_duplicates() ==> is_strictly_descending(newest_first(ids)),
        forall|other: Seq<u32>|
            is_descending(other) && other.to_multiset() == ids.to_multiset() ==> other
                == newest_first(ids),
{
    let geq = |a: u32, b: u32| a >= b;
    assert(total_ordering(geq)) by {
        assert(reflexive(geq));
        assert(antisymmetric(geq));
        assert(transitive(geq));
        assert(strongly_connected(geq));
    }
    ids.lemma_sort_by_ensures(geq);
    let sorted = newest_first(ids);
    assert(is_descending(sorted)) by {
        assert forall|i: int, j: int| 0 <= i < j < sorted.len() implies sorted[i] >= sorted[j] by {
            assert(geq(sorted[i], sorted[j]));
        }
    }
    if ids.no_duplicates() {
        ids.lemma_multiset_has_no_duplicates();
        sorted.lemma_multiset_has_no_duplicates_conv();
    }
    assert forall|other: Seq<u32>|
        is_descending(other) && other.to_multiset() == ids.to_multiset() implies other
        == sorted by {
        assert(sorted_by(other, geq));
        lemma_sorted_unique(other, sorted, geq);
    }
}

/// Sorts ids from the largest to the smallest.
pub fn sort_descending(ids: &Vec<u32>) -> (sorted: Vec<u32>)
    ensures
        sorted@ == newest_first(ids@),
        is_descending(sorted@),
        sorted@.to_multiset() == ids@.to_multiset(),
        ids@.no_duplicates() ==> is_strictly_descending(sorted@),
{
    broadcast use vstd::seq_lib::group_to_multiset_ensures;

    let mut sorted: Vec<u32> = Vec::new();
    let mut i: usize = 0;
    while i < ids.len()
        invariant
            i <= ids.len(),
            is_descending(sorted@),
            sorted@.to_multiset() == ids@.take(i as int).to_multiset(),
        decreases ids.len() - i,
    {
        let id = ids[i];
        let mut at: usize = 0;
        while at < sorted.len() && sorted[at] >= id
            invariant
                at <= sorted.len(),
                forall|k: int| 0 <= k < at ==> sorted[k] >= id,
            decreases sorted.len() - at,
        {
            at += 1;
        }
        let ghost before = sorted@;
        sorted.insert(at, id);
        proof {
            assert(ids@.take(i + 1) =~= ids@.take(i as int).push(id));
            vstd::seq_lib::to_multiset_build(ids@.take(i as int), id);
            vstd::seq_lib::to_multiset_insert(before, at as int, id);
        }
        i += 1;
    }
    proof {
        assert(ids@.take(i as int) =~= ids@);
        lemma_newest_first(ids@);
    }
    sorted
}

/// What the body of a fetched message amounts to: its text, if the server
/// sent a body and the body is valid UTF-8.
pub open spec fn body_outcome(mail: Option<Seq<u8>>) -> Result<Seq<char>, Error> {
    match mail {
        None => Err(Error::NoBody),
        Some(body) => if valid_utf8(body) {
            Ok(decode_utf8(body))
        } else {
            Err(Error::InvalidBody)
        },
    }
}

/// Body of a fetched message, as a sequence of bytes.
pub open spec fn fetched_view(mail: Fetched) -> Option<Seq<u8>> {
    match mail {
        Some(body) => Some(body@),
        None => None,
    }
}

/// Mathematical content of the outcome of reading a body.
pub open spec fn text_view(outcome: Result<String, Error>) -> Result<Seq<char>, Error> {
    match outcome {
        Ok(text) => Ok(text@),
        Err(error) => Err(error),
    }
}

/// Get the body of a mail
///
/// The body of a mail also contains all the headers.
pub fn get_email_body(mail: &Fetched) -> (body: Result<String, Error>)
    ensures
        text_view(body) == body_outcome(fetched_view(*mail)),
{
    match mail {
        Some(bytes) => match core::str::from_utf8(bytes.as_slice()) {
            Ok(text) => Ok(text.to_owned()),
            Err(_) => Err(Error::InvalidBody),
        },
        None => Err(Error::NoBody),
    }
}

/// What the reply to the fetch of one message amounts to: the text of the
/// first message in it.
pub open spec fn mail_outcome(reply: FetchReply) -> Result<Seq<char>, Error> {
    match reply {
        Err(message) => Err(Error::ImapFetch(message)),
        Ok(mails) => if mails.len() == 0 {
            Err(Error::NoEmail)
        } else {
            body_outcome(fetched_view(mails[0]))
        },
    }
}

/// The texts of the first `count` fetched messages, or the error of the
/// first one among them that has no text.
pub open spec fn bodies_outcome(mails: Seq<Fetched>, count: nat) -> Result<Seq<Seq<char>>, Error>
    decreases count,
{
    if count == 0 {
        Ok(Seq::empty())
    } else {
        match bodies_outcome(mails, (count - 1) as nat) {
            Err(error) => Err(error),
            Ok(texts) => match body_outcome(fetched_view(mails[count - 1])) {
                Err(error) => Err(error),
                Ok(text) => Ok(texts.push(text)),
            },
        }
    }
}

/// What the reply to the fetch of every message amounts to.
pub open spec fn all_mails_outcome(reply: FetchReply) -> Result<Seq<Seq<char>>, Error> {
    match reply {
        Err(message) => Err(Error::ImapFetch(message)),
        Ok(mails) => bodies_outcome(mails@, mails.len() as nat),
    }
}

/// Mathematical content of the outcome of reading several bodies.
pub open spec fn texts_view(outcome: Result<Vec<String>, Error>) -> Result<Seq<Seq<char>>, Error> {
    match outcome {
        Ok(texts) => Ok(texts.deep_view()),
        Err(error) => Err(error),
    }
}

/// What is added to the message of the transport when a logout failed.
pub const LOGOUT_FAILED: &'static str = "\nFailed to log out from session. May still be active.";

/// The warning to report after a logout: none where the logout went through,
/// and the message of the transport with [`LOGOUT_FAILED`] where it did not.
pub open spec fn logout_outcome(reply: Result<(), String>) -> Option<Seq<char>> {
    match reply {
        Ok(_) => None,
        Err(message) => Some(message@ + LOGOUT_FAILED@),
    }
}

/// Reads the reply to a logout. A failure to log out is never an error:
/// what comes back is the warning to report.
pub fn logout_warning(reply: Result<(), String>) -> (warning: Option<String>)
    ensures
        warning.deep_view() == logout_outcome(reply),
{
    match reply {
        Ok(_) => None,
        Err(message) => Some(message.concat(LOGOUT_FAILED)),
    }
}

impl<T> ImapSession<T> {
    /// Name of the selected mailbox; it is empty before one is selected.
    pub closed spec fn mailbox(&self) -> Seq<char> {
        self.mailbox@
    }

    /// Ends the session, given the reply to the logout. A failure to log out
    /// is never an error: what comes back is the warning to report.
    pub fn logout(self, reply: Result<(), String>) -> (warning: Option<String>)
        ensures
            warning.deep_view() == logout_outcome(reply),
    {
        logout_warning(reply)
    }
}

impl ImapSession<NoMailbox> {
    /// What the transport needs to open the session of these credentials.
    pub fn connect_request(credentials: &Credentials) -> (request: ConnectRequest)
        ensures
            request.host@ == credentials@.domain_name,
            request.port == credentials@.imap_port,
            request.domain@ == credentials@.domain_name,
            request.email@ == credentials@.email,
            request.password@ == credentials@.password,
    {
        let address = credentials.as_imap_socket_address();
        ConnectRequest {
            host: address.0.to_owned(),
            port: address.1,
            domain: credentials.as_domain_name().to_owned(),
            email: credentials.as_email().to_owned(),
            password: credentials.as_password().to_owned(),
        }
    }

    /// Creates a new [`ImapSession`] from the outcome of connecting and
    /// logging in. Any failure on the way is fatal: no session is had.
    pub fn with_credentials(outcome: Result<(), ConnectFailure>) -> (session: Result<Self, Error>)
        ensures
            match outcome {
                Ok(_) => session matches Ok(s) && s.mailbox() == Seq::<char>::empty(),
                Err(ConnectFailure::Tls(message)) => session matches Err(error) && error
                    == Error::TlsConnection(message),
                Err(ConnectFailure::Connect(message)) => session matches Err(error) && error
                    == Error::ImapConnection(message),
                Err(ConnectFailure::Login(message)) => session matches Err(error) && error
                    == Error::ImapConnection(message),
            },
    {
        match outcome {
            Ok(_) => Ok(ImapSession { marker: PhantomData, mailbox: String::new() }),
            Err(ConnectFailure::Tls(message)) => Err(Error::TlsConnection(message)),
            Err(ConnectFailure::Connect(message)) => Err(Error::ImapConnection(message)),
            Err(ConnectFailure::Login(message)) => Err(Error::ImapConnection(message)),
        }
    }

    /// Selects a mailbox to fetch from, given the reply to the request to
    /// select it. The session that comes back is the only way to fetch.
    pub fn select_mailbox(self, mailbox_name: &str, reply: Result<(), String>) -> (session: Result<
        ImapSession<MailboxSelected>,
        Error,
    >)
        ensures
            match reply {
                Ok(_) => session matches Ok(s) && s.mailbox() == mailbox_name@,
                Err(message) => session matches Err(error) && error == Error::InvalidMailboxName(
                    message,
                ),
            },
    {
        match reply {
            Ok(_) => Ok(ImapSession { marker: PhantomData, mailbox: mailbox_name.to_owned() }),
            Err(message) => Err(Error::InvalidMailboxName(message)),
        }
    }
}

impl ImapSession<MailboxSelected> {
    /// Get all the mails of the chosen mailbox, given the reply to the fetch
    /// of [`EVERY_MESSAGE`]. The first mail without a text fails the whole.
    pub fn get_all_mails(&mut self, reply: FetchReply) -> (mails: Result<Vec<String>, Error>)
        ensures
            texts_view(mails) == all_mails_outcome(reply),
            final(self).mailbox() == old(self).mailbox(),
    {
        let fetched = match reply {
            Ok(fetched) => fetched,
            Err(message) => { return Err(Error::ImapFetch(message)); },
        };
        let mut mails: Vec<String> = Vec::new();
        let mut i: usize = 0;
        assert(mails.deep_view() =~= Seq::<Seq<char>>::empty());
        while i < fetched.len()
            invariant
                reply == Ok::<Vec<Fetched>, String>(fetched),
                i <= fetched.len(),
                bodies_outcome(fetched@, i as nat) == Ok::<Seq<Seq<char>>, Error>(mails.deep_view()),
            decreases fetched.len() - i,
        {
            let ghost texts = mails.deep_view();
            match get_email_body(&fetched[i]) {
                Ok(text) => {
                    mails.push(text);
                    assert(mails.deep_view() =~= texts.push(text@));
                },
                Err(error) => {
                    proof {
                        lemma_bodies_outcome_fails(fetched@, i as nat + 1, fetched.len() as nat);
                    }
                    return Err(error);
                },
            }
            i += 1;
        }
        Ok(mails)
    }

    /// Returns a mail from its unique id, given the reply to the fetch of
    /// the set [`uid_set`] of that id.
    pub fn get_mail_from_uid(&mut self, uid: u32, reply: FetchReply) -> (mail: Result<
        String,
        Error,
    >)
        ensures
            text_view(mail) == mail_outcome(reply),
            final(self).mailbox() == old(self).mailbox(),
    {
        let response = match reply {
            Ok(response) => response,
            Err(message) => { return Err(Error::ImapFetch(message)); },
        };
        if response.len() == 0 {
            return Err(Error::NoEmail);
        }
        get_email_body(&response[0])
    }

    /// Returns the ids of the mails of the mailbox, the most recent first,
    /// given the reply to the search for [`ALL`].
    pub fn get_uids(&mut self, reply: Result<Vec<u32>, String>) -> (uids: Result<Vec<u32>, Error>)
        ensures
            match reply {
                Ok(found) => uids matches Ok(sorted) && sorted@ == newest_first(found@)
                    && is_descending(sorted@) && sorted@.to_multiset() == found@.to_multiset() && (
                found@.no_duplicates() ==> is_strictly_descending(sorted@)),
                Err(message) => uids matches Err(error) && error == Error::ImapFetch(message),
            },
            final(self).mailbox() == old(self).mailbox(),
    {
        match reply {
            Ok(found) => Ok(sort_descending(&found)),
            Err(message) => Err(Error::ImapFetch(message)),
        }
    }
}

/// Once a mail has no text, reading more mails does not mend it: the error
/// of the first such mail stays.
pub proof fn lemma_bodies_outcome_fails(mails: Seq<Fetched>, failed: nat, count: nat)
    requires
        failed <= count,
        bodies_outcome(mails, failed) is Err,
    ensures
        bodies_outcome(mails, count) == bodies_outcome(mails, failed),
    decreases count - failed,
{
    if failed < count {
        lemma_bodies_outcome_fails(mails, failed, (count - 1) as nat);
    }
}

} // verus!
