//! Loading the most recent mails of a mailbox.
//!
//! The ids of the mailbox are listed, the most recent ones are fetched one
//! after the other, and what was fetched is parsed. The first failure ends
//! the load: the caller sees all the mails that were asked for, or an error.

use vstd::prelude::*;
use vstd::utf8::encode_utf8;

use crate::fetch::connection::{
    is_strictly_descending, mail_outcome, newest_first, Error, FetchReply, ImapSession,
    MailboxSelected,
};
use crate::fetch::parser;
use crate::fetch::parser::{mail_of_raw, Email, EmailView};

verus! {

/// Name of the mailbox that is loaded at the start.
pub const INBOX: &'static str = "INBOX";

/// Number of mails that are loaded at the start, unless the caller asks for
/// another number.
pub const RECENT: usize = 20;

/// A load in progress: the ids to fetch, and what was fetched so far.
pub struct Loader {
    /// Ids to fetch, in the order in which they are fetched
    wanted: Vec<u32>,
    /// Mails fetched so far, each with its id
    fetched: Vec<(u32, String)>,
}

/// Mathematical content of a [`Loader`].
pub struct LoaderView {
    pub wanted: Seq<u32>,
    pub fetched: Seq<(u32, Seq<char>)>,
}

/// Mathematical content of a batch of fetched mails.
pub open spec fn batch_view(batch: Seq<(u32, String)>) -> Seq<(u32, Seq<char>)> {
    Seq::new(batch.len(), |i: int| (batch[i].0, batch[i].1@))
}

impl View for Loader {
    type V = LoaderView;

    closed spec fn view(&self) -> LoaderView {
        LoaderView { wanted: self.wanted@, fetched: batch_view(self.fetched@) }
    }
}

/// What was fetched so far are the first of the wanted mails, in their
/// order.
pub open spec fn is_prefix(load: LoaderView) -> bool {
    &&& load.fetched.len() <= load.wanted.len()
    &&& forall|i: int| 0 <= i < load.fetched.len() ==> (#[trigger] load.fetched[i]).0 == load.wanted[i]
}

/// Whether every wanted mail was fetched.
pub open spec fn is_complete(load: LoaderView) -> bool {
    load.fetched.len() >= load.wanted.len()
}

/// The load that starts on the listed ids: it wants the first `limit` of
/// them, or all of them where they are fewer.
pub open spec fn started(uids: Seq<u32>, limit: nat) -> LoaderView {
    LoaderView {
        wanted: if limit < uids.len() {
            uids.take(limit as int)
        } else {
            uids
        },
        fetched: Seq::empty(),
    }
}

/// The load after the reply to the fetch of its next mail, or the error
/// that ends it. A load that is complete takes no reply.
pub open spec fn accepted(load: LoaderView, reply: FetchReply) -> Result<LoaderView, Error> {
    if is_complete(load) {
        Ok(load)
    } else {
        match mail_outcome(reply) {
            Ok(text) => Ok(
                LoaderView {
                    wanted: load.wanted,
                    fetched: load.fetched.push((load.wanted[load.fetched.len() as int], text)),
                },
            ),
            Err(error) => Err(error),
        }
    }
}

/// The load after the replies to its fetches, one after the other, or the
/// first error among them: after an error no further reply is read.
pub open spec fn accepted_all(load: LoaderView, replies: Seq<FetchReply>) -> Result<
    LoaderView,
    Error,
>
    decreases replies.len(),
{
    if replies.len() == 0 {
        Ok(load)
    } else {
        match accepted_all(load, replies.drop_last()) {
            Ok(next) => accepted(next, replies.last()),
            Err(error) => Err(error),
        }
    }
}

/// Mathematical content of the outcome of a step of a load.
pub open spec fn load_view(outcome: Result<Loader, Error>) -> Result<LoaderView, Error> {
    match outcome {
        Ok(loader) => Ok(loader@),
        Err(error) => Err(error),
    }
}

/// The mails that the first `count` entries of a batch parse to, in their
/// order, or the error of the first entry among them that does not parse.
pub open spec fn parsed_batch(batch: Seq<(u32, Seq<char>)>, count: nat) -> Result<
    Seq<EmailView>,
    parser::Error,
>
    decreases count,
{
    if count == 0 {
        Ok(Seq::empty())
    } else {
        match parsed_batch(batch, (count - 1) as nat) {
            Err(error) => Err(error),
            Ok(emails) => match mail_of_raw(batch[count - 1].0, encode_utf8(batch[count - 1].1)) {
                Err(error) => Err(error),
                Ok(email) => Ok(emails.push(email)),
            },
        }
    }
}

/// Mathematical content of the outcome of parsing a batch.
pub open spec fn emails_view(outcome: Result<Vec<Email>, parser::Error>) -> Result<
    Seq<EmailView>,
    parser::Error,
> {
    match outcome {
        Ok(emails) => Ok(emails.deep_view()),
        Err(error) => Err(error),
    }
}

/// Once an entry does not parse, parsing more entries does not mend it: the
/// error of the first such entry stays.
pub proof fn lemma_parsed_batch_fails(batch: Seq<(u32, Seq<char>)>, failed: nat, count: nat)
    requires
        failed <= count,
        parsed_batch(batch, failed) is Err,
    ensures
        parsed_batch(batch, count) == parsed_batch(batch, failed),
    decreases count - failed,
{
    if failed < count {
        lemma_parsed_batch_fails(batch, failed, (count - 1) as nat);
    }
}

/// A batch that parses gives one mail for each entry, in the order of the
/// entries, and each mail has the id of its entry.
pub proof fn law_parsing_keeps_order(batch: Seq<(u32, Seq<char>)>, count: nat)
    requires
        count <= batch.len(),
    ensures
        parsed_batch(batch, count) matches Ok(emails) ==> {
            &&& emails.len() == count
            &&& forall|i: int| 0 <= i < count ==> (#[trigger] emails[i]).uid == batch[i].0
        },
    decreases count,
{
    if count > 0 {
        law_parsing_keeps_order(batch, (count - 1) as nat);
    }
}

/// A load that reads a reply without a mail ends in the error of that
/// reply, whatever replies follow: no partial list is had.
pub proof fn law_load_fails_fast(load: LoaderView, replies: Seq<FetchReply>, failing: int)
    requires
        0 <= failing < replies.len(),
        accepted_all(load, replies.take(failing)) matches Ok(before) && !is_complete(before),
        mail_outcome(replies[failing]) is Err,
    ensures
        accepted_all(load, replies) matches Err(error) && mail_outcome(replies[failing]) == Err::<
            Seq<char>,
            Error,
        >(error),
    decreases replies.len(),
{
    if failing < replies.len() - 1 {
        assert(replies.drop_last().take(failing) =~= replies.take(failing));
        law_load_fails_fast(load, replies.drop_last(), failing);
    }
}

/// A load keeps what it wants, and fetches it in order: after any replies
/// that it reads without error, what was fetched are the first of the
/// wanted mails, each under its id.
pub proof fn law_load_keeps_order(load: LoaderView, replies: Seq<FetchReply>)
    requires
        is_prefix(load),
    ensures
        accepted_all(load, replies) matches Ok(after) ==> {
            &&& after.wanted == load.wanted
            &&& is_prefix(after)
            &&& after.fetched.len() >= load.fetched.len()
        },
    decreases replies.len(),
{
    if replies.len() > 0 {
        law_load_keeps_order(load, replies.drop_last());
    }
}

/// A load on ids that are listed from the largest to the smallest fetches
/// the most recent mails first: each mail that was fetched has a larger id
/// than the mails fetched after it.
pub proof fn law_load_is_most_recent_first(uids: Seq<u32>, limit: nat, replies: Seq<FetchReply>)
    requires
        is_strictly_descending(uids),
    ensures
        accepted_all(started(uids, limit), replies) matches Ok(after) ==> forall|i: int, j: int|
            0 <= i < j < after.fetched.len() ==> (#[trigger] after.fetched[i]).0 > (
            #[trigger] after.fetched[j]).0,
{
    law_load_keeps_order(started(uids, limit), replies);
}

impl ImapSession<MailboxSelected> {
    /// Starts the load of the `limit` most recent mails of the mailbox, given
    /// the reply to the search for all its ids.
    pub fn load_recent(&mut self, limit: usize, reply: Result<Vec<u32>, String>) -> (load: Result<
        Loader,
        Error,
    >)
        ensures
            match reply {
                Ok(found) => load matches Ok(loader) && loader@ == started(
                    newest_first(found@),
                    limit as nat,
                ),
                Err(message) => load matches Err(error) && error == Error::ImapFetch(message),
            },
            final(self).mailbox() == old(self).mailbox(),
    {
        match self.get_uids(reply) {
            Ok(uids) => Ok(Loader::new(uids, limit)),
            Err(error) => Err(error),
        }
    }
}

impl Loader {
    #[verifier::type_invariant]
    spec fn in_order(self) -> bool {
        is_prefix(self@)
    }

    /// Starts a load on the listed ids: it wants the first `limit` of them.
    pub fn new(uids: Vec<u32>, limit: usize) -> (loader: Self)
        ensures
            loader@ == started(uids@, limit as nat),
    {
        let mut wanted = uids;
        if limit < wanted.len() {
            wanted.truncate(limit);
        }
        let loader = Loader { wanted, fetched: Vec::new() };
        assert(loader@.fetched =~= Seq::<(u32, Seq<char>)>::empty());
        loader
    }

    /// The id to fetch next, or `None` once every wanted mail was fetched.
    pub fn next_uid(&self) -> (uid: Option<u32>)
        ensures
            is_prefix(self@),
            match uid {
                Some(uid) => !is_complete(self@) && uid == self@.wanted[self@.fetched.len() as int],
                None => is_complete(self@),
            },
    {
        proof {
            use_type_invariant(self);
        }
        if self.fetched.len() < self.wanted.len() {
            Some(self.wanted[self.fetched.len()])
        } else {
            None
        }
    }

    /// Reads the reply to the fetch of the next mail. The first reply
    /// without a mail ends the load: the error comes back, and the loader,
    /// with what it had fetched, is gone.
    pub fn accept(self, session: &mut ImapSession<MailboxSelected>, reply: FetchReply) -> (load:
        Result<Self, Error>)
        ensures
            load_view(load) == accepted(self@, reply),
            final(session).mailbox() == old(session).mailbox(),
    {
        proof {
            use_type_invariant(&self);
        }
        let uid = match self.next_uid() {
            Some(uid) => uid,
            None => { return Ok(self); },
        };
        match session.get_mail_from_uid(uid, reply) {
            Ok(text) => {
                let ghost before = self@;
                let Loader { wanted, mut fetched } = self;
                fetched.push((uid, text));
                assert(batch_view(fetched@) =~= before.fetched.push((uid, text@)));
                Ok(Loader { wanted, fetched })
            },
            Err(error) => Err(error),
        }
    }

    /// The mails that were fetched, once every wanted mail was; `None`
    /// before that.
    pub fn finish(self) -> (batch: Option<Vec<(u32, String)>>)
        ensures
            match batch {
                Some(mails) => is_complete(self@) && batch_view(mails@) == self@.fetched,
                None => !is_complete(self@),
            },
    {
        if self.fetched.len() >= self.wanted.len() {
            Some(self.fetched)
        } else {
            None
        }
    }
}

/// Parses fetched mails, in their order. The first mail that does not parse
/// fails the whole batch.
pub fn parse_batch(batch: &Vec<(u32, String)>) -> (emails: Result<Vec<Email>, parser::Error>)
    ensures
        emails_view(emails) == parsed_batch(batch_view(batch@), batch.len() as nat),
        emails matches Ok(parsed) ==> {
            &&& parsed.len() == batch.len()
            &&& forall|i: int| 0 <= i < batch.len() ==> (#[trigger] parsed[i])@.uid == batch[i].0
        },
{
    let ghost mails = batch_view(batch@);
    let mut emails: Vec<Email> = Vec::new();
    let mut i: usize = 0;
    assert(emails.deep_view() =~= Seq::<EmailView>::empty());
    while i < batch.len()
        invariant
            i <= batch.len(),
            mails == batch_view(batch@),
            parsed_batch(mails, i as nat) == Ok::<Seq<EmailView>, parser::Error>(emails.deep_view()),
        decreases batch.len() - i,
    {
        let ghost parsed = emails.deep_view();
        let entry = &batch[i];
        match Email::try_from((entry.0, entry.1.as_str().as_bytes())) {
            Ok(email) => {
                emails.push(email);
                assert(emails.deep_view() =~= parsed.push(email@));
            },
            Err(error) => {
                proof {
                    lemma_parsed_batch_fails(mails, i as nat + 1, batch.len() as nat);
                }
                return Err(error);
            },
        }
        i += 1;
    }
    proof {
        law_parsing_keeps_order(mails, batch.len() as nat);
        assert forall|i: int| 0 <= i < batch.len() implies (#[trigger] emails[i])@.uid
            == batch[i].0 by {
            assert(emails.deep_view()[i] == emails[i]@);
        }
    }
    Ok(emails)
}

} // verus!
