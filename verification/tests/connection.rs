use mailbox::credentials::Credentials;
use mailbox::fetch::connection::{
    get_email_body, logout_warning, sort_descending, uid_set, ConnectFailure, ConnectRequest,
    Error, FetchReply, ImapSession, MailboxSelected, NoMailbox, ALL, EVERY_MESSAGE, LOGOUT_FAILED,
    QUERY,
};
use mailbox::fetch::parser;
use mailbox::fetch::pipeline::{parse_batch, Loader, INBOX, RECENT};
use mailbox::imap_connection;

/// A mailbox on a server that answers as the transport would.
struct Server {
    mails: Vec<(u32, Option<Vec<u8>>)>,
    down: bool,
}

impl Server {
    fn holding(mails: &[(u32, &str)]) -> Self {
        let mails =
            mails.iter().map(|(uid, text)| (*uid, Some(text.as_bytes().to_vec()))).collect();
        Server { mails, down: false }
    }

    fn search(&self) -> Result<Vec<u32>, String> {
        if self.down {
            return Err("connection lost".to_owned());
        }
        Ok(self.mails.iter().map(|(uid, _)| *uid).collect())
    }

    fn fetch_all(&self) -> FetchReply {
        let mut mails = self.mails.clone();
        mails.sort_by_key(|(uid, _)| *uid);
        Ok(mails.into_iter().map(|(_, body)| body).collect())
    }

    fn uid_fetch(&self, set: &str) -> FetchReply {
        if self.down {
            return Err("connection lost".to_owned());
        }
        Ok(self
            .mails
            .iter()
            .filter(|(uid, _)| uid.to_string() == set)
            .map(|(_, body)| body.clone())
            .collect())
    }
}

fn inbox() -> ImapSession<MailboxSelected> {
    let session: ImapSession<NoMailbox> = ImapSession::with_credentials(Ok(())).unwrap();
    session.select_mailbox("INBOX", Ok(())).unwrap()
}

fn first_last(server: &Server) {
    let mut inbox = inbox();

    let mails = inbox.get_all_mails(server.fetch_all()).unwrap();
    let first_all = mails.first().unwrap();
    let last_all = mails.last().unwrap();

    let mut uids = inbox.get_uids(server.search()).unwrap().into_iter().collect::<Vec<_>>();
    uids.sort_unstable();

    let first = *uids.first().unwrap();
    let first_single = inbox.get_mail_from_uid(first, server.uid_fetch(&uid_set(first))).unwrap();
    let last = *uids.last().unwrap();
    let last_single = inbox.get_mail_from_uid(last, server.uid_fetch(&uid_set(last))).unwrap();

    assert!(first_all == &first_single);
    assert!(last_all == &last_single);
}

#[test]
fn connection_check_first_last() {
    first_last(&Server::holding(&[(4, "fourth"), (9, "ninth"), (2, "second"), (7, "seventh")]));
}

#[test]
fn main_check_first_last() {
    first_last(&Server::holding(&[(1, "only")]));
}

#[test]
fn requests_are_fixed() {
    assert_eq!(QUERY, "RFC822");
    assert_eq!(ALL, "ALL");
    assert_eq!(EVERY_MESSAGE, "1:*");
    assert_eq!(imap_connection::INBOX, "INBOX");
    assert_eq!(INBOX, "INBOX");
    assert_eq!(RECENT, 20);
    assert_eq!(imap_connection::FIRST_MESSAGE, "1");
}

#[test]
fn uid_set_is_the_decimal_text() {
    assert_eq!(uid_set(0), "0");
    assert_eq!(uid_set(7), "7");
    assert_eq!(uid_set(10), "10");
    assert_eq!(uid_set(1203), "1203");
    assert_eq!(uid_set(4294967295), "4294967295");
    for uid in [9u32, 99, 100, 65535, 1000000] {
        assert_eq!(uid_set(uid), uid.to_string());
    }
}

#[test]
fn connect_request_comes_from_the_credentials() {
    let credentials = Credentials::new(
        "example.com".to_owned(),
        "bob@example.com".to_owned(),
        "TLS".to_owned(),
        993,
        "P@ssw0rd".to_owned(),
    );
    assert_eq!(
        ImapSession::<NoMailbox>::connect_request(&credentials),
        ConnectRequest {
            host: "example.com".to_owned(),
            port: 993,
            domain: "example.com".to_owned(),
            email: "bob@example.com".to_owned(),
            password: "P@ssw0rd".to_owned(),
        }
    );
}

#[test]
fn failed_connection_gives_no_session() {
    let tls = ImapSession::<NoMailbox>::with_credentials(Err(ConnectFailure::Tls("t".to_owned())));
    assert_eq!(tls.err(), Some(Error::TlsConnection("t".to_owned())));
    let connect =
        ImapSession::<NoMailbox>::with_credentials(Err(ConnectFailure::Connect("c".to_owned())));
    assert_eq!(connect.err(), Some(Error::ImapConnection("c".to_owned())));
    let login =
        ImapSession::<NoMailbox>::with_credentials(Err(ConnectFailure::Login("l".to_owned())));
    assert_eq!(login.err(), Some(Error::ImapConnection("l".to_owned())));
}

#[test]
fn failed_select_gives_no_selected_session() {
    let session = ImapSession::<NoMailbox>::with_credentials(Ok(())).unwrap();
    let selected = session.select_mailbox("Nowhere", Err("no such mailbox".to_owned()));
    assert_eq!(selected.err(), Some(Error::InvalidMailboxName("no such mailbox".to_owned())));
}

#[test]
fn uids_come_most_recent_first() {
    let mut inbox = inbox();
    assert_eq!(inbox.get_uids(Ok(vec![1, 5, 3])), Ok(vec![5, 3, 1]));
    assert_eq!(inbox.get_uids(Ok(vec![])), Ok(vec![]));
    assert_eq!(inbox.get_uids(Ok(vec![8])), Ok(vec![8]));
    assert_eq!(
        inbox.get_uids(Ok(vec![2, 4294967295, 0, 17, 16])),
        Ok(vec![4294967295, 17, 16, 2, 0])
    );
    assert_eq!(inbox.get_uids(Err("lost".to_owned())), Err(Error::ImapFetch("lost".to_owned())));
}

#[test]
fn sorted_ids_are_strictly_descending() {
    let found = vec![12u32, 7, 30, 1, 19, 2, 25];
    let sorted = sort_descending(&found);
    assert_eq!(sorted, vec![30, 25, 19, 12, 7, 2, 1]);
    for pair in sorted.windows(2) {
        assert!(pair[0] > pair[1]);
    }
    assert_eq!(sort_descending(&vec![3, 3, 1, 3]), vec![3, 3, 3, 1]);
}

#[test]
fn listed_ids_are_found_when_fetched() {
    let server = Server::holding(&[(5, "five"), (3, "three"), (1, "one")]);
    let mut inbox = inbox();
    let uids = inbox.get_uids(server.search()).unwrap();
    assert_eq!(uids, vec![5, 3, 1]);
    for uid in uids {
        let mail = inbox.get_mail_from_uid(uid, server.uid_fetch(&uid_set(uid)));
        assert_ne!(mail, Err(Error::NoEmail));
    }
}

#[test]
fn fetch_errors_tell_what_is_missing() {
    let mut inbox = inbox();
    assert_eq!(inbox.get_mail_from_uid(1, Ok(vec![])), Err(Error::NoEmail));
    assert_eq!(inbox.get_mail_from_uid(1, Ok(vec![None])), Err(Error::NoBody));
    assert_eq!(inbox.get_mail_from_uid(1, Ok(vec![Some(vec![0xff, 0xfe])])), Err(Error::InvalidBody));
    assert_eq!(
        inbox.get_mail_from_uid(1, Err("timeout".to_owned())),
        Err(Error::ImapFetch("timeout".to_owned()))
    );
    assert_eq!(
        inbox.get_mail_from_uid(1, Ok(vec![Some("héllo ☺".as_bytes().to_vec()), None])),
        Ok("héllo ☺".to_owned())
    );
    assert_eq!(inbox.get_mail_from_uid(1, Ok(vec![Some(Vec::new())])), Ok(String::new()));
}

#[test]
fn body_of_a_fetched_mail() {
    assert_eq!(get_email_body(&None), Err(Error::NoBody));
    assert_eq!(get_email_body(&Some(b"Subject: x\n\ntext".to_vec())), Ok("Subject: x\n\ntext".to_owned()));
    assert_eq!(get_email_body(&Some(vec![b'a', 0x80])), Err(Error::InvalidBody));
}

#[test]
fn all_mails_fail_on_the_first_without_text() {
    let mut inbox = inbox();
    let reply = Ok(vec![Some(b"a".to_vec()), Some(b"b".to_vec())]);
    assert_eq!(inbox.get_all_mails(reply), Ok(vec!["a".to_owned(), "b".to_owned()]));
    assert_eq!(inbox.get_all_mails(Ok(vec![])), Ok(vec![]));
    let reply = Ok(vec![Some(b"a".to_vec()), None, Some(vec![0xff])]);
    assert_eq!(inbox.get_all_mails(reply), Err(Error::NoBody));
    let reply = Ok(vec![Some(vec![0xff]), None]);
    assert_eq!(inbox.get_all_mails(reply), Err(Error::InvalidBody));
    assert_eq!(
        inbox.get_all_mails(Err("lost".to_owned())),
        Err(Error::ImapFetch("lost".to_owned()))
    );
}

#[test]
fn failed_logout_is_a_warning() {
    assert_eq!(inbox().logout(Ok(())), None);
    assert_eq!(
        inbox().logout(Err("broken pipe".to_owned())),
        Some("broken pipe\nFailed to log out from session. May still be active.".to_owned())
    );
    let session = ImapSession::<NoMailbox>::with_credentials(Ok(())).unwrap();
    assert_eq!(session.logout(Ok(())), None);
    assert_eq!(logout_warning(Ok(())), None);
    assert_eq!(
        logout_warning(Err(String::new())),
        Some("\nFailed to log out from session. May still be active.".to_owned())
    );
    assert_eq!(LOGOUT_FAILED, "\nFailed to log out from session. May still be active.");
}

#[test]
fn load_fetches_the_most_recent_in_order() {
    let server = Server::holding(&[(1, "Subject: one\n\n1"), (5, "Subject: five\n\n5"), (3, "Subject: three\n\n3")]);
    let mut inbox = inbox();
    let mut loader = inbox.load_recent(2, server.search()).unwrap();
    let mut asked = Vec::new();
    while let Some(uid) = loader.next_uid() {
        asked.push(uid);
        loader = loader.accept(&mut inbox, server.uid_fetch(&uid_set(uid))).unwrap();
    }
    assert_eq!(asked, vec![5, 3]);
    let batch = loader.finish().unwrap();
    assert_eq!(
        batch,
        vec![(5, "Subject: five\n\n5".to_owned()), (3, "Subject: three\n\n3".to_owned())]
    );
    let emails = parse_batch(&batch).unwrap();
    assert_eq!(emails.iter().map(|email| email.uid()).collect::<Vec<_>>(), vec![5, 3]);
    assert_eq!(emails[0].to_plain_body(), Some("5"));
    assert_eq!(emails[1].to_plain_body(), Some("3"));
}

#[test]
fn load_fails_on_the_first_failed_fetch() {
    let mut server = Server::holding(&[(1, "a"), (2, "b"), (3, "c"), (4, "d"), (5, "e")]);
    server.mails[2].1 = None;
    let mut inbox = inbox();
    let mut loader = inbox.load_recent(5, server.search()).unwrap();
    let mut asked = Vec::new();
    let error = loop {
        let uid = loader.next_uid().unwrap();
        asked.push(uid);
        match loader.accept(&mut inbox, server.uid_fetch(&uid_set(uid))) {
            Ok(next) => loader = next,
            Err(error) => break error,
        }
    };
    assert_eq!(error, Error::NoBody);
    assert_eq!(asked, vec![5, 4, 3]);
}

#[test]
fn load_is_not_finished_before_its_last_fetch() {
    let loader = Loader::new(vec![9, 8], 5);
    assert_eq!(loader.next_uid(), Some(9));
    assert_eq!(loader.finish(), None);
    let mut inbox = inbox();
    let loader = Loader::new(vec![9, 8], 1);
    let loader = loader.accept(&mut inbox, Ok(vec![Some(b"x".to_vec())])).unwrap();
    assert_eq!(loader.next_uid(), None);
    let loader = loader.accept(&mut inbox, Err("not read".to_owned())).unwrap();
    assert_eq!(loader.finish(), Some(vec![(9, "x".to_owned())]));
}

#[test]
fn load_of_nothing_is_finished_at_once() {
    let mut inbox = inbox();
    let loader = inbox.load_recent(0, Ok(vec![4, 6])).unwrap();
    assert_eq!(loader.next_uid(), None);
    assert_eq!(loader.finish(), Some(vec![]));
    let loader = inbox.load_recent(20, Ok(vec![])).unwrap();
    assert_eq!(loader.finish(), Some(vec![]));
    let loader = inbox.load_recent(20, Ok(vec![4, 6])).unwrap();
    assert_eq!(loader.next_uid(), Some(6));
    let failed = inbox.load_recent(20, Err("lost".to_owned()));
    assert_eq!(failed.err(), Some(Error::ImapFetch("lost".to_owned())));
}

#[test]
fn batch_fails_on_the_first_mail_that_does_not_parse() {
    let batch = vec![
        (5, "Subject: five\n\n5".to_owned()),
        (3, String::new()),
        (1, "Subject: one\n\n1".to_owned()),
    ];
    assert_eq!(parse_batch(&batch).err(), Some(parser::Error::ParseFailure));
    assert_eq!(parse_batch(&Vec::new()).unwrap().len(), 0);
}

#[test]
fn inbox_session_reads_the_first_mail() {
    let mut session = imap_connection::ImapSession::with_credentials(Ok(())).unwrap();
    assert_eq!(session.select_inbox(Ok(())), Ok(()));
    assert_eq!(
        session.get_latest_inbox_mail(Ok(vec![Some(b"first".to_vec()), Some(b"second".to_vec())])),
        Ok("first".to_owned())
    );
    assert_eq!(session.get_latest_inbox_mail(Ok(vec![])), Err(Error::NoEmail));
    assert_eq!(session.get_latest_inbox_mail(Ok(vec![None])), Err(Error::NoBody));
    assert_eq!(session.get_latest_inbox_mail(Ok(vec![Some(vec![0xc0])])), Err(Error::InvalidBody));
    assert_eq!(
        session.get_latest_inbox_mail(Err("lost".to_owned())),
        Err(Error::ImapFetch("lost".to_owned()))
    );
    assert_eq!(
        session.select_inbox(Err("gone".to_owned())),
        Err(Error::InvalidMailboxName("gone".to_owned()))
    );
    assert_eq!(
        session.logout(Err("e".to_owned())),
        Some("e\nFailed to log out from session. May still be active.".to_owned())
    );
    let refused =
        imap_connection::ImapSession::with_credentials(Err(ConnectFailure::Tls("t".to_owned())));
    assert_eq!(refused.err(), Some(Error::TlsConnection("t".to_owned())));
}

#[test]
fn load_takes_no_more_than_the_limit() {
    let mails: Vec<(u32, String)> = (1..=25).map(|uid| (uid, format!("Subject: {uid}\n\n{uid}"))).collect();
    let server = Server {
        mails: mails.iter().map(|(uid, text)| (*uid, Some(text.as_bytes().to_vec()))).collect(),
        down: false,
    };
    let mut inbox = inbox();
    let mut loader = inbox.load_recent(RECENT, server.search()).unwrap();
    while let Some(uid) = loader.next_uid() {
        loader = loader.accept(&mut inbox, server.uid_fetch(&uid_set(uid))).unwrap();
    }
    let batch = loader.finish().unwrap();
    assert_eq!(batch.iter().map(|(uid, _)| *uid).collect::<Vec<_>>(), (6..=25).rev().collect::<Vec<u32>>());
    assert_eq!(batch[0].1, "Subject: 25\n\n25");
}
