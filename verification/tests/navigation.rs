use mailbox::fetch::parser::{
    Addr, Address, DateTime, Email, Header, HeaderName, HeaderValue,
};
use mailbox::tui::app::{EmailsPage, ExplorerItem, Screen, Tui, ViewerPanel};
use mailbox::tui::event::{Event, KeyCode, KeyEvent, ALT, CONTROL, META, NONE, SHIFT};
use mailbox::tui::manual::{manual_page, ManualLine};
use mailbox::tui::states::TuiMode;
use mailbox::tui::writer::{Writer, WriterPage};

fn mail(uid: u32, subject: &str) -> Email {
    let headers = vec![
        Header { name: HeaderName::new("Subject"), value: HeaderValue::Text(subject.to_owned()) },
        Header {
            name: HeaderName::new("Date"),
            value: HeaderValue::DateTime(DateTime {
                year: 2024,
                month: 2,
                day: 29,
                hour: 12,
                minute: 0,
                second: 9,
                tz_before_gmt: false,
                tz_hour: 1,
                tz_minute: 0,
            }),
        },
        Header {
            name: HeaderName::new("From"),
            value: HeaderValue::Address(Address::List(vec![Addr::new(Some("Ann"), "ann@example.com")])),
        },
    ];
    Email::from_parts(uid, headers, None, Some(format!("body of {subject}"))).unwrap()
}

fn three_mails() -> Tui {
    Tui::new(vec![mail(5, "five"), mail(3, "three"), mail(1, "one")])
}

fn press(tui: &mut Tui, keys: &str) {
    for c in keys.chars() {
        tui.handle_key_events(&Event::char(c));
    }
}

fn key(code: KeyCode, modifiers: u8) -> Event {
    Event::Key(KeyEvent::new(code, modifiers))
}

fn page(tui: &Tui) -> WriterPage {
    match tui.draw_tui() {
        Screen::Writer(page) => page,
        other => panic!("the writer is not shown: {other:?}"),
    }
}

fn reader(tui: &Tui) -> EmailsPage {
    match tui.draw_tui() {
        Screen::Emails(page) => page,
        other => panic!("the reader is not shown: {other:?}"),
    }
}

#[test]
fn starts_on_the_manual() {
    let tui = three_mails();
    assert!(matches!(tui.mode(), TuiMode::Help));
    assert_eq!(tui.current_id(), 0);
    assert_eq!(tui.open_email_id(), None);
    assert!(!tui.is_running());
    assert_eq!(tui.emails().len(), 3);
    assert_eq!(tui.draw_tui(), Screen::Manual(manual_page()));
    let empty = Tui::default();
    assert!(matches!(empty.mode(), TuiMode::Help));
    assert!(empty.emails().is_empty());
    assert!(matches!(TuiMode::default(), TuiMode::Help));
}

#[test]
fn mode_keys_switch_from_any_mode() {
    let mut tui = three_mails();
    press(&mut tui, "r");
    assert!(matches!(tui.mode(), TuiMode::Reading));
    press(&mut tui, "w");
    assert!(matches!(tui.mode(), TuiMode::Writing(_)));
    press(&mut tui, "m");
    assert!(matches!(tui.mode(), TuiMode::Help));
    press(&mut tui, "w");
    press(&mut tui, "r");
    assert!(matches!(tui.mode(), TuiMode::Reading));
    press(&mut tui, "m");
    assert!(matches!(tui.mode(), TuiMode::Help));
}

#[test]
fn cursor_stays_in_range() {
    let mut tui = three_mails();
    press(&mut tui, "r");
    let mut expected: usize = 0;
    for c in "jjjjkjkkkkkjjkjjjjkk".chars() {
        press(&mut tui, &c.to_string());
        expected = if c == 'j' { (expected + 1).min(2) } else { expected.saturating_sub(1) };
        assert_eq!(tui.current_id(), expected);
        assert!(tui.current_id() <= 2);
    }
    assert_eq!(expected, 0);
    press(&mut tui, "jj");
    assert_eq!(tui.current_id(), 2);
    press(&mut tui, "j");
    assert_eq!(tui.current_id(), 2);
}

#[test]
fn cursor_does_not_move_on_an_empty_list() {
    let mut tui = Tui::new(Vec::new());
    press(&mut tui, "r");
    for c in "jkjjkkkjjj".chars() {
        press(&mut tui, &c.to_string());
        assert_eq!(tui.current_id(), 0);
    }
    press(&mut tui, "l");
    assert_eq!(tui.open_email_id(), Some(0));
    let page = reader(&tui);
    assert!(page.explorer.is_empty());
    assert_eq!(page.viewer, None);
}

#[test]
fn cursor_moves_only_while_reading() {
    let mut tui = three_mails();
    press(&mut tui, "jjl");
    assert_eq!(tui.current_id(), 0);
    assert_eq!(tui.open_email_id(), None);
    press(&mut tui, "rjl");
    assert_eq!(tui.current_id(), 1);
    assert_eq!(tui.open_email_id(), Some(1));
    press(&mut tui, "mkh");
    assert_eq!(tui.current_id(), 1);
    assert_eq!(tui.open_email_id(), Some(1));
}

#[test]
fn open_then_close() {
    let mut tui = three_mails();
    press(&mut tui, "rj");
    press(&mut tui, "l");
    assert_eq!(tui.open_email_id(), Some(1));
    press(&mut tui, "h");
    assert_eq!(tui.open_email_id(), None);
    press(&mut tui, "h");
    assert_eq!(tui.open_email_id(), None);
    assert_eq!(tui.current_id(), 1);
    assert!(matches!(tui.mode(), TuiMode::Reading));
}

#[test]
fn opened_mail_is_independent_of_the_cursor() {
    let mut tui = three_mails();
    press(&mut tui, "rljj");
    assert_eq!(tui.open_email_id(), Some(0));
    assert_eq!(tui.current_id(), 2);
    let page = reader(&tui);
    assert_eq!(page.viewer.unwrap().subject, "five");
    assert_eq!(
        page.explorer.iter().map(|item| item.highlighted).collect::<Vec<_>>(),
        vec![false, false, true]
    );
}

#[test]
fn quit_stops_the_interface() {
    for mode in ["", "r", "m", "w"] {
        let mut tui = three_mails();
        tui.start();
        assert!(tui.is_running());
        press(&mut tui, mode);
        assert!(tui.is_running());
        press(&mut tui, "q");
        assert!(!tui.is_running());
    }
}

#[test]
fn quit_is_text_while_the_body_is_edited() {
    let mut tui = three_mails();
    tui.start();
    press(&mut tui, "wb");
    press(&mut tui, "q");
    assert!(tui.is_running());
    assert!(matches!(tui.mode(), TuiMode::Writing(_)));
    assert_eq!(
        page(&tui),
        WriterPage { subject: String::new(), to: String::new(), body: "q".to_owned() }
    );
    tui.handle_key_events(&key(KeyCode::Esc, NONE));
    assert!(tui.is_running());
    assert!(matches!(tui.mode(), TuiMode::Writing(_)));
    press(&mut tui, "q");
    assert!(!tui.is_running());
}

#[test]
fn second_draft_starts_empty() {
    let mut tui = three_mails();
    press(&mut tui, "ws");
    press(&mut tui, "hello");
    assert_eq!(page(&tui).subject, "hello");
    tui.handle_key_events(&key(KeyCode::Esc, NONE));
    press(&mut tui, "r");
    press(&mut tui, "w");
    assert_eq!(
        page(&tui),
        WriterPage { subject: String::new(), to: String::new(), body: String::new() }
    );
    press(&mut tui, "s");
    press(&mut tui, "x");
    tui.handle_key_events(&key(KeyCode::Esc, NONE));
    press(&mut tui, "w");
    assert_eq!(page(&tui).subject, "");
}

#[test]
fn fields_are_edited_one_at_a_time() {
    let mut tui = three_mails();
    press(&mut tui, "wt");
    press(&mut tui, "bob@example.com");
    tui.handle_key_events(&key(KeyCode::Esc, NONE));
    press(&mut tui, "s");
    press(&mut tui, "rwm");
    tui.handle_key_events(&key(KeyCode::Esc, NONE));
    press(&mut tui, "b");
    press(&mut tui, "jklh");
    assert_eq!(
        page(&tui),
        WriterPage {
            subject: "rwm".to_owned(),
            to: "bob@example.com".to_owned(),
            body: "jklh".to_owned(),
        }
    );
    assert_eq!(tui.current_id(), 0);
    assert_eq!(tui.open_email_id(), None);
}

#[test]
fn idle_writer_leaves_other_keys_to_the_bindings() {
    let mut writer = Writer::new();
    assert!(!writer.handle_key_events(&Event::char('x')));
    assert!(!writer.handle_key_events(&Event::char('q')));
    assert!(!writer.handle_key_events(&key(KeyCode::Esc, NONE)));
    assert!(!writer.handle_key_events(&key(KeyCode::Backspace, NONE)));
    assert!(writer.handle_key_events(&Event::Resize(80, 24)));
    assert!(writer.handle_key_events(&Event::FocusGained));
    assert_eq!(
        writer.writer_page(),
        WriterPage { subject: String::new(), to: String::new(), body: String::new() }
    );
    assert!(writer.handle_key_events(&Event::char('s')));
    assert!(writer.handle_key_events(&Event::char('t')));
    assert!(writer.handle_key_events(&key(KeyCode::Esc, NONE)));
    assert!(writer.handle_key_events(&Event::char('t')));
    assert!(writer.handle_key_events(&Event::char('b')));
    assert_eq!(
        writer.writer_page(),
        WriterPage { subject: "t".to_owned(), to: "b".to_owned(), body: String::new() }
    );
    assert_eq!(Writer::default().writer_page(), Writer::new().writer_page());
}

#[test]
fn editing_keys_reach_the_field() {
    let mut writer = Writer::new();
    writer.handle_key_events(&Event::char('b'));
    for c in "abcd".chars() {
        writer.handle_key_events(&Event::char(c));
    }
    writer.handle_key_events(&key(KeyCode::Backspace, NONE));
    assert_eq!(writer.writer_page().body, "abc");
    writer.handle_key_events(&key(KeyCode::Left, NONE));
    writer.handle_key_events(&Event::char('X'));
    assert_eq!(writer.writer_page().body, "abXc");
    writer.handle_key_events(&key(KeyCode::Home, NONE));
    writer.handle_key_events(&key(KeyCode::Char('Y'), SHIFT));
    assert_eq!(writer.writer_page().body, "YabXc");
    writer.handle_key_events(&key(KeyCode::Delete, NONE));
    assert_eq!(writer.writer_page().body, "YbXc");
    writer.handle_key_events(&key(KeyCode::End, NONE));
    writer.handle_key_events(&key(KeyCode::Char('z'), CONTROL + ALT));
    assert_eq!(writer.writer_page().body, "YbXcz");
    writer.handle_key_events(&key(KeyCode::Left, NONE));
    writer.handle_key_events(&key(KeyCode::Right, NONE));
    writer.handle_key_events(&Event::char('!'));
    assert_eq!(writer.writer_page().body, "YbXcz!");
    writer.handle_key_events(&key(KeyCode::Other, NONE));
    assert_eq!(writer.writer_page().body, "YbXcz!");
    writer.handle_key_events(&key(KeyCode::Char('x'), META));
    assert_eq!(writer.writer_page().body, "YbXcz!");
    writer.handle_key_events(&key(KeyCode::Char('x'), 0x40));
    assert_eq!(writer.writer_page().body, "YbXcz!");
    writer.handle_key_events(&key(KeyCode::Char('u'), CONTROL));
    assert_eq!(writer.writer_page().body, "");
    writer.handle_key_events(&key(KeyCode::Char('y'), CONTROL));
    assert_eq!(writer.writer_page().body, "YbXcz!");
}

#[test]
fn released_keys_type_nothing() {
    let mut writer = Writer::new();
    writer.handle_key_events(&Event::char('s'));
    writer.handle_key_events(&Event::char('a'));
    let release = KeyEvent { code: KeyCode::Char('b'), modifiers: NONE, released: true };
    assert!(writer.handle_key_events(&Event::Key(release)));
    assert_eq!(writer.writer_page().subject, "a");
    let release = KeyEvent { code: KeyCode::Backspace, modifiers: NONE, released: true };
    writer.handle_key_events(&Event::Key(release));
    assert_eq!(writer.writer_page().subject, "a");
}

#[test]
fn other_events_change_nothing() {
    let events = [
        Event::FocusGained,
        Event::FocusLost,
        Event::Mouse,
        Event::Paste("q".to_owned()),
        Event::Resize(10, 10),
        key(KeyCode::Other, NONE),
        key(KeyCode::Left, NONE),
        Event::char('x'),
    ];
    for mode in ["", "r", "rjl", "w", "wsab"] {
        let mut tui = three_mails();
        tui.start();
        press(&mut tui, mode);
        if mode == "wsab" {
            tui.handle_key_events(&key(KeyCode::Esc, NONE));
        }
        let before = tui.draw_tui();
        let cursor = tui.current_id();
        let opened = tui.open_email_id();
        for event in &events {
            tui.handle_key_events(event);
            assert_eq!(tui.draw_tui(), before);
            assert_eq!(tui.current_id(), cursor);
            assert_eq!(tui.open_email_id(), opened);
            assert!(tui.is_running());
        }
    }
}

#[test]
fn reader_lists_the_mails_in_their_order() {
    let mut tui = three_mails();
    press(&mut tui, "rj");
    let page = reader(&tui);
    let date = "2024-02-29T12:00:09+01:00".to_owned();
    assert_eq!(
        page.explorer,
        vec![
            ExplorerItem { subject: "five".to_owned(), date: date.clone(), highlighted: false },
            ExplorerItem { subject: "three".to_owned(), date: date.clone(), highlighted: true },
            ExplorerItem { subject: "one".to_owned(), date: date.clone(), highlighted: false },
        ]
    );
    assert_eq!(page.viewer, None);
    press(&mut tui, "l");
    assert_eq!(
        reader(&tui).viewer,
        Some(ViewerPanel {
            subject: "three".to_owned(),
            date,
            from: "List([Addr { name: Some(\"Ann\"), address: Some(\"ann@example.com\") }])"
                .to_owned(),
            body: "body of three".to_owned(),
        })
    );
}

#[test]
fn missing_subject_is_shown_as_a_placeholder() {
    let bare = Email::from_parts(
        2,
        vec![Header { name: HeaderName::new("X-Tag"), value: HeaderValue::Other }],
        None,
        None,
    )
    .unwrap();
    let mut tui = Tui::new(vec![bare, mail(1, "one")]);
    press(&mut tui, "rl");
    let page = reader(&tui);
    assert_eq!(
        page.viewer,
        Some(ViewerPanel {
            subject: "No subject".to_owned(),
            date: "No date".to_owned(),
            from: "No from".to_owned(),
            body: "No body".to_owned(),
        })
    );
    assert_eq!(page.explorer.len(), 2);
    assert_eq!(page.explorer[0].subject, "No subject");
    assert_eq!(page.explorer[0].date, "No date");
    assert_eq!(page.explorer[1].subject, "one");
}

#[test]
fn header_of_another_shape_is_shown_as_a_placeholder() {
    let odd = Email::from_parts(
        2,
        vec![
            Header { name: HeaderName::new("Subject"), value: HeaderValue::Other },
            Header { name: HeaderName::new("Date"), value: HeaderValue::Text("today".to_owned()) },
            Header { name: HeaderName::new("From"), value: HeaderValue::Text("me".to_owned()) },
        ],
        None,
        Some(String::new()),
    )
    .unwrap();
    let mut tui = Tui::new(vec![odd]);
    press(&mut tui, "rl");
    assert_eq!(
        reader(&tui).viewer,
        Some(ViewerPanel {
            subject: "No subject".to_owned(),
            date: "No date".to_owned(),
            from: "No from".to_owned(),
            body: String::new(),
        })
    );
}

#[test]
fn manual_has_its_headings() {
    let lines = manual_page();
    assert_eq!(lines.len(), 32);
    assert_eq!(lines[0], ManualLine { text: "mailbox-tui", bold: true });
    assert_eq!(lines[1], ManualLine { text: "", bold: false });
    assert_eq!(lines[8], ManualLine { text: "> Press 'q' to exit the application.", bold: false });
    assert_eq!(
        lines[31],
        ManualLine { text: "Mode to write emails. Press 'w' to switch to this mode.", bold: false }
    );
    let headings: Vec<&str> = lines.iter().filter(|line| line.bold).map(|line| line.text).collect();
    assert_eq!(
        headings,
        vec!["mailbox-tui", "Presentation", "Modes", "Manual mode", "Read mode", "Write mode"]
    );
}

#[test]
fn new_writer_replaces_any_mode() {
    let mut mode = TuiMode::Reading;
    mode.new_writer();
    match &mode {
        TuiMode::Writing(writer) => assert_eq!(writer.writer_page().body, ""),
        _ => panic!("the writer is not open"),
    }
}
