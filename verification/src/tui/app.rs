//! State of the interface: what it shows, and what an event does to it.

use vstd::math::{max, min};
use vstd::prelude::*;

use crate::fetch::parser::{
    address_text, date_of, rfc3339_text, sender_of, subject_of, Email, EmailView,
};
use crate::tui::event::{key_char, Event, KeyCode, KeyEvent};
use crate::tui::manual::{manual_lines, manual_page, ManualLine};
use crate::tui::states::{Mode, TuiMode};
use crate::tui::writer::{
    draft_after, draft_consumes, empty_draft, typed_char, typed_into, WriterPage, WriterState,
};

verus! {

/// Errors that occur because of the rendering
#[derive(Debug, PartialEq, Eq)]
pub enum Error {
    /// Failed to clear the terminal
    ClearTerminal(String),
    /// Failed to disable raw terminal mode.
    DisablingRawMode(String),
    /// Error occurred while drawing a frame.
    Drawing(String),
    /// Error occurred while reading the keyboard presses.
    IoKeyboard(String),
    /// Failed to create the layout
    LayoutLengthFailure,
    /// Error occurred while spawning keyboard listener thread.
    UnknownKeyboard,
}

/// Follows the state of the interface.
pub struct Tui {
    /// Current mode of the interface, describing what the user is doing.
    ///
    /// This typically specifies if the user is writing or reading mails.
    mode: TuiMode,
    /// Id of the mail that is hovered
    ///
    /// The id is counted from the most recent mail: the latest mail has id 0.
    current_id: usize,
    /// Mails that were fetched from the server, the most recent first
    emails: Vec<Email>,
    /// Id of the opened mail
    ///
    /// This is counted as `current_id` is.
    open_email_id: Option<usize>,
    /// Indicates whether the interface is running
    running: bool,
}

/// Mathematical content of a [`Tui`].
pub struct TuiView {
    pub mode: Mode,
    pub current_id: nat,
    pub emails: Seq<EmailView>,
    pub open_email_id: Option<nat>,
    pub running: bool,
}

impl View for Tui {
    type V = TuiView;

    closed spec fn view(&self) -> TuiView {
        TuiView {
            mode: self.mode@,
            current_id: self.current_id as nat,
            emails: self.emails.deep_view(),
            open_email_id: match self.open_email_id {
                Some(id) => Some(id as nat),
                None => None,
            },
            running: self.running,
        }
    }
}

/// The state in which the interface starts: the manual is shown, the first
/// of the given mails is hovered, none is opened.
pub open spec fn initial(emails: Seq<EmailView>) -> TuiView {
    TuiView { mode: Mode::Help, current_id: 0, emails, open_email_id: None, running: false }
}

/// The hovered mail is one of the list, or the list is empty and the cursor
/// is at 0.
pub open spec fn cursor_in_range(tui: TuiView) -> bool {
    if tui.emails.len() == 0 {
        tui.current_id == 0
    } else {
        tui.current_id < tui.emails.len()
    }
}

/// The cursor one mail down, unless it is on the last one.
pub open spec fn cursor_down(cursor: nat, len: nat) -> nat {
    if cursor + 1 < len {
        cursor + 1
    } else {
        cursor
    }
}

/// The cursor one mail up, unless it is on the first one.
pub open spec fn cursor_up(cursor: nat) -> nat {
    if cursor > 0 {
        (cursor - 1) as nat
    } else {
        0
    }
}

/// What an event that no text field took does to the interface.
///
/// `q` quits, `m`, `r` and `w` change the mode, and `w` always starts an
/// empty draft. While reading, `j` and `k` move the cursor, `l` opens the
/// hovered mail and `h` closes the opened one. Anything else changes nothing.
pub open spec fn after_binding(tui: TuiView, event: Event) -> TuiView {
    match key_char(event) {
        Some(c) => if c == 'q' {
            TuiView { running: false, ..tui }
        } else if c == 'j' && tui.mode is Reading {
            TuiView { current_id: cursor_down(tui.current_id, tui.emails.len()), ..tui }
        } else if c == 'k' && tui.mode is Reading {
            TuiView { current_id: cursor_up(tui.current_id), ..tui }
        } else if c == 'l' && tui.mode is Reading {
            TuiView { open_email_id: Some(tui.current_id), ..tui }
        } else if c == 'h' && tui.mode is Reading {
            TuiView { open_email_id: None, ..tui }
        } else if c == 'w' {
            TuiView { mode: Mode::Writing(empty_draft()), ..tui }
        } else if c == 'r' {
            TuiView { mode: Mode::Reading, ..tui }
        } else if c == 'm' {
            TuiView { mode: Mode::Help, ..tui }
        } else {
            tui
        },
        None => tui,
    }
}

/// What an event does to the interface. While a mail is written the writer
/// sees the event first, and the bindings apply only if it does not take it.
pub open spec fn after_event(tui: TuiView, event: Event) -> TuiView {
    match tui.mode {
        Mode::Writing(draft) => if draft_consumes(draft, event) {
            TuiView { mode: Mode::Writing(draft_after(draft, event)), ..tui }
        } else {
            after_binding(tui, event)
        },
        _ => after_binding(tui, event),
    }
}

/// What a sequence of events does to the interface, one after the other.
pub open spec fn after_events(tui: TuiView, events: Seq<Event>) -> TuiView
    decreases events.len(),
{
    if events.len() == 0 {
        tui
    } else {
        after_event(after_events(tui, events.drop_last()), events.last())
    }
}

/// Whether a field of the writer is taking the keys.
pub open spec fn is_typing(tui: TuiView) -> bool {
    tui.mode matches Mode::Writing(draft) && draft.active != WriterState::Idle
}

/// Character that the event types into the active field of the writer, if
/// a field is active and the event types one.
pub open spec fn captures(tui: TuiView, event: Event) -> Option<char> {
    match event {
        Event::Key(key) => if is_typing(tui) {
            typed_char(key)
        } else {
            None
        },
        _ => None,
    }
}

/// The interface with `c` typed into the active field of the writer.
pub open spec fn typed_in(tui: TuiView, c: char) -> TuiView {
    match tui.mode {
        Mode::Writing(draft) => TuiView { mode: Mode::Writing(typed_into(draft, c)), ..tui },
        _ => tui,
    }
}

/// Press of the character key `c`, no modifier held.
pub open spec fn press(c: char) -> Event {
    Event::Key(KeyEvent { code: KeyCode::Char(c), modifiers: 0, released: false })
}

/// No event changes the list of mails, and the cursor stays on a mail of the
/// list whatever events arrive. When the list is empty the cursor does not
/// move.
pub proof fn law_cursor_stays_in_range(tui: TuiView, events: Seq<Event>)
    requires
        cursor_in_range(tui),
    ensures
        after_events(tui, events).emails == tui.emails,
        cursor_in_range(after_events(tui, events)),
        tui.emails.len() == 0 ==> after_events(tui, events).current_id == tui.current_id,
    decreases events.len(),
{
    if events.len() > 0 {
        law_cursor_stays_in_range(tui, events.drop_last());
    }
}

/// While reading, `j` moves the cursor to the next mail and stops at the
/// last one, and `k` moves it to the previous mail and stops at the first.
pub proof fn law_cursor_moves_by_one(tui: TuiView)
    requires
        tui.mode is Reading,
        cursor_in_range(tui),
        tui.emails.len() > 0,
    ensures
        after_event(tui, press('j')).current_id == min(
            tui.current_id as int + 1,
            tui.emails.len() as int - 1,
        ),
        after_event(tui, press('k')).current_id == max(tui.current_id as int - 1, 0),
{
}

/// While reading, `l` opens the hovered mail, `h` after it leaves no mail
/// opened, and `h` changes nothing when no mail is opened.
pub proof fn law_open_then_close(tui: TuiView)
    requires
        tui.mode is Reading,
    ensures
        after_event(tui, press('l')).open_email_id == Some(tui.current_id),
        after_event(after_event(tui, press('l')), press('h')).open_email_id.is_none(),
        after_event(after_event(tui, press('l')), press('h')) == (TuiView {
            open_email_id: None,
            ..tui
        }),
        tui.open_email_id.is_none() ==> after_event(tui, press('h')) == tui,
{
}

/// Unless a field of the writer is taking the keys, `w` starts a mail with
/// three empty fields: a draft in progress is discarded.
pub proof fn law_writing_starts_empty(tui: TuiView)
    requires
        !is_typing(tui),
    ensures
        after_event(tui, press('w')) == (TuiView { mode: Mode::Writing(empty_draft()), ..tui }),
{
}

/// Unless a field of the writer is taking the keys, `q` stops the interface
/// and changes nothing else. While a field is taking the keys, `q` leaves
/// the interface running.
pub proof fn law_quit_unless_typing(tui: TuiView)
    ensures
        !is_typing(tui) ==> after_event(tui, press('q')) == (TuiView { running: false, ..tui }),
        is_typing(tui) ==> after_event(tui, press('q')).running == tui.running,
{
}

/// Events that are no key events change nothing.
pub proof fn law_other_events_change_nothing(tui: TuiView, event: Event)
    requires
        !(event is Key),
    ensures
        after_event(tui, event) == tui,
{
}

/// Subject to show for a mail: its subject, or a placeholder where the mail
/// has no subject header or has one that holds no text.
pub open spec fn subject_shown(email: EmailView) -> Seq<char> {
    match subject_of(email) {
        Ok(text) => text,
        Err(_) => "No subject"@,
    }
}

/// Date to show for a mail: its date as RFC 3339 text, or a placeholder where
/// the mail has no date header or has one that holds no date.
pub open spec fn date_shown(email: EmailView) -> Seq<char> {
    match date_of(email) {
        Ok(datetime) => rfc3339_text(datetime),
        Err(_) => "No date"@,
    }
}

/// Sender to show for a mail: the addresses of its origin, or a placeholder
/// where the mail has no origin header or has one that holds no addresses.
pub open spec fn from_shown(email: EmailView) -> Seq<char> {
    match sender_of(email) {
        Ok(address) => address_text(address),
        Err(_) => "No from"@,
    }
}

/// Body to show for a mail: its plain text, or a placeholder where it has
/// none.
pub open spec fn body_shown(email: EmailView) -> Seq<char> {
    match email.text {
        Some(text) => text,
        None => "No body"@,
    }
}

/// One entry of the list of mails.
#[derive(Debug, PartialEq, Eq)]
pub struct ExplorerItem {
    /// Subject of the mail
    pub subject: String,
    /// Date of the mail
    pub date: String,
    /// Whether the mail is the hovered one
    pub highlighted: bool,
}

/// The panel that displays the opened mail.
#[derive(Debug, PartialEq, Eq)]
pub struct ViewerPanel {
    /// Subject of the mail
    pub subject: String,
    /// Date of the mail
    pub date: String,
    /// Sender of the mail
    pub from: String,
    /// Text of the mail
    pub body: String,
}

/// What the reader shows: the list of mails and, beside it, the opened one.
#[derive(Debug, PartialEq, Eq)]
pub struct EmailsPage {
    /// The list of mails, the most recent first
    pub explorer: Vec<ExplorerItem>,
    /// The opened mail, if one is opened
    pub viewer: Option<ViewerPanel>,
}

/// What the interface shows.
#[derive(Debug, PartialEq, Eq)]
pub enum Screen {
    /// The manual
    Manual(Vec<ManualLine>),
    /// The writer
    Writer(WriterPage),
    /// The reader
    Emails(EmailsPage),
}

/// The panel shows the given mail.
pub open spec fn shows_email(panel: ViewerPanel, email: EmailView) -> bool {
    &&& panel.subject@ == subject_shown(email)
    &&& panel.date@ == date_shown(email)
    &&& panel.from@ == from_shown(email)
    &&& panel.body@ == body_shown(email)
}

/// The list has one entry for each mail, in their order, and marks the
/// hovered one.
pub open spec fn shows_list(explorer: Seq<ExplorerItem>, tui: TuiView) -> bool {
    &&& explorer.len() == tui.emails.len()
    &&& forall|i: int|
        0 <= i < explorer.len() ==> {
            &&& (#[trigger] explorer[i]).subject@ == subject_shown(tui.emails[i])
            &&& explorer[i].date@ == date_shown(tui.emails[i])
            &&& explorer[i].highlighted == (i == tui.current_id)
        }
}

/// The page shows the list of mails, and the opened mail if one of the list
/// is opened.
pub open spec fn shows_reader(page: EmailsPage, tui: TuiView) -> bool {
    &&& shows_list(page.explorer@, tui)
    &&& match tui.open_email_id {
        Some(id) => if id < tui.emails.len() {
            page.viewer matches Some(panel) && shows_email(panel, tui.emails[id as int])
        } else {
            page.viewer is None
        },
        None => page.viewer is None,
    }
}

/// The screen shows the interface in its current mode.
pub open spec fn shows(screen: Screen, tui: TuiView) -> bool {
    match tui.mode {
        Mode::Help => screen matches Screen::Manual(lines) && lines@ == manual_lines(),
        Mode::Writing(draft) => {
            &&& screen matches Screen::Writer(page)
            &&& page.subject@ == draft.subject.text
            &&& page.to@ == draft.to.text
            &&& page.body@ == draft.body.text
        },
        Mode::Reading => screen matches Screen::Emails(page) && shows_reader(page, tui),
    }
}

/// Subject to show for a mail.
fn subject_text(email: &Email) -> (subject: String)
    ensures
        subject@ == subject_shown(email@),
{
    match email.subject() {
        Ok(text) => text.to_owned(),
        Err(_) => "No subject".to_owned(),
    }
}

/// Date to show for a mail.
fn date_text(email: &Email) -> (date: String)
    ensures
        date@ == date_shown(email@),
{
    match email.date() {
        Ok(datetime) => datetime.to_rfc3339(),
        Err(_) => "No date".to_owned(),
    }
}

/// Sender to show for a mail.
fn from_text(email: &Email) -> (from: String)
    ensures
        from@ == from_shown(email@),
{
    match email.sender() {
        Ok(address) => address.to_debug_text(),
        Err(_) => "No from".to_owned(),
    }
}

impl Default for Tui {
    fn default() -> (tui: Self)
        ensures
            tui@ == initial(Seq::empty()),
    {
        let emails: Vec<Email> = Vec::new();
        assert(emails.deep_view() =~= Seq::<EmailView>::empty());
        Tui::new(emails)
    }
}

impl Tui {
    /// Creates a new [`Tui`] on the mails that were loaded
    pub fn new(emails: Vec<Email>) -> (tui: Self)
        ensures
            tui@ == initial(emails.deep_view()),
            cursor_in_range(tui@),
    {
        Tui {
            mode: TuiMode::Help,
            current_id: 0,
            emails,
            open_email_id: None,
            running: false,
        }
    }

    /// Marks the interface as running; events are handled from now on.
    pub fn start(&mut self)
        ensures
            final(self)@ == (TuiView { running: true, ..old(self)@ }),
    {
        self.running = true;
    }

    /// Whether the interface is running: it is until `q` quits it.
    pub fn is_running(&self) -> (running: bool)
        ensures
            running == self@.running,
    {
        self.running
    }

    /// Id of the hovered mail
    pub fn current_id(&self) -> (id: usize)
        ensures
            id == self@.current_id,
    {
        self.current_id
    }

    /// Id of the opened mail, if one is opened
    pub fn open_email_id(&self) -> (id: Option<usize>)
        ensures
            match id {
                Some(id) => self@.open_email_id == Some(id as nat),
                None => self@.open_email_id.is_none(),
            },
    {
        self.open_email_id
    }

    /// Current mode of the interface
    pub fn mode(&self) -> (mode: &TuiMode)
        ensures
            mode@ == self@.mode,
    {
        &self.mode
    }

    /// Mails of the list, the most recent first
    pub fn emails(&self) -> (emails: &Vec<Email>)
        ensures
            emails.deep_view() == self@.emails,
    {
        &self.emails
    }

    /// What to draw: called on every loop to re-render the interface.
    pub fn draw_tui(&self) -> (screen: Screen)
        ensures
            shows(screen, self@),
    {
        match &self.mode {
            TuiMode::Help => Screen::Manual(manual_page()),
            TuiMode::Writing(writer) => Screen::Writer(writer.writer_page()),
            TuiMode::Reading => Screen::Emails(self.draw_emails()),
        }
    }

    /// Handles one event
    ///
    /// A key that types a character while a field of the writer is active
    /// goes into that field, whatever the key is bound to elsewhere.
    pub fn handle_key_events(&mut self, event: &Event)
        ensures
            final(self)@ == after_event(old(self)@, *event),
            final(self)@.emails == old(self)@.emails,
            cursor_in_range(old(self)@) ==> cursor_in_range(final(self)@),
            captures(old(self)@, *event) matches Some(c) ==> final(self)@ == typed_in(old(self)@, c),
    {
        if let TuiMode::Writing(writer) = &mut self.mode {
            if writer.handle_key_events(event) {
                return ;
            }
        }
        if let Event::Key(key) = event {
            if let KeyCode::Char(ch) = key.code {
                if ch == 'q' {
                    self.running = false;
                } else if ch == 'j' && self.is_reading() {
                    let incremented = self.current_id.saturating_add(1);
                    if incremented < self.emails.len() {
                        self.current_id = incremented;
                    }
                } else if ch == 'k' && self.is_reading() {
                    self.current_id = self.current_id.saturating_sub(1);
                } else if ch == 'l' && self.is_reading() {
                    self.open_email_id = Some(self.current_id);
                } else if ch == 'h' && self.is_reading() {
                    self.open_email_id = None;
                } else if ch == 'w' {
                    self.mode.new_writer();
                } else if ch == 'r' {
                    self.mode = TuiMode::Reading;
                } else if ch == 'm' {
                    self.mode = TuiMode::Help;
                }
            }
        }
    }

    /// Whether mails are being read
    fn is_reading(&self) -> (reading: bool)
        ensures
            reading == (self@.mode is Reading),
    {
        match self.mode {
            TuiMode::Reading => true,
            _ => false,
        }
    }

    /// What the reader shows
    fn draw_emails(&self) -> (page: EmailsPage)
        ensures
            shows_reader(page, self@),
    {
        let explorer = self.get_email_explorer_widget();
        let viewer = match self.open_email_id {
            Some(open_email_id) => if open_email_id < self.emails.len() {
                Some(Self::get_email_viewer_widget(&self.emails[open_email_id]))
            } else {
                None
            },
            None => None,
        };
        EmailsPage { explorer, viewer }
    }

    /// Creates the panel representing the mail viewer
    ///
    /// This is the panel displaying the content of the opened mail. A header
    /// that is missing, or of another shape than expected, is replaced by a
    /// placeholder.
    fn get_email_viewer_widget(email: &Email) -> (panel: ViewerPanel)
        ensures
            shows_email(panel, email@),
    {
        let subject = subject_text(email);
        let date = date_text(email);
        let from = from_text(email);
        let body = match email.to_plain_body() {
            Some(text) => text.to_owned(),
            None => "No body".to_owned(),
        };
        ViewerPanel { subject, date, from, body }
    }

    /// Creates the list representing the mail explorer
    ///
    /// This is the left panel of the reader, giving the list of received
    /// mails and enabling the user to select a mail to display.
    fn get_email_explorer_widget(&self) -> (explorer: Vec<ExplorerItem>)
        ensures
            shows_list(explorer@, self@),
    {
        let mut explorer: Vec<ExplorerItem> = Vec::new();
        let mut id: usize = 0;
        while id < self.emails.len()
            invariant
                id <= self.emails.len(),
                explorer.len() == id,
                forall|i: int|
                    0 <= i < id ==> {
                        &&& (#[trigger] explorer[i]).subject@ == subject_shown(self@.emails[i])
                        &&& explorer[i].date@ == date_shown(self@.emails[i])
                        &&& explorer[i].highlighted == (i == self@.current_id)
                    },
            decreases self.emails.len() - id,
        {
            let email = &self.emails[id];
            let item = ExplorerItem {
                subject: subject_text(email),
                date: date_text(email),
                highlighted: self.current_id == id,
            };
            explorer.push(item);
            id += 1;
        }
        explorer
    }
}

} // verus!
