//! Composing a mail: three text fields, and which of them takes the keys.

use ratatui::crossterm::event;
use tui_input::backend::crossterm::EventHandler;
use tui_input::Input;
use vstd::prelude::*;

use crate::tui::event::{Event, KeyCode, KeyEvent, CONTROL, ALT, NONE, SHIFT};

verus! {

/// Text field of the `tui_input` crate.
#[verifier::external_type_specification]
#[verifier::external_body]
pub struct ExInput(Input);

/// What a text field holds.
pub struct FieldState {
    /// Text typed so far
    pub text: Seq<char>,
    /// Number of characters before the cursor
    pub cursor: nat,
    /// Text cut last, for pasting back
    pub yank: Seq<char>,
    /// Whether the last edit cut text
    pub cut: bool,
}

/// What the text field `input` of `tui_input` holds: its value, its cursor,
/// and what it keeps of the last cut.
pub uninterp spec fn field_state(input: Input) -> FieldState;

/// What a text field that holds `state` holds once
/// `EventHandler::handle_event` of `tui_input` has handled `key`.
pub uninterp spec fn edited(state: FieldState, key: KeyEvent) -> FieldState;

/// A field that nothing was typed into.
pub open spec fn empty_field() -> FieldState {
    FieldState { text: Seq::empty(), cursor: 0, yank: Seq::empty(), cut: false }
}

/// Character that `key` types into a text field, if it types one.
pub open spec fn typed_char(key: KeyEvent) -> Option<char> {
    match key.code {
        KeyCode::Char(c) => if !key.released && (key.modifiers == NONE || key.modifiers == SHIFT
            || key.modifiers == CONTROL + ALT) {
            Some(c)
        } else {
            None
        },
        _ => None,
    }
}

/// Position in the text at which a typed character lands.
pub open spec fn caret(state: FieldState) -> int {
    if state.cursor <= state.text.len() {
        state.cursor as int
    } else {
        state.text.len() as int
    }
}

/// The field with `c` typed at the cursor.
pub open spec fn typed(state: FieldState, c: char) -> FieldState {
    FieldState {
        text: state.text.insert(caret(state), c),
        cursor: state.cursor + 1,
        yank: state.yank,
        cut: false,
    }
}

/// Keys that no text field reacts to.
pub open spec fn is_inert(key: KeyEvent) -> bool {
    key.released || key.code == KeyCode::Esc || key.code == KeyCode::Other
}

/// `Input::default` of `tui_input`: a field with no text, the cursor at its
/// start, and nothing cut.
#[verifier::external_body]
fn new_input() -> (input: Input)
    ensures
        field_state(input) == empty_field(),
{
    Input::default()
}

/// `Input::value` of `tui_input`: the text of the field.
#[verifier::external_body]
fn input_value(input: &Input) -> (value: &str)
    ensures
        value@ == field_state(*input).text,
{
    input.value()
}

/// `EventHandler::handle_event` of `tui_input`, on the key event of
/// `crossterm` with the same key, modifiers and kind, where a key without a
/// meaning of its own goes as `Null`: the field becomes what `edited` names.
/// A key that types a character inserts it at the cursor, moves the cursor
/// past it and leaves what was cut as it is; a key release, escape and the
/// keys without a meaning of their own change nothing.
#[verifier::external_body]
fn input_handle_key(input: &mut Input, key: &KeyEvent)
    ensures
        field_state(*final(input)) == edited(field_state(*old(input)), *key),
        typed_char(*key) matches Some(c) ==> field_state(*final(input)) == typed(
            field_state(*old(input)),
            c,
        ),
        is_inert(*key) ==> field_state(*final(input)) == field_state(*old(input)),
{
    let code = match key.code {
        KeyCode::Char(c) => event::KeyCode::Char(c),
        KeyCode::Esc => event::KeyCode::Esc,
        KeyCode::Backspace => event::KeyCode::Backspace,
        KeyCode::Delete => event::KeyCode::Delete,
        KeyCode::Left => event::KeyCode::Left,
        KeyCode::Right => event::KeyCode::Right,
        KeyCode::Home => event::KeyCode::Home,
        KeyCode::End => event::KeyCode::End,
        KeyCode::Other => event::KeyCode::Null,
    };
    let kind = if key.released { event::KeyEventKind::Release } else { event::KeyEventKind::Press };
    let modifiers = event::KeyModifiers::from_bits_retain(key.modifiers);
    input.handle_event(&event::Event::Key(event::KeyEvent::new_with_kind(code, modifiers, kind)));
}

/// State of the writer, informing on which field is being edited.
#[derive(Clone, Copy, Debug, PartialEq, Eq, Structural)]
pub enum WriterState {
    /// No field is being edited.
    ///
    /// Press `Esc` to enter this state.
    Idle,
    /// The destination field is being edited.
    ///
    /// Press `t` to enter this state.
    To,
    /// The subject field is being edited.
    ///
    /// Press `s` to enter this state.
    Subject,
    /// The body field is being edited.
    ///
    /// Press `b` to enter this state.
    Body,
}

impl Default for WriterState {
    fn default() -> (state: Self)
        ensures
            state == WriterState::Idle,
    {
        WriterState::Idle
    }
}

/// Representation of the writer, with its three fields.
pub struct Writer {
    /// Field to enter the subject of the mail
    subject: Input,
    /// Field to enter the destination(s) of the mail
    ///
    /// If there are multiple destinations, they must be separated with a
    /// comma. Spaces are ignored.
    to: Input,
    /// Field to enter the body of the mail
    body: Input,
    /// State of the writer
    ///
    /// Specifies what field is being edited
    state: WriterState,
}

/// Mathematical content of a [`Writer`].
pub struct Draft {
    pub subject: FieldState,
    pub to: FieldState,
    pub body: FieldState,
    pub active: WriterState,
}

/// What the writer shows: the text of its three fields.
#[derive(Debug, PartialEq, Eq)]
pub struct WriterPage {
    /// Text of the subject field
    pub subject: String,
    /// Text of the destination field
    pub to: String,
    /// Text of the body field
    pub body: String,
}

impl View for Writer {
    type V = Draft;

    closed spec fn view(&self) -> Draft {
        Draft {
            subject: field_state(self.subject),
            to: field_state(self.to),
            body: field_state(self.body),
            active: self.state,
        }
    }
}

/// The draft that a new writer holds.
pub open spec fn empty_draft() -> Draft {
    Draft {
        subject: empty_field(),
        to: empty_field(),
        body: empty_field(),
        active: WriterState::Idle,
    }
}

/// Whether the writer takes `event` for itself, so that the rest of the
/// interface does not see it.
pub open spec fn draft_consumes(draft: Draft, event: Event) -> bool {
    match event {
        Event::Key(key) => match draft.active {
            WriterState::Idle => key.code == KeyCode::Char('t') || key.code == KeyCode::Char('s')
                || key.code == KeyCode::Char('b'),
            _ => true,
        },
        _ => true,
    }
}

/// The draft once the writer has seen `event`.
pub open spec fn draft_after(draft: Draft, event: Event) -> Draft {
    match event {
        Event::Key(key) => match draft.active {
            WriterState::Idle => if key.code == KeyCode::Char('t') {
                Draft { active: WriterState::To, ..draft }
            } else if key.code == KeyCode::Char('s') {
                Draft { active: WriterState::Subject, ..draft }
            } else if key.code == KeyCode::Char('b') {
                Draft { active: WriterState::Body, ..draft }
            } else {
                draft
            },
            WriterState::To => if key.code == KeyCode::Esc {
                Draft { active: WriterState::Idle, ..draft }
            } else {
                Draft { to: edited(draft.to, key), ..draft }
            },
            WriterState::Subject => if key.code == KeyCode::Esc {
                Draft { active: WriterState::Idle, ..draft }
            } else {
                Draft { subject: edited(draft.subject, key), ..draft }
            },
            WriterState::Body => if key.code == KeyCode::Esc {
                Draft { active: WriterState::Idle, ..draft }
            } else {
                Draft { body: edited(draft.body, key), ..draft }
            },
        },
        _ => draft,
    }
}

impl Default for Writer {
    fn default() -> (writer: Self)
        ensures
            writer@ == empty_draft(),
    {
        Writer::new()
    }
}

impl Writer {
    /// A writer with three empty fields, none of them active.
    pub fn new() -> (writer: Self)
        ensures
            writer@ == empty_draft(),
    {
        Writer { subject: new_input(), to: new_input(), body: new_input(), state: WriterState::Idle }
    }

    /// What to display on every re-render of the page.
    pub fn writer_page(&self) -> (page: WriterPage)
        ensures
            page.subject@ == self@.subject.text,
            page.to@ == self@.to.text,
            page.body@ == self@.body.text,
    {
        WriterPage {
            subject: input_value(&self.subject).to_owned(),
            to: input_value(&self.to).to_owned(),
            body: input_value(&self.body).to_owned(),
        }
    }

    /// Handler to manage keypresses.
    ///
    /// Returns whether the writer took the event for itself.
    pub fn handle_key_events(&mut self, event: &Event) -> (consumed: bool)
        ensures
            final(self)@ == draft_after(old(self)@, *event),
            consumed == draft_consumes(old(self)@, *event),
            *event matches Event::Key(key) ==> (typed_char(key) matches Some(c) ==> old(self)@.active
                != WriterState::Idle ==> final(self)@ == typed_into(old(self)@, c)),
    {
        if let Event::Key(key) = event {
            match self.state {
                WriterState::Idle => {
                    if key.code == KeyCode::Char('t') {
                        self.state = WriterState::To;
                    } else if key.code == KeyCode::Char('s') {
                        self.state = WriterState::Subject;
                    } else if key.code == KeyCode::Char('b') {
                        self.state = WriterState::Body;
                    } else {
                        return false;
                    }
                },
                WriterState::To => {
                    if key.code == KeyCode::Esc {
                        self.state = WriterState::Idle;
                    } else {
                        input_handle_key(&mut self.to, key);
                    }
                },
                WriterState::Subject => {
                    if key.code == KeyCode::Esc {
                        self.state = WriterState::Idle;
                    } else {
                        input_handle_key(&mut self.subject, key);
                    }
                },
                WriterState::Body => {
                    if key.code == KeyCode::Esc {
                        self.state = WriterState::Idle;
                    } else {
                        input_handle_key(&mut self.body, key);
                    }
                },
            }
        }
        true
    }
}

/// The draft with `c` typed into its active field.
pub open spec fn typed_into(draft: Draft, c: char) -> Draft {
    match draft.active {
        WriterState::Idle => draft,
        WriterState::To => Draft { to: typed(draft.to, c), ..draft },
        WriterState::Subject => Draft { subject: typed(draft.subject, c), ..draft },
        WriterState::Body => Draft { body: typed(draft.body, c), ..draft },
    }
}

} // verus!
