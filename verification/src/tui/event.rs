//! Input events, as far as the interface reacts to them.

use vstd::prelude::*;

verus! {

/// No modifier key is held.
pub const NONE: u8 = 0x00;

/// The shift key is held.
pub const SHIFT: u8 = 0x01;

/// The control key is held.
pub const CONTROL: u8 = 0x02;

/// The alt key is held.
pub const ALT: u8 = 0x04;

/// The meta key is held.
pub const META: u8 = 0x20;

/// Key that an event reports.
#[derive(Clone, Copy, Debug, PartialEq, Eq, Structural)]
pub enum KeyCode {
    /// A character key
    Char(char),
    /// Escape
    Esc,
    /// Backspace
    Backspace,
    /// Delete
    Delete,
    /// Left arrow
    Left,
    /// Right arrow
    Right,
    /// Home
    Home,
    /// End
    End,
    /// Any key that neither the interface nor a text field reacts to
    Other,
}

/// One event of the keyboard.
#[derive(Clone, Copy, Debug, PartialEq, Eq, Structural)]
pub struct KeyEvent {
    /// Key that was used
    pub code: KeyCode,
    /// Modifier keys held meanwhile, one bit each
    pub modifiers: u8,
    /// Whether the key was released; it was pressed, or is held, otherwise
    pub released: bool,
}

/// One event of the terminal.
#[derive(Debug, Clone, PartialEq, Eq)]
pub enum Event {
    /// The terminal gained focus
    FocusGained,
    /// The terminal lost focus
    FocusLost,
    /// A key was used
    Key(KeyEvent),
    /// The mouse was used
    Mouse,
    /// Text was pasted
    Paste(String),
    /// The terminal was resized to the given columns and rows
    Resize(u16, u16),
}

impl KeyEvent {
    /// Press of `code` while the keys in `modifiers` are held.
    pub fn new(code: KeyCode, modifiers: u8) -> (key: Self)
        ensures
            key == (KeyEvent { code, modifiers, released: false }),
    {
        KeyEvent { code, modifiers, released: false }
    }
}

impl Event {
    /// Press of the character key `c` with no modifier held.
    pub fn char(c: char) -> (event: Self)
        ensures
            event == Event::Key(KeyEvent { code: KeyCode::Char(c), modifiers: NONE, released: false }),
    {
        Event::Key(KeyEvent::new(KeyCode::Char(c), NONE))
    }
}

/// Character that the event reports, whatever else it says of the key.
pub open spec fn key_char(event: Event) -> Option<char> {
    match event {
        Event::Key(key) => match key.code {
            KeyCode::Char(c) => Some(c),
            _ => None,
        },
        _ => None,
    }
}

} // verus!
