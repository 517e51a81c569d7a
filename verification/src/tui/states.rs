//! Modes of the interface.
//!
//! A user changes mode with the keybindings that the manual lists.

use vstd::prelude::*;

use crate::tui::writer::{empty_draft, Draft, Writer};

verus! {

/// Current mode of the interface, specifying what the user is doing
pub enum TuiMode {
    /// Display the help window, with the different keybindings
    Help,
    /// Displaying mails to read
    Reading,
    /// Writing a mail
    Writing(Writer),
}

/// Mathematical content of a [`TuiMode`].
pub enum Mode {
    Help,
    Reading,
    Writing(Draft),
}

impl View for TuiMode {
    type V = Mode;

    open spec fn view(&self) -> Mode {
        match self {
            TuiMode::Help => Mode::Help,
            TuiMode::Reading => Mode::Reading,
            TuiMode::Writing(writer) => Mode::Writing(writer@),
        }
    }
}

impl Default for TuiMode {
    fn default() -> (mode: Self)
        ensures
            mode@ == Mode::Help,
    {
        TuiMode::Help
    }
}

impl TuiMode {
    /// Switch to writer mode
    ///
    /// This creates an empty writer: a draft in progress is discarded.
    pub fn new_writer(&mut self)
        ensures
            final(self)@ == Mode::Writing(empty_draft()),
    {
        *self = TuiMode::Writing(Writer::new());
    }
}

} // verus!
