//! Defines the manual page to render on the screen
//!
//! This manual explains usage and the different keybindings of the client.

use vstd::prelude::*;

verus! {

/// One line of the manual.
#[derive(Clone, Copy, Debug, PartialEq, Eq)]
pub struct ManualLine {
    /// Text of the line
    pub text: &'static str,
    /// Whether the line is a heading, shown in bold
    pub bold: bool,
}

/// A heading.
pub open spec fn heading(text: &'static str) -> ManualLine {
    ManualLine { text, bold: true }
}

/// A line of plain text.
pub open spec fn plain(text: &'static str) -> ManualLine {
    ManualLine { text, bold: false }
}

/// The lines of the manual, from top to bottom.
pub open spec fn manual_lines() -> Seq<ManualLine> {
    seq![
        heading("mailbox-tui"),
        plain(""),
        plain("A TUI app to read, write and manage emails."),
        plain(""),
        heading("Presentation"),
        plain(""),
        plain("The app contains multiple modes"),
        plain(""),
        plain("> Press 'q' to exit the application."),
        plain(""),
        heading("Modes"),
        plain(""),
        plain("- Manual mode (press 'm' to enable)"),
        plain("- Writer mode (press 'w' to enable)"),
        plain("- Reader mode (press 'r' to enable)"),
        plain(""),
        heading("Manual mode"),
        plain("This is manual mode. To switch de manual mode, press 'm'."),
        plain(""),
        heading("Read mode"),
        plain(""),
        plain("Mode to display emails from an inbox. Press 'r' to switch to this mode."),
        plain(""),
        plain("Keybindings:"),
        plain("- 'k': select previous email"),
        plain("- 'j': select next email"),
        plain("- 'h': close email reader"),
        plain("- 'm': open email reader"),
        plain(""),
        heading("Write mode"),
        plain(""),
        plain("Mode to write emails. Press 'w' to switch to this mode."),
    ]
}

/// Bold styling
fn bold(title: &'static str) -> (line: ManualLine)
    ensures
        line == heading(title),
{
    ManualLine { text: title, bold: true }
}

/// Plain styling
fn line(text: &'static str) -> (line: ManualLine)
    ensures
        line == plain(text),
{
    ManualLine { text, bold: false }
}

/// The manual page to display
pub fn manual_page() -> (lines: Vec<ManualLine>)
    ensures
        lines@ == manual_lines(),
{
    let mut lines: Vec<ManualLine> = Vec::new();
    lines.push(bold("mailbox-tui"));
    lines.push(line(""));
    lines.push(line("A TUI app to read, write and manage emails."));
    lines.push(line(""));
    lines.push(bold("Presentation"));
    lines.push(line(""));
    lines.push(line("The app contains multiple modes"));
    lines.push(line(""));
    lines.push(line("> Press 'q' to exit the application."));
    lines.push(line(""));
    lines.push(bold("Modes"));
    lines.push(line(""));
    lines.push(line("- Manual mode (press 'm' to enable)"));
    lines.push(line("- Writer mode (press 'w' to enable)"));
    lines.push(line("- Reader mode (press 'r' to enable)"));
    lines.push(line(""));
    lines.push(bold("Manual mode"));
    lines.push(line("This is manual mode. To switch de manual mode, press 'm'."));
    lines.push(line(""));
    lines.push(bold("Read mode"));
    lines.push(line(""));
    lines.push(line("Mode to display emails from an inbox. Press 'r' to switch to this mode."));
    lines.push(line(""));
    lines.push(line("Keybindings:"));
    lines.push(line("- 'k': select previous email"));
    lines.push(line("- 'j': select next email"));
    lines.push(line("- 'h': close email reader"));
    lines.push(line("- 'm': open email reader"));
    lines.push(line(""));
    lines.push(bold("Write mode"));
    lines.push(line(""));
    lines.push(line("Mode to write emails. Press 'w' to switch to this mode."));
    lines
}

} // verus!
