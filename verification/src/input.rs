//! Input events: what a front end reads from the terminal, and what it means
//! to the wizard.

use vstd::prelude::*;

verus! {

/// A key press as a terminal reports it.
#[derive(Copy, Clone, Debug, PartialEq, Eq, Structural)]
pub enum Key {
    Up,
    Down,
    Backspace,
    Esc,
    /// A character key; Enter arrives as `'\r'` or `'\n'`.
    Char(char),
    /// A character key pressed together with Control.
    Ctrl(char),
    /// Any other key.
    Other,
}

/// What an input means to the wizard.
#[derive(Copy, Clone, Debug, PartialEq, Eq, Structural)]
pub enum Event {
    /// Move the highlight up, or raise a score.
    Up,
    /// Move the highlight down, or lower a score.
    Down,
    /// Accept what is shown.
    Confirm,
    /// Delete the last character of a line of text.
    Backspace,
    /// A character typed into a line of text.
    Printable(char),
    /// Leave the wizard at once.
    Cancel,
    /// A pointer click on the given terminal row (rows count from 1).
    Click(u16),
    /// An input that means nothing to the wizard.
    Ignored,
}

impl Event {
    /// The meaning of a key: Escape and Control-C cancel, Enter confirms, the
    /// arrows and Backspace are themselves, any other character is text, and
    /// every other key is ignored.
    pub open spec fn of_key(key: Key) -> Event {
        match key {
            Key::Up => Event::Up,
            Key::Down => Event::Down,
            Key::Backspace => Event::Backspace,
            Key::Esc => Event::Cancel,
            Key::Char(c) => if c == '\r' || c == '\n' {
                Event::Confirm
            } else {
                Event::Printable(c)
            },
            Key::Ctrl(c) => if c == 'c' {
                Event::Cancel
            } else {
                Event::Ignored
            },
            Key::Other => Event::Ignored,
        }
    }

    /// Reads a key as an event.
    pub fn from_key(key: Key) -> (event: Event)
        ensures
            event == Event::of_key(key),
    {
        match key {
            Key::Up => Event::Up,
            Key::Down => Event::Down,
            Key::Backspace => Event::Backspace,
            Key::Esc => Event::Cancel,
            Key::Char(c) => {
                if c == '\r' || c == '\n' {
                    Event::Confirm
                } else {
                    Event::Printable(c)
                }
            },
            Key::Ctrl(c) => {
                if c == 'c' {
                    Event::Cancel
                } else {
                    Event::Ignored
                }
            },
            Key::Other => Event::Ignored,
        }
    }
}

/// How an interactive step ended.
#[derive(Copy, Clone, Debug, PartialEq, Eq, Structural)]
pub enum Outcome {
    /// The step goes on: draw the new state and read the next event.
    Pending,
    /// The user accepted what was shown.
    Confirmed,
    /// The user left the wizard.
    Cancelled,
}

impl Outcome {
    /// The outcome of an event in a step that `Confirm` ends.
    pub open spec fn of(event: Event) -> Outcome {
        match event {
            Event::Confirm => Outcome::Confirmed,
            Event::Cancel => Outcome::Cancelled,
            _ => Outcome::Pending,
        }
    }
}

} // verus!
