//! A line of text that the user types.

use vstd::prelude::*;
use vstd::string::*;
use crate::frame::{text_frame, text_view, Frame, FrameView};
use crate::input::{Event, Outcome};
use crate::text::{copy_lines, texts};

verus! {

/// The text after one event: a character is appended, `Backspace` removes
/// the last character if there is one, and nothing else changes the text.
pub open spec fn edited(text: Seq<char>, event: Event) -> Seq<char> {
    match event {
        Event::Printable(c) => text.push(c),
        Event::Backspace => if text.len() > 0 {
            text.drop_last()
        } else {
            text
        },
        _ => text,
    }
}

/// `Backspace` takes back the character that was typed last.
pub proof fn lemma_backspace_takes_back_a_character(text: Seq<char>, c: char)
    ensures
        edited(edited(text, Event::Printable(c)), Event::Backspace) == text,
{
    assert(text.push(c).drop_last() =~= text);
}

/// A prompt and the line of text that the user types under it.
#[derive(Debug)]
pub struct LineInput {
    prompt: Vec<String>,
    text: String,
}

/// A line input, as the mathematics sees it.
pub struct LineState {
    /// The lines of the prompt.
    pub prompt: Seq<Seq<char>>,
    /// What the user has typed.
    pub text: Seq<char>,
}

impl LineState {
    /// The state after one event: the text is [`edited`], the prompt stays.
    pub open spec fn apply(self, event: Event) -> LineState {
        LineState { prompt: self.prompt, text: edited(self.text, event) }
    }

    /// What the input looks like: the prompt, an empty line, and the text,
    /// with the cursor behind it.
    pub open spec fn frame(self) -> FrameView {
        text_view(self.prompt + seq![Seq::<char>::empty(), self.text], true)
    }
}

impl View for LineInput {
    type V = LineState;

    closed spec fn view(&self) -> LineState {
        LineState { prompt: texts(self.prompt@), text: self.text@ }
    }
}

impl LineInput {
    /// A line input that asks `prompt` and begins with `text`.
    pub fn new(prompt: Vec<String>, text: String) -> (input: LineInput)
        ensures
            input@ == (LineState { prompt: texts(prompt@), text: text@ }),
    {
        LineInput { prompt, text }
    }

    /// What the user has typed.
    pub fn text(&self) -> (text: &String)
        ensures
            text@ == self@.text,
    {
        &self.text
    }

    /// Takes one event. The text changes as [`edited`] says; `Confirm` and
    /// `Cancel` end the input and change nothing.
    pub fn handle(&mut self, event: Event) -> (outcome: Outcome)
        ensures
            final(self)@ == old(self)@.apply(event),
            outcome == Outcome::of(event),
    {
        match event {
            Event::Printable(c) => {
                self.text.push(c);
                Outcome::Pending
            },
            Event::Backspace => {
                self.text.pop();
                Outcome::Pending
            },
            Event::Confirm => Outcome::Confirmed,
            Event::Cancel => Outcome::Cancelled,
            _ => Outcome::Pending,
        }
    }

    /// Draws the input.
    pub fn frame(&self) -> (frame: Frame)
        ensures
            frame@ == self@.frame(),
    {
        let mut lines = copy_lines(&self.prompt);
        lines.push(String::new());
        lines.push(self.text.clone());
        assert(texts(lines@) =~= texts(self.prompt@) + seq![Seq::<char>::empty(), self.text@]);
        text_frame(lines, true)
    }
}

} // verus!
