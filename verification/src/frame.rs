//! Frames: what a front end draws.

use vstd::prelude::*;
use vstd::string::*;
use crate::text::texts;

verus! {

/// A frame, as the mathematics sees it.
pub struct FrameView {
    /// The lines of text, from the top.
    pub lines: Seq<Seq<char>>,
    /// The index of the line that is drawn highlighted, if one is.
    pub highlighted: Option<int>,
    /// Whether the terminal's cursor is shown after the last line.
    pub cursor_visible: bool,
}

/// A block of text for the terminal. A front end clears the screen and
/// draws the lines from the first row down, with the highlighted one in
/// inverted colours.
#[derive(Debug)]
pub struct Frame {
    /// The lines of text, from the top.
    pub lines: Vec<String>,
    /// The index of the line that is drawn highlighted, if one is.
    pub highlighted: Option<usize>,
    /// Whether the terminal's cursor is shown after the last line.
    pub cursor_visible: bool,
}

impl View for Frame {
    type V = FrameView;

    open spec fn view(&self) -> FrameView {
        FrameView {
            lines: texts(self.lines@),
            highlighted: match self.highlighted {
                Some(i) => Some(i as int),
                None => None,
            },
            cursor_visible: self.cursor_visible,
        }
    }
}

/// The frame of a menu: the lines of the prompt, an empty line, and one line
/// for each option, with the option at `cursor` highlighted.
pub open spec fn menu_view(prompt: Seq<Seq<char>>, names: Seq<Seq<char>>, cursor: int) -> FrameView {
    FrameView {
        lines: prompt + seq![Seq::<char>::empty()] + names,
        highlighted: Some(prompt.len() + 1 + cursor),
        cursor_visible: false,
    }
}

/// The terminal row on which a menu frame shows its first option, for a
/// prompt of `prompt_lines` lines. Rows count from 1.
pub open spec fn first_option_row(prompt_lines: int) -> int {
    prompt_lines + 2
}

/// A frame of plain text, as the mathematics sees it.
pub open spec fn text_view(lines: Seq<Seq<char>>, cursor_visible: bool) -> FrameView {
    FrameView { lines, highlighted: None, cursor_visible }
}

/// Appending a string to a vector appends its text to the vector's texts.
pub proof fn lemma_texts_push(lines: Seq<String>, line: String)
    ensures
        texts(lines.push(line)) == texts(lines).push(line@),
{
    assert(texts(lines.push(line)) =~= texts(lines).push(line@));
}

/// The texts of two vectors in a row are the texts of the one followed by
/// the texts of the other.
pub proof fn lemma_texts_add(first: Seq<String>, second: Seq<String>)
    ensures
        texts(first + second) == texts(first) + texts(second),
{
    assert(texts(first + second) =~= texts(first) + texts(second));
}

/// Draws a menu: the lines of `prompt`, an empty line, and the names of the
/// options, with the one at `cursor` highlighted.
pub fn menu_frame(prompt: Vec<String>, names: Vec<String>, cursor: usize) -> (frame: Frame)
    requires
        cursor < names@.len(),
        prompt@.len() + 1 + names@.len() <= usize::MAX,
    ensures
        frame@ == menu_view(texts(prompt@), texts(names@), cursor as int),
{
    let ghost prompt_lines = prompt@;
    let ghost option_lines = names@;
    let highlighted = prompt.len() + 1 + cursor;
    let mut lines = prompt;
    let mut options = names;
    let blank = String::new();
    proof {
        lemma_texts_push(prompt_lines, blank);
        lemma_texts_add(prompt_lines.push(blank), option_lines);
    }
    lines.push(blank);
    lines.append(&mut options);
    assert(texts(lines@) =~= texts(prompt_lines) + seq![Seq::<char>::empty()] + texts(
        option_lines,
    ));
    Frame { lines, highlighted: Some(highlighted), cursor_visible: false }
}

/// Draws plain text.
pub fn text_frame(lines: Vec<String>, cursor_visible: bool) -> (frame: Frame)
    ensures
        frame@ == text_view(texts(lines@), cursor_visible),
{
    Frame { lines, highlighted: None, cursor_visible }
}

} // verus!
