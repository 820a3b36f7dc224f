//! The summary that closes the wizard: every field of the sheet on a line
//! of its own.

use vstd::prelude::*;
use vstd::string::*;
use crate::character::{CharacterSheet, SheetView};
use crate::frame::{text_frame, text_view, Frame};
use crate::text::{pad_right, padded, texts};

verus! {

/// The width of the column that holds the labels of a sheet.
pub const LABEL_WIDTH: usize = 20;

/// `text` without the line feeds in it.
pub open spec fn on_one_line(text: Seq<char>) -> Seq<char>
    decreases text.len(),
{
    if text.len() == 0 {
        Seq::empty()
    } else if text.last() == '\n' {
        on_one_line(text.drop_last())
    } else {
        on_one_line(text.drop_last()).push(text.last())
    }
}

/// Removes the line feeds from a text.
pub fn strip_line_feeds(text: &str) -> (s: String)
    ensures
        s@ == on_one_line(text@),
{
    let mut s = String::new();
    let len = text.unicode_len();
    let mut i: usize = 0;
    assert(text@.subrange(0, 0) =~= Seq::<char>::empty());
    while i < len
        invariant
            0 <= i <= len,
            len == text@.len(),
            s@ == on_one_line(text@.subrange(0, i as int)),
        decreases len - i,
    {
        let c = text.get_char(i);
        assert(text@.subrange(0, i + 1).drop_last() =~= text@.subrange(0, i as int));
        if c != '\n' {
            s.push(c);
        }
        i = i + 1;
    }
    assert(text@.subrange(0, i as int) =~= text@);
    s
}

/// The lines of the summary of a sheet: for each field, its label in a
/// column of twenty characters, and its value on one line.
pub open spec fn summary(sheet: SheetView) -> Seq<Seq<char>> {
    Seq::new(
        CharacterSheet::label_texts().len(),
        |i: int|
            padded(CharacterSheet::label_texts()[i], LABEL_WIDTH as nat) + on_one_line(
                sheet.value_texts()[i],
            ),
    )
}

/// Draws the summary of a sheet.
pub fn summary_frame(sheet: &CharacterSheet) -> (frame: Frame)
    ensures
        frame@ == text_view(summary(sheet@), false),
{
    let labels = CharacterSheet::labels();
    let values = sheet.values();
    let mut lines: Vec<String> = Vec::new();
    let mut i: usize = 0;
    while i < labels.len()
        invariant
            0 <= i <= labels@.len(),
            labels@.len() == 8,
            values@.len() == 8,
            forall|j: int|
                0 <= j < 8 ==> (#[trigger] labels@[j])@ == CharacterSheet::label_texts()[j],
            forall|j: int| 0 <= j < 8 ==> (#[trigger] values@[j])@ == sheet@.value_texts()[j],
            lines@.len() == i,
            forall|j: int| 0 <= j < i ==> (#[trigger] lines@[j])@ == summary(sheet@)[j],
        decreases labels@.len() - i,
    {
        let mut line = pad_right(labels[i], LABEL_WIDTH);
        let value = strip_line_feeds(values[i].as_str());
        line.append(value.as_str());
        lines.push(line);
        i = i + 1;
    }
    assert(texts(lines@) =~= summary(sheet@));
    text_frame(lines, false)
}

} // verus!
