//! List selection: a highlight that moves over a list of options until the
//! user confirms one.

use vstd::prelude::*;
use vstd::string::*;
use crate::frame::{first_option_row, menu_frame, menu_view, Frame, FrameView};
use crate::input::{Event, Outcome};
use crate::text::{copy_lines, texts};
use crate::util::{labels, EnumIter, EnumString};

verus! {

/// A list selection, as the mathematics sees it.
pub struct SelectState {
    /// The index of the highlighted option.
    pub cursor: int,
    /// The number of options.
    pub len: int,
    /// The terminal row of the first option (rows count from 1).
    pub first_row: int,
}

impl SelectState {
    /// The highlight is on one of the options.
    pub open spec fn wf(self) -> bool {
        0 <= self.cursor < self.len
    }

    /// The selection with the highlight moved to `cursor`.
    pub open spec fn at(self, cursor: int) -> SelectState {
        SelectState { cursor, len: self.len, first_row: self.first_row }
    }

    /// One option up; at the first option nothing changes.
    pub open spec fn up(self) -> SelectState {
        if self.cursor > 0 {
            self.at(self.cursor - 1)
        } else {
            self
        }
    }

    /// One option down; at the last option nothing changes.
    pub open spec fn down(self) -> SelectState {
        if self.cursor < self.len - 1 {
            self.at(self.cursor + 1)
        } else {
            self
        }
    }

    /// A click on a row that shows an option highlights that option; a click
    /// anywhere else changes nothing.
    pub open spec fn click(self, row: int) -> SelectState {
        if self.first_row <= row < self.first_row + self.len {
            self.at(row - self.first_row)
        } else {
            self
        }
    }

    /// The state after one event.
    pub open spec fn apply(self, event: Event) -> SelectState {
        match event {
            Event::Up => self.up(),
            Event::Down => self.down(),
            Event::Click(row) => self.click(row as int),
            _ => self,
        }
    }

    /// The state after a sequence of events, taken in order.
    pub open spec fn run(self, events: Seq<Event>) -> SelectState
        decreases events.len(),
    {
        if events.len() == 0 {
            self
        } else {
            self.run(events.drop_last()).apply(events.last())
        }
    }
}

/// The highlight never leaves the list, whatever the events are, and the
/// list itself stays as it is.
pub proof fn lemma_highlight_stays_in_list(s: SelectState, events: Seq<Event>)
    requires
        s.wf(),
    ensures
        s.run(events).wf(),
        s.run(events).len == s.len,
        s.run(events).first_row == s.first_row,
    decreases events.len(),
{
    if events.len() > 0 {
        lemma_highlight_stays_in_list(s, events.drop_last());
    }
}

/// A highlight over a list of at least one option.
#[derive(Copy, Clone, Debug)]
pub struct Selection {
    cursor: usize,
    len: usize,
    first_row: usize,
}

impl View for Selection {
    type V = SelectState;

    closed spec fn view(&self) -> SelectState {
        SelectState {
            cursor: self.cursor as int,
            len: self.len as int,
            first_row: self.first_row as int,
        }
    }
}

impl Selection {
    #[verifier::type_invariant]
    spec fn inv(self) -> bool {
        self.cursor < self.len
    }

    /// A selection over `len` options whose first option is drawn on row
    /// `first_row`; the first option is highlighted.
    pub fn new(len: usize, first_row: usize) -> (s: Selection)
        requires
            len >= 1,
        ensures
            s@ == (SelectState { cursor: 0, len: len as int, first_row: first_row as int }),
    {
        Selection { cursor: 0, len, first_row }
    }

    /// The index of the highlighted option.
    pub fn cursor(&self) -> (c: usize)
        ensures
            c == self@.cursor,
            self@.wf(),
    {
        proof {
            use_type_invariant(self);
        }
        self.cursor
    }

    /// The number of options.
    pub fn len(&self) -> (n: usize)
        ensures
            n == self@.len,
    {
        self.len
    }

    /// The terminal row of the first option.
    pub fn first_row(&self) -> (r: usize)
        ensures
            r == self@.first_row,
    {
        self.first_row
    }

    /// Takes one event. `Up`, `Down` and `Click` move the highlight as
    /// [`SelectState::apply`] says; `Confirm` and `Cancel` end the selection
    /// and change nothing; every other event is ignored.
    pub fn handle(&mut self, event: Event) -> (outcome: Outcome)
        ensures
            final(self)@ == old(self)@.apply(event),
            final(self)@.wf(),
            outcome == Outcome::of(event),
    {
        proof {
            use_type_invariant(&*self);
        }
        match event {
            Event::Up => {
                if self.cursor > 0 {
                    self.cursor = self.cursor - 1;
                }
                Outcome::Pending
            },
            Event::Down => {
                if self.cursor < self.len - 1 {
                    self.cursor = self.cursor + 1;
                }
                Outcome::Pending
            },
            Event::Click(row) => {
                let row: usize = row as usize;
                if row >= self.first_row && row - self.first_row < self.len {
                    self.cursor = row - self.first_row;
                }
                Outcome::Pending
            },
            Event::Confirm => Outcome::Confirmed,
            Event::Cancel => Outcome::Cancelled,
            _ => Outcome::Pending,
        }
    }
}

/// A label for the screen, paired with the value that it stands for.
#[derive(Debug)]
pub struct MenuItem<T> {
    /// What the screen shows.
    pub name: String,
    /// What choosing the item gives.
    pub value: T,
}

/// The labels of a list of items.
pub open spec fn item_names<T>(items: Seq<MenuItem<T>>) -> Seq<Seq<char>> {
    Seq::new(items.len(), |i: int| items[i].name@)
}

/// The values of a list of items.
pub open spec fn item_values<T>(items: Seq<MenuItem<T>>) -> Seq<T> {
    Seq::new(items.len(), |i: int| items[i].value)
}

/// What a menu has to say after an event.
#[derive(Debug, PartialEq, Eq)]
pub enum Choice<T> {
    /// The menu goes on: draw it and read the next event.
    Pending,
    /// The user confirmed the highlighted item; this is its value.
    Chosen(T),
    /// The user left the wizard.
    Cancelled,
}

/// A menu, as the mathematics sees it.
pub struct MenuState<T> {
    /// The lines of the prompt.
    pub prompt: Seq<Seq<char>>,
    /// The labels of the items.
    pub names: Seq<Seq<char>>,
    /// The values of the items.
    pub values: Seq<T>,
    /// The highlight.
    pub select: SelectState,
}

impl<T> MenuState<T> {
    /// Every item has a label and a value, the highlight is on an item, the
    /// first item is drawn where a menu frame draws it, and the rows of the
    /// frame can be counted.
    pub open spec fn wf(self) -> bool {
        &&& self.names.len() == self.values.len()
        &&& self.prompt.len() + 2 + self.names.len() <= usize::MAX
        &&& self.select.wf()
        &&& self.select.len == self.names.len()
        &&& self.select.first_row == first_option_row(self.prompt.len() as int)
    }

    /// The state after one event: the highlight takes it, the rest stays.
    pub open spec fn apply(self, event: Event) -> MenuState<T> {
        MenuState {
            prompt: self.prompt,
            names: self.names,
            values: self.values,
            select: self.select.apply(event),
        }
    }

    /// What the menu has to say after `event`: `Confirm` chooses the value
    /// of the highlighted item.
    pub open spec fn choice(self, event: Event) -> Choice<T> {
        match event {
            Event::Confirm => Choice::Chosen(self.values[self.select.cursor]),
            Event::Cancel => Choice::Cancelled,
            _ => Choice::Pending,
        }
    }

    /// What the menu looks like.
    pub open spec fn frame(self) -> FrameView {
        menu_view(self.prompt, self.names, self.select.cursor)
    }
}

/// A click lands where the frame shows it: after a click on the row of an
/// item, that row is the highlighted one.
pub proof fn lemma_click_highlights_the_row<T>(m: MenuState<T>, row: u16)
    requires
        m.wf(),
        m.select.first_row <= row < m.select.first_row + m.select.len,
    ensures
        m.apply(Event::Click(row)).frame().highlighted == Some(row - 1),
        m.apply(Event::Click(row)).frame().lines[row - 1] == m.names[row - m.select.first_row],
{
}

/// A prompt and a list of items, one of them highlighted.
#[derive(Debug)]
pub struct Menu<T> {
    prompt: Vec<String>,
    items: Vec<MenuItem<T>>,
    selection: Selection,
}

impl<T> View for Menu<T> {
    type V = MenuState<T>;

    closed spec fn view(&self) -> MenuState<T> {
        MenuState {
            prompt: texts(self.prompt@),
            names: item_names(self.items@),
            values: item_values(self.items@),
            select: self.selection@,
        }
    }
}

impl<T: Copy> Menu<T> {
    /// A menu that asks `prompt` and offers `items`, the first of them
    /// highlighted.
    pub fn new(prompt: Vec<String>, items: Vec<MenuItem<T>>) -> (menu: Menu<T>)
        requires
            items@.len() >= 1,
            prompt@.len() + 2 + items@.len() <= usize::MAX,
        ensures
            menu@ == (MenuState {
                prompt: texts(prompt@),
                names: item_names(items@),
                values: item_values(items@),
                select: SelectState {
                    cursor: 0,
                    len: items@.len() as int,
                    first_row: first_option_row(prompt@.len() as int),
                },
            }),
            menu@.wf(),
    {
        let selection = Selection::new(items.len(), prompt.len() + 2);
        Menu { prompt, items, selection }
    }

    /// The index of the highlighted item.
    pub fn cursor(&self) -> (c: usize)
        ensures
            c == self@.select.cursor,
    {
        self.selection.cursor()
    }

    /// The value of the highlighted item.
    pub fn selected(&self) -> (value: T)
        requires
            self@.wf(),
        ensures
            value == self@.values[self@.select.cursor],
    {
        self.items[self.selection.cursor()].value
    }

    /// Takes one event: the arrows and clicks move the highlight, `Confirm`
    /// chooses the highlighted item, `Cancel` leaves.
    pub fn handle(&mut self, event: Event) -> (choice: Choice<T>)
        requires
            old(self)@.wf(),
        ensures
            final(self)@ == old(self)@.apply(event),
            final(self)@.wf(),
            choice == old(self)@.choice(event),
    {
        let chosen = self.selected();
        match self.selection.handle(event) {
            Outcome::Pending => Choice::Pending,
            Outcome::Confirmed => Choice::Chosen(chosen),
            Outcome::Cancelled => Choice::Cancelled,
        }
    }

    /// Draws the menu.
    pub fn frame(&self) -> (frame: Frame)
        requires
            self@.wf(),
        ensures
            frame@ == self@.frame(),
    {
        let prompt = copy_lines(&self.prompt);
        let mut names: Vec<String> = Vec::new();
        let mut i: usize = 0;
        while i < self.items.len()
            invariant
                0 <= i <= self.items.len(),
                names@.len() == i,
                forall|j: int| 0 <= j < i ==> names@[j]@ == self.items@[j].name@,
            decreases self.items.len() - i,
        {
            names.push(self.items[i].name.clone());
            i = i + 1;
        }
        assert(texts(names@) =~= item_names(self.items@));
        menu_frame(prompt, names, self.selection.cursor())
    }
}

/// A menu that asks `prompt` on one line and offers every value of an
/// enumeration under its name, as the mathematics sees it.
pub open spec fn enum_menu_state<T: EnumIter + EnumString>(prompt: Seq<char>) -> MenuState<T> {
    MenuState {
        prompt: seq![prompt],
        names: labels(T::variants()),
        values: T::variants(),
        select: SelectState {
            cursor: 0,
            len: T::variants().len() as int,
            first_row: first_option_row(1),
        },
    }
}

/// A menu that asks `prompt` and offers every value of an enumeration under
/// its name.
pub fn enum_menu<T: EnumIter + EnumString + Copy>(prompt: &str) -> (menu: Menu<T>)
    requires
        1 <= T::variants().len() <= usize::MAX - 3,
    ensures
        menu@ == enum_menu_state::<T>(prompt@),
        menu@.wf(),
{
    let values = T::iter();
    let mut items: Vec<MenuItem<T>> = Vec::new();
    let mut i: usize = 0;
    while i < values.len()
        invariant
            0 <= i <= values.len(),
            values@ == T::variants(),
            items@.len() == i,
            forall|j: int|
                0 <= j < i ==> (#[trigger] items@[j]).name@ == values@[j].label() && items@[j].value
                    == values@[j],
        decreases values.len() - i,
    {
        items.push(MenuItem { name: values[i].to_string(), value: values[i] });
        i = i + 1;
    }
    let mut lines: Vec<String> = Vec::new();
    lines.push(String::from_str(prompt));
    assert(texts(lines@) =~= seq![prompt@]);
    assert(item_names(items@) =~= labels(T::variants()));
    assert(item_values(items@) =~= T::variants());
    Menu::new(lines, items)
}

/// The menu of a yes-or-no-like question with two named answers, as the
/// mathematics sees it: the first answer stands for `false`, the second for
/// `true`.
pub open spec fn either_menu_state(
    prompt: Seq<char>,
    first: Seq<char>,
    second: Seq<char>,
) -> MenuState<bool> {
    MenuState {
        prompt: seq![prompt],
        names: seq![first, second],
        values: seq![false, true],
        select: SelectState { cursor: 0, len: 2, first_row: first_option_row(1) },
    }
}

/// A menu that asks `prompt` and offers two answers: `first`, which stands
/// for `false`, and `second`, which stands for `true`.
pub fn either_menu(prompt: &str, first: &str, second: &str) -> (menu: Menu<bool>)
    ensures
        menu@ == either_menu_state(prompt@, first@, second@),
        menu@.wf(),
{
    let mut items: Vec<MenuItem<bool>> = Vec::new();
    items.push(MenuItem { name: String::from_str(first), value: false });
    items.push(MenuItem { name: String::from_str(second), value: true });
    let mut lines: Vec<String> = Vec::new();
    lines.push(String::from_str(prompt));
    assert(texts(lines@) =~= seq![prompt@]);
    assert(item_names(items@) =~= seq![first@, second@]);
    assert(item_values(items@) =~= seq![false, true]);
    Menu::new(lines, items)
}

} // verus!
