//! The wizard: the pages a user goes through, from the name of the
//! character to the summary of the sheet.

use vstd::prelude::*;
use vstd::string::*;
use crate::character::{complete, AbilityName, Alignment, CharacterSheet, SheetView};
use crate::classes::AvailableClasses;
use crate::dice::{ascending, get_ability_score_rolls, rolled_scores};
use crate::frame::{text_view, Frame, FrameView};
use crate::input::{Event, Outcome};
use crate::line_input::{LineInput, LineState};
use crate::menu::{
    either_menu, either_menu_state, enum_menu, enum_menu_state, Choice, Menu, MenuState,
};
use crate::point_buy::{PointBuy, PointBuyState};
use crate::races::{adjust_ability_score_for_race, adjustable, adjusted, AvailableRaces};
use crate::roll_assignment::{
    lemma_roll_assignment_step, RollAssignState, RollAssignment, BATCH,
};
use crate::sheet::{summary, summary_frame};
use crate::text::{texts, trimmed};
use crate::util::EnumIter;

verus! {

/// The pages of the wizard, in the order in which they come.
#[derive(Copy, Clone, Debug, PartialEq, Eq, Structural)]
pub enum Page {
    Name,
    Race,
    Class,
    Abilities,
    Background,
    Spells,
    Feats,
    Bio,
    Review,
}

impl EnumIter for Page {
    open spec fn variants() -> Seq<Page> {
        seq![
            Page::Name,
            Page::Race,
            Page::Class,
            Page::Abilities,
            Page::Background,
            Page::Spells,
            Page::Feats,
            Page::Bio,
            Page::Review,
        ]
    }

    fn iter() -> (all: Vec<Page>)
        ensures
            all@ == Page::variants(),
    {
        vec![
            Page::Name,
            Page::Race,
            Page::Class,
            Page::Abilities,
            Page::Background,
            Page::Spells,
            Page::Feats,
            Page::Bio,
            Page::Review,
        ]
    }
}

/// What the name page asks.
pub const NAME_PROMPT: &'static str = "What is your character's name?";

/// What the race page asks first.
pub const RACE_PROMPT: &'static str = "What is your character's race?";

/// What the race page asks second.
pub const ALIGNMENT_PROMPT: &'static str = "What is your character's alignment?";

/// What the class page asks.
pub const CLASS_PROMPT: &'static str = "What is your character's class?";

/// What the abilities page asks first.
pub const METHOD_PROMPT: &'static str =
    "Would you like to roll for your ability scores or use point buy?";

/// The answer that has the scores rolled.
pub const ROLL: &'static str = "Roll";

/// The answer that has the scores bought.
pub const POINT_BUY: &'static str = "Point Buy";

/// What the wizard shows.
pub enum ScreenState {
    /// The user types the name of the character.
    Name(LineState),
    /// The user picks a race.
    Race(MenuState<AvailableRaces>),
    /// The user picks an alignment.
    Alignment(MenuState<Alignment>),
    /// The user picks a class.
    Class(MenuState<AvailableClasses>),
    /// The user picks how the ability scores come about: `true` stands for
    /// point-buy, `false` for rolling.
    Method(MenuState<bool>),
    /// The user buys the scores.
    PointBuy(PointBuyState),
    /// The user assigns rolled scores.
    Rolls(RollAssignState),
    /// The wizard is through; the sheet is shown.
    Summary,
}

/// The wizard, as the mathematics sees it.
pub struct AppState {
    /// The sheet as filled in so far.
    pub sheet: SheetView,
    /// The pages, in order.
    pub pages: Seq<Page>,
    /// The index of the page the user is on.
    pub current_page: int,
    /// The rolled scores, once they are rolled.
    pub rolls: Seq<i8>,
    /// What is on the screen.
    pub screen: ScreenState,
}

impl AppState {
    /// The screens are well formed, an allocation on the screen is not final
    /// yet, and while the wizard is not through the user is on one of the
    /// pages.
    pub open spec fn wf(self) -> bool {
        &&& 0 <= self.current_page <= self.pages.len() <= usize::MAX
        &&& !(self.screen is Summary) ==> self.current_page < self.pages.len()
        &&& complete(self.sheet.ability_scores)
        &&& match self.screen {
            ScreenState::Name(_) => true,
            ScreenState::Race(m) => m.wf(),
            ScreenState::Alignment(m) => m.wf(),
            ScreenState::Class(m) => m.wf(),
            ScreenState::Method(m) => m.wf() && m.values == seq![false, true],
            ScreenState::PointBuy(p) => p.wf() && !(p.stage is Done),
            ScreenState::Rolls(r) => r.wf() && !(r.stage is Done),
            ScreenState::Summary => true,
        }
    }

    /// The wizard at the beginning of the page at `current_page`: the name,
    /// the race, the class and the abilities each begin with their first
    /// question; any other page, and the end of the pages, ends the wizard
    /// with the summary.
    pub open spec fn open(
        sheet: SheetView,
        pages: Seq<Page>,
        current_page: int,
        rolls: Seq<i8>,
    ) -> AppState {
        AppState {
            sheet,
            pages,
            current_page,
            rolls,
            screen: if 0 <= current_page < pages.len() {
                match pages[current_page] {
                    Page::Name => ScreenState::Name(
                        LineState { prompt: seq![NAME_PROMPT@], text: sheet.name },
                    ),
                    Page::Race => ScreenState::Race(enum_menu_state(RACE_PROMPT@)),
                    Page::Class => ScreenState::Class(enum_menu_state(CLASS_PROMPT@)),
                    Page::Abilities => ScreenState::Method(
                        either_menu_state(METHOD_PROMPT@, ROLL@, POINT_BUY@),
                    ),
                    _ => ScreenState::Summary,
                }
            } else {
                ScreenState::Summary
            },
        }
    }

    /// A new wizard: a blank sheet, all the pages, and the first of them
    /// open.
    pub open spec fn start() -> AppState {
        AppState::open(SheetView::blank(), Page::variants(), 0, Seq::empty())
    }

    /// The wizard with `sheet` for its sheet, at the beginning of the next
    /// page.
    pub open spec fn turn_page(self, sheet: SheetView) -> AppState {
        AppState::open(sheet, self.pages, self.current_page + 1, self.rolls)
    }

    /// The wizard with `sheet` for its sheet.
    pub open spec fn show_sheet(self, sheet: SheetView) -> AppState {
        AppState {
            sheet,
            pages: self.pages,
            current_page: self.current_page,
            rolls: self.rolls,
            screen: self.screen,
        }
    }

    /// The wizard with `screen` on its screen.
    pub open spec fn show(self, screen: ScreenState) -> AppState {
        AppState {
            sheet: self.sheet,
            pages: self.pages,
            current_page: self.current_page,
            rolls: self.rolls,
            screen,
        }
    }

    /// The wizard after `name` has been entered on the name page: the sheet
    /// holds the name, and the next page begins.
    pub open spec fn enter_name(self, name: Seq<char>) -> AppState {
        self.turn_page(
            SheetView {
                name,
                race: self.sheet.race,
                alignment: self.sheet.alignment,
                class: self.sheet.class,
                level: self.sheet.level,
                experience_points: self.sheet.experience_points,
                ability_scores: self.sheet.ability_scores,
                point_buy: self.sheet.point_buy,
            },
        )
    }

    /// The sheet with other ability scores.
    pub open spec fn with_scores(self, scores: Map<AbilityName, int>) -> SheetView {
        SheetView {
            name: self.sheet.name,
            race: self.sheet.race,
            alignment: self.sheet.alignment,
            class: self.sheet.class,
            level: self.sheet.level,
            experience_points: self.sheet.experience_points,
            ability_scores: scores,
            point_buy: self.sheet.point_buy,
        }
    }

    /// The wizard after the batch `rolled` has been rolled: it keeps the
    /// batch, and the user begins to assign it.
    pub open spec fn begin_rolls(self, rolled: Seq<i8>) -> AppState {
        AppState {
            sheet: self.sheet,
            pages: self.pages,
            current_page: self.current_page,
            rolls: rolled,
            screen: ScreenState::Rolls(RollAssignState::start(rolled, self.sheet.ability_scores)),
        }
    }

    /// Whether `event` has the dice rolled: it confirms "Roll" on the
    /// abilities page.
    pub open spec fn rolls_dice(self, event: Event) -> bool {
        self.screen matches ScreenState::Method(m) && event == Event::Confirm
            && !m.values[m.select.cursor]
    }

    /// The state after one event that does not have the dice rolled.
    ///
    /// The name page ends with `Confirm` and enters the text without the
    /// white space around it. The race page asks for the race and then for
    /// the alignment. The class page asks for the class. The abilities page
    /// asks for the method and then runs point-buy or, with the dice rolled,
    /// roll assignment; the sheet takes the scores of a point-buy when it is
    /// final, and those of a roll assignment as they stand after each event.
    pub open spec fn apply(self, event: Event) -> AppState {
        match self.screen {
            ScreenState::Name(l) => match event {
                Event::Confirm => self.enter_name(trimmed(l.text)),
                _ => self.show(ScreenState::Name(l.apply(event))),
            },
            ScreenState::Race(m) => match event {
                Event::Confirm => AppState {
                    sheet: SheetView {
                        name: self.sheet.name,
                        race: m.values[m.select.cursor],
                        alignment: self.sheet.alignment,
                        class: self.sheet.class,
                        level: self.sheet.level,
                        experience_points: self.sheet.experience_points,
                        ability_scores: self.sheet.ability_scores,
                        point_buy: self.sheet.point_buy,
                    },
                    pages: self.pages,
                    current_page: self.current_page,
                    rolls: self.rolls,
                    screen: ScreenState::Alignment(enum_menu_state(ALIGNMENT_PROMPT@)),
                },
                _ => self.show(ScreenState::Race(m.apply(event))),
            },
            ScreenState::Alignment(m) => match event {
                Event::Confirm => self.turn_page(
                    SheetView {
                        name: self.sheet.name,
                        race: self.sheet.race,
                        alignment: m.values[m.select.cursor],
                        class: self.sheet.class,
                        level: self.sheet.level,
                        experience_points: self.sheet.experience_points,
                        ability_scores: self.sheet.ability_scores,
                        point_buy: self.sheet.point_buy,
                    },
                ),
                _ => self.show(ScreenState::Alignment(m.apply(event))),
            },
            ScreenState::Class(m) => match event {
                Event::Confirm => self.turn_page(
                    SheetView {
                        name: self.sheet.name,
                        race: self.sheet.race,
                        alignment: self.sheet.alignment,
                        class: m.values[m.select.cursor],
                        level: self.sheet.level,
                        experience_points: self.sheet.experience_points,
                        ability_scores: self.sheet.ability_scores,
                        point_buy: self.sheet.point_buy,
                    },
                ),
                _ => self.show(ScreenState::Class(m.apply(event))),
            },
            ScreenState::Method(m) => match event {
                Event::Confirm => self.show(
                    ScreenState::PointBuy(PointBuyState::start(self.sheet.ability_scores)),
                ),
                _ => self.show(ScreenState::Method(m.apply(event))),
            },
            ScreenState::PointBuy(p) => {
                let next = p.apply(event);
                if next.stage is Done {
                    self.turn_page(self.with_scores(next.scores))
                } else {
                    self.show(ScreenState::PointBuy(next))
                }
            },
            ScreenState::Rolls(r) => {
                let next = r.apply(event);
                if next.stage is Done {
                    self.turn_page(self.with_scores(next.scores))
                } else {
                    AppState {
                        sheet: self.with_scores(next.scores),
                        pages: self.pages,
                        current_page: self.current_page,
                        rolls: self.rolls,
                        screen: ScreenState::Rolls(next),
                    }
                }
            },
            ScreenState::Summary => self,
        }
    }

    /// Whether `next` and `outcome` are what `event` leads to.
    ///
    /// An event that confirms "Roll" has the dice rolled, and the wizard
    /// goes on as [`AppState::begin_rolls`] says with whatever they gave:
    /// six scores between 3 and 18 in ascending order. After any other event
    /// the wizard is [`AppState::apply`] of what it was. The front end is to
    /// leave on `Cancel`, to show the summary and end once the wizard is
    /// through, and else to draw and read on.
    pub open spec fn leads_to(self, next: AppState, event: Event, outcome: Outcome) -> bool {
        &&& next.wf()
        &&& !self.rolls_dice(event) ==> next == self.apply(event)
        &&& self.rolls_dice(event) ==> exists|rolled: Seq<i8>|
            rolled.len() == BATCH && rolled_scores(rolled) && ascending(rolled) && next
                == #[trigger] self.begin_rolls(rolled)
        &&& outcome == if event == Event::Cancel {
            Outcome::Cancelled
        } else if next.screen is Summary {
            Outcome::Confirmed
        } else {
            Outcome::Pending
        }
    }

    /// What the wizard looks like.
    pub open spec fn frame(self) -> FrameView {
        match self.screen {
            ScreenState::Name(l) => l.frame(),
            ScreenState::Race(m) => m.frame(),
            ScreenState::Alignment(m) => m.frame(),
            ScreenState::Class(m) => m.frame(),
            ScreenState::Method(m) => m.frame(),
            ScreenState::PointBuy(p) => p.frame(),
            ScreenState::Rolls(r) => r.frame(),
            ScreenState::Summary => text_view(summary(self.sheet), false),
        }
    }
}

/// The dice are rolled once: while the rolled scores are assigned, no event
/// has them rolled again, and the wizard and the assignment keep the batch
/// they have.
pub proof fn lemma_rolls_are_rolled_once(s: AppState, r: RollAssignState, event: Event)
    requires
        s.wf(),
        s.screen == ScreenState::Rolls(r),
    ensures
        !s.rolls_dice(event),
        s.apply(event).rolls == s.rolls,
        s.apply(event).screen matches ScreenState::Rolls(next) ==> next.rolls == r.rolls,
{
    lemma_roll_assignment_step(r, event);
}

#[derive(Debug)]
enum Screen {
    Name(LineInput),
    Race(Menu<AvailableRaces>),
    Alignment(Menu<Alignment>),
    Class(Menu<AvailableClasses>),
    Method(Menu<bool>),
    PointBuy(PointBuy),
    Rolls(RollAssignment),
    Summary,
}

impl View for Screen {
    type V = ScreenState;

    closed spec fn view(&self) -> ScreenState {
        match self {
            Screen::Name(l) => ScreenState::Name(l@),
            Screen::Race(m) => ScreenState::Race(m@),
            Screen::Alignment(m) => ScreenState::Alignment(m@),
            Screen::Class(m) => ScreenState::Class(m@),
            Screen::Method(m) => ScreenState::Method(m@),
            Screen::PointBuy(p) => ScreenState::PointBuy(p@),
            Screen::Rolls(r) => ScreenState::Rolls(r@),
            Screen::Summary => ScreenState::Summary,
        }
    }
}

/// What an event did to the name page.
enum Step {
    Stay(Outcome),
    Name(String),
}

/// The wizard. It holds the sheet that the user fills in and the page the
/// user is on; a front end draws its frame, reads an event and hands the
/// event over, until the wizard is through or the user leaves.
#[derive(Debug)]
pub struct App {
    character_sheet: CharacterSheet,
    page_stack: Vec<Page>,
    current_page: usize,
    ability_score_rolls: Vec<i8>,
    screen: Screen,
}

impl View for App {
    type V = AppState;

    closed spec fn view(&self) -> AppState {
        AppState {
            sheet: self.character_sheet@,
            pages: self.page_stack@,
            current_page: self.current_page as int,
            rolls: self.ability_score_rolls@,
            screen: self.screen@,
        }
    }
}

impl App {
    fn first_screen(sheet: &CharacterSheet, pages: &Vec<Page>, current_page: usize) -> (screen:
        Screen)
        ensures
            screen@ == AppState::open(sheet@, pages@, current_page as int, Seq::empty()).screen,
            !(screen@ is Summary) ==> current_page < pages@.len(),
            match screen@ {
                ScreenState::Race(m) => m.wf(),
                ScreenState::Class(m) => m.wf(),
                ScreenState::Method(m) => m.wf() && m.values == seq![false, true],
                _ => true,
            },
    {
        if current_page < pages.len() {
            match pages[current_page] {
                Page::Name => {
                    let mut prompt: Vec<String> = Vec::new();
                    prompt.push(String::from_str(NAME_PROMPT));
                    assert(texts(prompt@) =~= seq![NAME_PROMPT@]);
                    Screen::Name(LineInput::new(prompt, sheet.name.clone()))
                },
                Page::Race => Screen::Race(enum_menu(RACE_PROMPT)),
                Page::Class => Screen::Class(enum_menu(CLASS_PROMPT)),
                Page::Abilities => Screen::Method(either_menu(METHOD_PROMPT, ROLL, POINT_BUY)),
                _ => Screen::Summary,
            }
        } else {
            Screen::Summary
        }
    }

    /// A new wizard, on its first page.
    pub fn new() -> (app: App)
        ensures
            app@ == AppState::start(),
            app@.wf(),
    {
        let character_sheet = CharacterSheet::new();
        let page_stack = Page::iter();
        let screen = App::first_screen(&character_sheet, &page_stack, 0);
        App { character_sheet, page_stack, current_page: 0, ability_score_rolls: Vec::new(), screen }
    }

    /// The sheet as filled in so far.
    pub fn sheet(&self) -> (sheet: &CharacterSheet)
        ensures
            sheet@ == self@.sheet,
    {
        &self.character_sheet
    }

    /// The page the user is on, if the wizard is not past the last one.
    pub fn page(&self) -> (page: Option<Page>)
        ensures
            page == if self@.current_page < self@.pages.len() {
                Some(self@.pages[self@.current_page])
            } else {
                None
            },
    {
        if self.current_page < self.page_stack.len() {
            Some(self.page_stack[self.current_page])
        } else {
            None
        }
    }

    /// The rolled scores; empty until they are rolled.
    pub fn rolls(&self) -> (rolls: &Vec<i8>)
        ensures
            rolls@ == self@.rolls,
    {
        &self.ability_score_rolls
    }

    /// Whether the wizard is through.
    pub fn is_finished(&self) -> (finished: bool)
        ensures
            finished == (self@.screen is Summary),
    {
        match self.screen {
            Screen::Summary => true,
            _ => false,
        }
    }

    fn turn_page(&mut self)
        requires
            old(self)@.current_page < old(self)@.pages.len() <= usize::MAX,
            complete(old(self)@.sheet.ability_scores),
        ensures
            final(self)@ == old(self)@.turn_page(old(self)@.sheet),
            final(self)@.wf(),
    {
        self.current_page = self.current_page + 1;
        self.screen = App::first_screen(&self.character_sheet, &self.page_stack, self.current_page);
    }

    /// Enters `name` as the name of the character and begins the next page.
    pub fn enter_name(&mut self, name: String)
        requires
            old(self)@.wf(),
            !(old(self)@.screen is Summary),
        ensures
            final(self)@ == old(self)@.enter_name(name@),
            final(self)@.wf(),
    {
        self.character_sheet.name = name;
        self.turn_page();
    }

    /// Takes `rolls` for the rolled scores and begins to assign them.
    pub fn begin_rolls(&mut self, rolls: Vec<i8>)
        requires
            old(self)@.wf(),
            !(old(self)@.screen is Summary),
            rolls@.len() == BATCH,
        ensures
            final(self)@ == old(self)@.begin_rolls(rolls@),
            final(self)@.wf(),
    {
        let mut batch: Vec<i8> = Vec::new();
        let mut i: usize = 0;
        while i < rolls.len()
            invariant
                0 <= i <= rolls.len(),
                batch@ == rolls@.subrange(0, i as int),
            decreases rolls.len() - i,
        {
            batch.push(rolls[i]);
            assert(rolls@.subrange(0, i + 1) =~= rolls@.subrange(0, i as int).push(rolls@[i as int]));
            i = i + 1;
        }
        assert(batch@ =~= rolls@);
        self.screen = Screen::Rolls(RollAssignment::new(batch, self.character_sheet.ability_scores));
        self.ability_score_rolls = rolls;
    }

    /// Adds the bonuses of the character's race to the ability scores. A
    /// bonus to `ANY` is left for the player to place.
    pub fn adjust_ability_score_for_race(&mut self)
        requires
            adjustable(
                old(self)@.sheet.ability_scores,
                old(self)@.sheet.race.bonuses(),
                old(self)@.sheet.race.bonuses().len() as int,
            ),
        ensures
            final(self)@ == old(self)@.show_sheet(
                old(self)@.with_scores(
                    adjusted(
                        old(self)@.sheet.ability_scores,
                        old(self)@.sheet.race.bonuses(),
                        old(self)@.sheet.race.bonuses().len() as int,
                    ),
                ),
            ),
            old(self)@.wf() ==> final(self)@.wf(),
    {
        adjust_ability_score_for_race(
            &mut self.character_sheet.ability_scores,
            self.character_sheet.race,
        );
    }

    fn on_name(&mut self, event: Event) -> (outcome: Outcome)
        requires
            old(self)@.wf(),
            old(self)@.screen is Name,
        ensures
            old(self)@.leads_to(final(self)@, event, outcome),
    {
        let step = match &mut self.screen {
            Screen::Name(input) => {
                match input.handle(event) {
                    Outcome::Confirmed => Step::Name(
                        String::from_str(input.text().as_str().trim()),
                    ),
                    outcome => Step::Stay(outcome),
                }
            },
            _ => Step::Stay(Outcome::Pending),
        };
        match step {
            Step::Name(name) => {
                self.enter_name(name);
                self.progress()
            },
            Step::Stay(outcome) => outcome,
        }
    }

    fn on_race(&mut self, event: Event) -> (outcome: Outcome)
        requires
            old(self)@.wf(),
            old(self)@.screen is Race,
        ensures
            old(self)@.leads_to(final(self)@, event, outcome),
    {
        let choice = match &mut self.screen {
            Screen::Race(menu) => menu.handle(event),
            _ => Choice::Pending,
        };
        match choice {
            Choice::Chosen(race) => {
                self.character_sheet.race = race;
                self.screen = Screen::Alignment(enum_menu(ALIGNMENT_PROMPT));
                Outcome::Pending
            },
            Choice::Pending => Outcome::Pending,
            Choice::Cancelled => Outcome::Cancelled,
        }
    }

    fn on_alignment(&mut self, event: Event) -> (outcome: Outcome)
        requires
            old(self)@.wf(),
            old(self)@.screen is Alignment,
        ensures
            old(self)@.leads_to(final(self)@, event, outcome),
    {
        let choice = match &mut self.screen {
            Screen::Alignment(menu) => menu.handle(event),
            _ => Choice::Pending,
        };
        match choice {
            Choice::Chosen(alignment) => {
                self.character_sheet.alignment = alignment;
                self.turn_page();
                self.progress()
            },
            Choice::Pending => Outcome::Pending,
            Choice::Cancelled => Outcome::Cancelled,
        }
    }

    fn on_class(&mut self, event: Event) -> (outcome: Outcome)
        requires
            old(self)@.wf(),
            old(self)@.screen is Class,
        ensures
            old(self)@.leads_to(final(self)@, event, outcome),
    {
        let choice = match &mut self.screen {
            Screen::Class(menu) => menu.handle(event),
            _ => Choice::Pending,
        };
        match choice {
            Choice::Chosen(class) => {
                self.character_sheet.class = class;
                self.turn_page();
                self.progress()
            },
            Choice::Pending => Outcome::Pending,
            Choice::Cancelled => Outcome::Cancelled,
        }
    }

    fn on_method(&mut self, event: Event) -> (outcome: Outcome)
        requires
            old(self)@.wf(),
            old(self)@.screen is Method,
        ensures
            old(self)@.leads_to(final(self)@, event, outcome),
    {
        let choice = match &mut self.screen {
            Screen::Method(menu) => menu.handle(event),
            _ => Choice::Pending,
        };
        match choice {
            Choice::Chosen(point_buy) => {
                if point_buy {
                    self.screen = Screen::PointBuy(PointBuy::new(self.character_sheet.ability_scores));
                } else {
                    self.begin_rolls(get_ability_score_rolls());
                }
                Outcome::Pending
            },
            Choice::Pending => Outcome::Pending,
            Choice::Cancelled => Outcome::Cancelled,
        }
    }

    fn on_point_buy(&mut self, event: Event) -> (outcome: Outcome)
        requires
            old(self)@.wf(),
            old(self)@.screen is PointBuy,
        ensures
            old(self)@.leads_to(final(self)@, event, outcome),
    {
        let step = match &mut self.screen {
            Screen::PointBuy(allocation) => {
                let outcome = allocation.handle(event);
                (allocation.scores(), outcome)
            },
            _ => (self.character_sheet.ability_scores, Outcome::Pending),
        };
        match step.1 {
            Outcome::Confirmed => {
                self.character_sheet.ability_scores = step.0;
                self.turn_page();
                self.progress()
            },
            outcome => outcome,
        }
    }

    fn on_rolls(&mut self, event: Event) -> (outcome: Outcome)
        requires
            old(self)@.wf(),
            old(self)@.screen is Rolls,
        ensures
            old(self)@.leads_to(final(self)@, event, outcome),
    {
        let step = match &mut self.screen {
            Screen::Rolls(assignment) => {
                let outcome = assignment.handle(event);
                (assignment.scores(), outcome)
            },
            _ => (self.character_sheet.ability_scores, Outcome::Pending),
        };
        self.character_sheet.ability_scores = step.0;
        match step.1 {
            Outcome::Confirmed => {
                self.turn_page();
                self.progress()
            },
            outcome => outcome,
        }
    }

    /// Takes one event and says what the front end is to do next: draw and
    /// read on, show the summary and end, or leave.
    ///
    /// An event that confirms "Roll" has the dice rolled, and the wizard
    /// goes on as [`AppState::begin_rolls`] says with whatever they gave:
    /// six scores between 3 and 18 in ascending order. After any other event
    /// the wizard is [`AppState::apply`] of what it was.
    pub fn handle(&mut self, event: Event) -> (outcome: Outcome)
        requires
            old(self)@.wf(),
        ensures
            old(self)@.leads_to(final(self)@, event, outcome),
    {
        match self.screen {
            Screen::Name(_) => self.on_name(event),
            Screen::Race(_) => self.on_race(event),
            Screen::Alignment(_) => self.on_alignment(event),
            Screen::Class(_) => self.on_class(event),
            Screen::Method(_) => self.on_method(event),
            Screen::PointBuy(_) => self.on_point_buy(event),
            Screen::Rolls(_) => self.on_rolls(event),
            Screen::Summary => {
                match event {
                    Event::Cancel => Outcome::Cancelled,
                    _ => Outcome::Confirmed,
                }
            },
        }
    }

    fn progress(&self) -> (outcome: Outcome)
        ensures
            outcome == if self@.screen is Summary {
                Outcome::Confirmed
            } else {
                Outcome::Pending
            },
    {
        if self.is_finished() {
            Outcome::Confirmed
        } else {
            Outcome::Pending
        }
    }

    /// Draws the wizard.
    pub fn frame(&self) -> (frame: Frame)
        requires
            self@.wf(),
        ensures
            frame@ == self@.frame(),
    {
        match &self.screen {
            Screen::Name(input) => input.frame(),
            Screen::Race(menu) => menu.frame(),
            Screen::Alignment(menu) => menu.frame(),
            Screen::Class(menu) => menu.frame(),
            Screen::Method(menu) => menu.frame(),
            Screen::PointBuy(allocation) => allocation.frame(),
            Screen::Rolls(assignment) => assignment.frame(),
            Screen::Summary => summary_frame(&self.character_sheet),
        }
    }
}

} // verus!
