//! Roll assignment: the user binds each of six rolled scores to an ability
//! of their choice, one roll at a time.

use vstd::prelude::*;
use vstd::string::*;
use crate::character::{complete, AbilityName, AbilityScores};
use crate::frame::{menu_frame, menu_view, text_frame, text_view, Frame, FrameView};
use crate::text::{concat3, decimal, join, joined, number_text, texts, yes_no, yes_no_names};
use crate::input::{Event, Outcome};
use crate::menu::{SelectState, Selection};
use crate::util::{labels, EnumIter, EnumString};

verus! {

/// The number of rolls in a batch: one for each ability.
pub const BATCH: usize = 6;

/// The terminal row of the first ability offered for a roll: the pending
/// rolls and the question take two rows, and an empty row follows them.
pub const ASSIGN_FIRST_ROW: usize = 4;

/// The terminal row of the first option of the final question: the
/// question, an empty row and the six scores take eight rows, and an empty
/// row follows them.
pub const CONFIRM_FIRST_ROW: usize = 10;

/// The rolls in decimal.
pub open spec fn roll_texts(rolls: Seq<i8>) -> Seq<Seq<char>> {
    Seq::new(rolls.len(), |i: int| decimal(rolls[i] as int))
}

/// One line for each ability, in canonical order: its name, a colon and its
/// score.
pub open spec fn score_lines(scores: Map<AbilityName, int>) -> Seq<Seq<char>> {
    Seq::new(
        6,
        |i: int|
            AbilityName::canonical()[i].label() + ": "@ + decimal(
                scores[AbilityName::canonical()[i]],
            ),
    )
}

/// Where a roll assignment stands.
pub enum RollStage {
    /// The user picks the ability that receives the next roll.
    Assigning(SelectState),
    /// All six rolls are bound: the user is asked whether to keep the
    /// result.
    Confirming(SelectState),
    /// The assignment is final.
    Done,
}

/// A roll assignment, as the mathematics sees it.
pub struct RollAssignState {
    /// The batch of rolls, in the order in which they are assigned.
    pub rolls: Seq<i8>,
    /// The scores as they stand.
    pub scores: Map<AbilityName, int>,
    /// The abilities chosen so far: `chosen[j]` received `rolls[j]`.
    pub chosen: Seq<AbilityName>,
    /// The abilities that no roll is bound to yet, in canonical order.
    pub available: Seq<AbilityName>,
    /// What the user is doing.
    pub stage: RollStage,
}

impl RollAssignState {
    /// The menu of abilities for the next roll, with the first one
    /// highlighted.
    pub open spec fn offer(available: Seq<AbilityName>) -> SelectState {
        SelectState { cursor: 0, len: available.len() as int, first_row: ASSIGN_FIRST_ROW as int }
    }

    /// The final question, with "Yes" highlighted.
    pub open spec fn question() -> SelectState {
        SelectState { cursor: 0, len: 2, first_row: CONFIRM_FIRST_ROW as int }
    }

    /// The abilities chosen and the abilities still available are, taken
    /// together, the six canonical abilities, each once; every chosen
    /// ability holds the roll it was chosen for; and the stage fits the
    /// number of rolls bound.
    pub open spec fn wf(self) -> bool {
        &&& self.rolls.len() == BATCH
        &&& self.chosen.len() + self.available.len() == BATCH
        &&& complete(self.scores)
        &&& forall|i: int|
            0 <= i < self.available.len() ==> (#[trigger] self.available[i]).is_canonical()
        &&& forall|i: int, j: int|
            0 <= i < j < self.available.len() ==> (#[trigger] self.available[i]).position() < (
            #[trigger] self.available[j]).position()
        &&& forall|i: int| 0 <= i < self.chosen.len() ==> (#[trigger] self.chosen[i]).is_canonical()
        &&& forall|i: int, j: int|
            0 <= i < j < self.chosen.len() ==> #[trigger] self.chosen[i] != #[trigger] self.chosen[j]
        &&& forall|i: int, j: int|
            0 <= i < self.chosen.len() && 0 <= j < self.available.len() ==> #[trigger] self.chosen[i]
                != #[trigger] self.available[j]
        &&& forall|a: AbilityName|
            a.is_canonical() ==> self.chosen.contains(a) || self.available.contains(a)
        &&& forall|j: int|
            0 <= j < self.chosen.len() ==> self.scores[#[trigger] self.chosen[j]] == self.rolls[j]
        &&& match self.stage {
            RollStage::Assigning(m) => self.chosen.len() < BATCH && m.wf() && m.len
                == self.available.len() && m.first_row == ASSIGN_FIRST_ROW,
            RollStage::Confirming(q) => self.chosen.len() == BATCH && q.wf() && q.len == 2
                && q.first_row == CONFIRM_FIRST_ROW,
            RollStage::Done => self.chosen.len() == BATCH,
        }
    }

    /// The rolls that are not bound yet, the next one first.
    pub open spec fn pending(self) -> Seq<i8> {
        self.rolls.subrange(self.chosen.len() as int, self.rolls.len() as int)
    }

    /// A fresh assignment of `rolls` over `scores`: nothing is bound, and
    /// all six abilities are offered for the first roll.
    pub open spec fn start(rolls: Seq<i8>, scores: Map<AbilityName, int>) -> RollAssignState {
        RollAssignState {
            rolls,
            scores,
            chosen: Seq::empty(),
            available: AbilityName::canonical(),
            stage: RollStage::Assigning(RollAssignState::offer(AbilityName::canonical())),
        }
    }

    /// The assignment after the next roll is bound to the available ability
    /// at `choice`: the ability holds the roll and is offered no more. After
    /// the sixth roll the user is asked whether to keep the result.
    pub open spec fn assign(self, choice: int) -> RollAssignState {
        let ability = self.available[choice];
        let roll = self.rolls[self.chosen.len() as int];
        let chosen = self.chosen.push(ability);
        let available = self.available.remove(choice);
        RollAssignState {
            rolls: self.rolls,
            scores: self.scores.insert(ability, roll as int),
            chosen,
            available,
            stage: if chosen.len() == BATCH {
                RollStage::Confirming(RollAssignState::question())
            } else {
                RollStage::Assigning(RollAssignState::offer(available))
            },
        }
    }

    /// The assignment after the user has answered the final question with
    /// the option at `choice`: the first option makes the assignment final,
    /// the other one starts the negotiation again with the same rolls.
    pub open spec fn answer(self, choice: int) -> RollAssignState {
        if choice == 0 {
            RollAssignState {
                rolls: self.rolls,
                scores: self.scores,
                chosen: self.chosen,
                available: self.available,
                stage: RollStage::Done,
            }
        } else {
            RollAssignState::start(self.rolls, self.scores)
        }
    }

    /// The assignment with the menu on display replaced.
    pub open spec fn with_stage(self, stage: RollStage) -> RollAssignState {
        RollAssignState {
            rolls: self.rolls,
            scores: self.scores,
            chosen: self.chosen,
            available: self.available,
            stage,
        }
    }

    /// What the assignment looks like. While a roll is assigned: a menu of
    /// the available abilities under the pending rolls and the question. At
    /// the final question: a menu of "Yes" and "No" under the six scores.
    /// Nothing once the assignment is final.
    pub open spec fn frame(self) -> FrameView {
        match self.stage {
            RollStage::Assigning(m) => menu_view(
                seq![
                    joined(roll_texts(self.pending()), ", "@),
                    "What ability score would you like to assign "@ + decimal(
                        self.rolls[self.chosen.len() as int] as int,
                    ) + " to?"@,
                ],
                labels(self.available),
                m.cursor,
            ),
            RollStage::Confirming(q) => menu_view(
                seq!["Proceed with these ability scores?"@, Seq::<char>::empty()] + score_lines(
                    self.scores,
                ),
                yes_no_names(),
                q.cursor,
            ),
            RollStage::Done => text_view(Seq::empty(), false),
        }
    }

    /// The state after one event.
    pub open spec fn apply(self, event: Event) -> RollAssignState {
        match self.stage {
            RollStage::Assigning(m) => match event {
                Event::Confirm => self.assign(m.cursor),
                _ => self.with_stage(RollStage::Assigning(m.apply(event))),
            },
            RollStage::Confirming(q) => match event {
                Event::Confirm => self.answer(q.cursor),
                _ => self.with_stage(RollStage::Confirming(q.apply(event))),
            },
            RollStage::Done => self,
        }
    }

    /// What the front end is to do after `event`: leave on `Cancel`, go on
    /// to the next page once the assignment is final, and else draw and read
    /// on.
    pub open spec fn outcome(self, event: Event) -> Outcome {
        if event == Event::Cancel {
            Outcome::Cancelled
        } else if self.apply(event).stage is Done {
            Outcome::Confirmed
        } else {
            Outcome::Pending
        }
    }

    /// The state after a sequence of events, taken in order.
    pub open spec fn run(self, events: Seq<Event>) -> RollAssignState
        decreases events.len(),
    {
        if events.len() == 0 {
            self
        } else {
            self.run(events.drop_last()).apply(events.last())
        }
    }
}

/// A fresh assignment is well formed.
pub proof fn lemma_start_is_well_formed(rolls: Seq<i8>, scores: Map<AbilityName, int>)
    requires
        rolls.len() == BATCH,
        complete(scores),
    ensures
        RollAssignState::start(rolls, scores).wf(),
{
    let s = RollAssignState::start(rolls, scores);
    assert forall|a: AbilityName| a.is_canonical() implies s.available.contains(a) by {
        assert(s.available[a.position()] == a);
    }
}

/// Binding the next roll keeps an assignment well formed.
pub proof fn lemma_assign_keeps_well_formed(s: RollAssignState, choice: int)
    requires
        s.wf(),
        s.chosen.len() < BATCH,
        0 <= choice < s.available.len(),
    ensures
        s.assign(choice).wf(),
{
    let t = s.assign(choice);
    let ability = s.available[choice];
    let k = s.chosen.len() as int;
    assert forall|a: AbilityName| a.is_canonical() implies t.chosen.contains(a)
        || t.available.contains(a) by {
        if a == ability {
            assert(t.chosen[k] == a);
        } else if s.chosen.contains(a) {
            let i = choose|i: int| 0 <= i < s.chosen.len() && s.chosen[i] == a;
            assert(t.chosen[i] == a);
        } else {
            assert(s.available.contains(a));
            let j = choose|j: int| 0 <= j < s.available.len() && s.available[j] == a;
            if j < choice {
                assert(t.available[j] == a);
            } else {
                assert(t.available[j - 1] == a);
            }
        }
    }
    assert forall|j: int| 0 <= j < t.chosen.len() implies t.scores[#[trigger] t.chosen[j]]
        == t.rolls[j] by {
        if j < k {
            assert(s.chosen[j] != s.available[choice]);
        }
    }
    assert forall|i: int, j: int| 0 <= i < j < t.chosen.len() implies #[trigger] t.chosen[i]
        != #[trigger] t.chosen[j] by {
        if j == k {
            assert(s.chosen[i] != s.available[choice]);
        } else {
            assert(s.chosen[i] != s.chosen[j]);
        }
    }
    assert forall|i: int, j: int|
        0 <= i < t.chosen.len() && 0 <= j < t.available.len() implies #[trigger] t.chosen[i]
        != #[trigger] t.available[j] by {
        let j0 = if j < choice {
            j
        } else {
            j + 1
        };
        assert(t.available[j] == s.available[j0]);
        if i == k {
            if j0 < choice {
                assert(s.available[j0].position() < s.available[choice].position());
            } else {
                assert(s.available[choice].position() < s.available[j0].position());
            }
        } else {
            assert(s.chosen[i] != s.available[j0]);
        }
    }
    assert forall|i: int, j: int| 0 <= i < j < t.available.len() implies (
    #[trigger] t.available[i]).position() < (#[trigger] t.available[j]).position() by {
        let i0 = if i < choice {
            i
        } else {
            i + 1
        };
        let j0 = if j < choice {
            j
        } else {
            j + 1
        };
        assert(s.available[i0].position() < s.available[j0].position());
    }
}

/// One event keeps an assignment well formed, and never touches the batch
/// of rolls.
pub proof fn lemma_roll_assignment_step(s: RollAssignState, event: Event)
    requires
        s.wf(),
    ensures
        s.apply(event).wf(),
        s.apply(event).rolls == s.rolls,
{
    match s.stage {
        RollStage::Assigning(m) => {
            if event == Event::Confirm {
                lemma_assign_keeps_well_formed(s, m.cursor);
            }
        },
        RollStage::Confirming(q) => {
            if event == Event::Confirm && q.cursor != 0 {
                lemma_start_is_well_formed(s.rolls, s.scores);
            }
        },
        RollStage::Done => {},
    }
}

/// Whatever the events are, the assignment stays well formed and works on
/// the batch of rolls it began with: nothing is ever rolled again.
pub proof fn lemma_roll_assignment_keeps_its_rolls(s: RollAssignState, events: Seq<Event>)
    requires
        s.wf(),
    ensures
        s.run(events).wf(),
        s.run(events).rolls == s.rolls,
    decreases events.len(),
{
    if events.len() > 0 {
        lemma_roll_assignment_keeps_its_rolls(s, events.drop_last());
        lemma_roll_assignment_step(s.run(events.drop_last()), events.last());
    }
}

/// A completed assignment is a bijection between the six rolls and the six
/// abilities: roll `j` went to ability `chosen[j]`, which holds it as its
/// score; no two rolls went to the same ability; and every ability received
/// a roll.
pub proof fn lemma_assignment_is_a_bijection(s: RollAssignState)
    requires
        s.wf(),
        s.chosen.len() == BATCH,
    ensures
        forall|j: int|
            0 <= j < BATCH ==> (#[trigger] s.chosen[j]).is_canonical() && s.scores[s.chosen[j]]
                == s.rolls[j],
        forall|i: int, j: int|
            0 <= i < j < BATCH ==> #[trigger] s.chosen[i] != #[trigger] s.chosen[j],
        forall|a: AbilityName|
            a.is_canonical() ==> exists|j: int|
                0 <= j < BATCH && #[trigger] s.chosen[j] == a && s.scores[a] == s.rolls[j],
{
    assert forall|a: AbilityName| a.is_canonical() implies exists|j: int|
        0 <= j < BATCH && #[trigger] s.chosen[j] == a && s.scores[a] == s.rolls[j] by {
        assert(s.available.len() == 0);
        assert(s.chosen.contains(a));
        let j = choose|j: int| 0 <= j < s.chosen.len() && s.chosen[j] == a;
        assert(s.chosen[j] == a && s.scores[a] == s.rolls[j]);
    }
}

/// The scores of the six abilities, in canonical order.
pub open spec fn scores_in_order(scores: Map<AbilityName, int>) -> Seq<int> {
    Seq::new(6, |i: int| scores[AbilityName::canonical()[i]])
}

/// The rolls as integers.
pub open spec fn roll_values(rolls: Seq<i8>) -> Seq<int> {
    Seq::new(rolls.len(), |i: int| rolls[i] as int)
}

/// The values of `values` in the order that `places` gives: place `j` of
/// the result holds the value at place `places[j]`.
pub open spec fn rearranged(values: Seq<int>, places: Seq<int>) -> Seq<int> {
    Seq::new(values.len(), |j: int| values[places[j]])
}

/// Whether `places` names every place below `count` once.
pub open spec fn one_to_one(places: Seq<int>, count: int) -> bool {
    &&& places.len() == count
    &&& forall|j: int| 0 <= j < count ==> 0 <= #[trigger] places[j] < count
    &&& forall|i: int, j: int| 0 <= i < j < count ==> #[trigger] places[i] != #[trigger] places[j]
}

/// Values in another order are the same values, each as often as before.
pub proof fn lemma_rearranging_keeps_the_values(values: Seq<int>, places: Seq<int>)
    requires
        one_to_one(places, values.len() as int),
    ensures
        rearranged(values, places).to_multiset() == values.to_multiset(),
    decreases values.len(),
{
    broadcast use vstd::seq_lib::group_to_multiset_ensures;

    let n = values.len() as int;
    let moved = rearranged(values, places);
    if n == 0 {
        assert(moved =~= values);
    } else {
        let last = places[n - 1];
        let rest = values.remove(last);
        let shifted = Seq::new(
            (n - 1) as nat,
            |j: int|
                if places[j] > last {
                    places[j] - 1
                } else {
                    places[j]
                },
        );
        assert forall|i: int, j: int| 0 <= i < j < n - 1 implies #[trigger] shifted[i]
            != #[trigger] shifted[j] by {
            assert(places[i] != places[j]);
            assert(places[i] != places[n - 1]);
            assert(places[j] != places[n - 1]);
        }
        assert forall|j: int| 0 <= j < n - 1 implies 0 <= #[trigger] shifted[j] < n - 1 by {
            assert(places[j] != places[n - 1]);
        }
        lemma_rearranging_keeps_the_values(rest, shifted);
        assert(rearranged(rest, shifted) =~= moved.drop_last()) by {
            assert forall|j: int| 0 <= j < n - 1 implies rearranged(rest, shifted)[j]
                == moved.drop_last()[j] by {
                assert(places[j] != places[n - 1]);
            }
        }
        assert(moved =~= moved.drop_last().push(values[last]));
        assert(values.contains(values[last]));
        assert(values.to_multiset().count(values[last]) > 0);
        assert(rest.to_multiset().insert(values[last]) =~= values.to_multiset());
    }
}

/// The scores of a completed assignment are the rolls of the batch, each as
/// often as it was rolled.
pub proof fn lemma_scores_are_the_rolls(s: RollAssignState)
    requires
        s.wf(),
        s.chosen.len() == BATCH,
    ensures
        scores_in_order(s.scores).to_multiset() == roll_values(s.rolls).to_multiset(),
{
    let places = Seq::new(6, |j: int| s.chosen[j].position());
    assert forall|i: int, j: int| 0 <= i < j < 6 implies #[trigger] places[i]
        != #[trigger] places[j] by {
        assert(s.chosen[i] != s.chosen[j]);
    }
    assert forall|j: int| 0 <= j < 6 implies 0 <= #[trigger] places[j] < 6 by {
        assert(s.chosen[j].is_canonical());
    }
    lemma_rearranging_keeps_the_values(scores_in_order(s.scores), places);
    assert(rearranged(scores_in_order(s.scores), places) =~= roll_values(s.rolls)) by {
        assert forall|j: int| 0 <= j < 6 implies rearranged(scores_in_order(s.scores), places)[j]
            == roll_values(s.rolls)[j] by {
            assert(AbilityName::canonical()[s.chosen[j].position()] == s.chosen[j]);
            assert(s.scores[s.chosen[j]] == s.rolls[j]);
        }
    }
}

/// A click lands where the frame shows it: after a click on the row of an
/// ability that is offered, that row is the highlighted one.
pub proof fn lemma_click_highlights_the_ability(s: RollAssignState, m: SelectState, row: u16)
    requires
        s.wf(),
        s.stage == RollStage::Assigning(m),
        m.first_row <= row < m.first_row + m.len,
    ensures
        s.apply(Event::Click(row)).frame().highlighted == Some(row - 1),
        s.apply(Event::Click(row)).frame().lines[row - 1] == s.available[row
            - m.first_row].label(),
{
}

/// A click lands where the frame shows it: after a click on the row of an
/// answer to the final question, that row is the highlighted one.
pub proof fn lemma_click_highlights_the_answer(s: RollAssignState, q: SelectState, row: u16)
    requires
        s.wf(),
        s.stage == RollStage::Confirming(q),
        q.first_row <= row < q.first_row + q.len,
    ensures
        s.apply(Event::Click(row)).frame().highlighted == Some(row - 1),
        s.apply(Event::Click(row)).frame().lines[row - 1] == yes_no_names()[row - q.first_row],
{
}

/// Declining the final question starts the negotiation again with the very
/// batch of rolls it began with.
pub proof fn lemma_decline_keeps_rolls(s: RollAssignState, q: SelectState)
    requires
        s.stage == RollStage::Confirming(q),
        q.cursor != 0,
    ensures
        s.apply(Event::Confirm) == RollAssignState::start(s.rolls, s.scores),
        s.apply(Event::Confirm).rolls == s.rolls,
{
}

#[derive(Copy, Clone, Debug)]
enum Stage {
    Assigning(Selection),
    Confirming(Selection),
    Done,
}

/// The negotiation that binds each roll of a batch to an ability. The rolls
/// are taken in the order of the batch; for each, the user picks one of the
/// abilities that no roll is bound to yet.
#[derive(Debug)]
pub struct RollAssignment {
    rolls: Vec<i8>,
    scores: AbilityScores,
    chosen: Vec<AbilityName>,
    available: Vec<AbilityName>,
    stage: Stage,
}

impl View for RollAssignment {
    type V = RollAssignState;

    closed spec fn view(&self) -> RollAssignState {
        RollAssignState {
            rolls: self.rolls@,
            scores: self.scores@,
            chosen: self.chosen@,
            available: self.available@,
            stage: match self.stage {
                Stage::Assigning(m) => RollStage::Assigning(m@),
                Stage::Confirming(q) => RollStage::Confirming(q@),
                Stage::Done => RollStage::Done,
            },
        }
    }
}

impl RollAssignment {
    /// Begins to assign the batch `rolls` over `scores`. All six abilities
    /// are offered for the first roll.
    pub fn new(rolls: Vec<i8>, scores: AbilityScores) -> (r: RollAssignment)
        requires
            rolls@.len() == BATCH,
        ensures
            r@ == RollAssignState::start(rolls@, scores@),
            r@.wf(),
    {
        proof {
            lemma_start_is_well_formed(rolls@, scores@);
        }
        let available = AbilityName::iter();
        let menu = Selection::new(available.len(), ASSIGN_FIRST_ROW);
        RollAssignment { rolls, scores, chosen: Vec::new(), available, stage: Stage::Assigning(menu) }
    }

    /// The scores as they stand.
    pub fn scores(&self) -> (scores: AbilityScores)
        ensures
            scores@ == self@.scores,
    {
        self.scores
    }

    /// The batch of rolls.
    pub fn rolls(&self) -> (rolls: &Vec<i8>)
        ensures
            rolls@ == self@.rolls,
    {
        &self.rolls
    }

    /// The abilities chosen so far, in the order of the rolls they received.
    pub fn chosen(&self) -> (chosen: &Vec<AbilityName>)
        ensures
            chosen@ == self@.chosen,
    {
        &self.chosen
    }

    /// The abilities that no roll is bound to yet, in canonical order.
    pub fn available(&self) -> (available: &Vec<AbilityName>)
        ensures
            available@ == self@.available,
    {
        &self.available
    }

    /// The roll that is being assigned, if one is.
    pub fn current_roll(&self) -> (roll: Option<i8>)
        requires
            self@.wf(),
        ensures
            roll == match self@.stage {
                RollStage::Assigning(_) => Some(self@.rolls[self@.chosen.len() as int]),
                _ => None,
            },
    {
        match self.stage {
            Stage::Assigning(_) => Some(self.rolls[self.chosen.len()]),
            _ => None,
        }
    }

    /// The index of the highlighted option of the menu on display, if one
    /// is: an index into the available abilities while a roll is being
    /// assigned, and 0 for "Yes" or 1 for "No" at the final question.
    pub fn cursor(&self) -> (cursor: Option<usize>)
        ensures
            cursor == match self@.stage {
                RollStage::Assigning(m) => Some(m.cursor as usize),
                RollStage::Confirming(q) => Some(q.cursor as usize),
                RollStage::Done => None,
            },
    {
        match self.stage {
            Stage::Assigning(m) => Some(m.cursor()),
            Stage::Confirming(q) => Some(q.cursor()),
            Stage::Done => None,
        }
    }

    /// Whether all six rolls are bound and the final question is being
    /// asked.
    pub fn is_confirming(&self) -> (confirming: bool)
        ensures
            confirming == (self@.stage is Confirming),
    {
        match self.stage {
            Stage::Confirming(_) => true,
            _ => false,
        }
    }

    /// Whether the assignment is final.
    pub fn is_done(&self) -> (done: bool)
        ensures
            done == (self@.stage is Done),
    {
        match self.stage {
            Stage::Done => true,
            _ => false,
        }
    }

    /// Draws the assignment.
    pub fn frame(&self) -> (frame: Frame)
        requires
            self@.wf(),
        ensures
            frame@ == self@.frame(),
    {
        match self.stage {
            Stage::Assigning(m) => {
                let bound = self.chosen.len();
                let mut pending: Vec<String> = Vec::new();
                let mut i: usize = bound;
                while i < self.rolls.len()
                    invariant
                        bound <= i <= self.rolls.len(),
                        pending@.len() == i - bound,
                        forall|j: int|
                            0 <= j < i - bound ==> pending@[j]@ == decimal(
                                self.rolls@[bound + j] as int,
                            ),
                    decreases self.rolls.len() - i,
                {
                    pending.push(number_text(self.rolls[i] as i64));
                    i = i + 1;
                }
                assert(texts(pending@) =~= roll_texts(self@.pending()));
                let mut names: Vec<String> = Vec::new();
                let mut k: usize = 0;
                while k < self.available.len()
                    invariant
                        0 <= k <= self.available.len(),
                        names@.len() == k,
                        forall|j: int| 0 <= j < k ==> names@[j]@ == self.available@[j].label(),
                    decreases self.available.len() - k,
                {
                    names.push(self.available[k].to_string());
                    k = k + 1;
                }
                assert(texts(names@) =~= labels(self@.available));
                let roll = number_text(self.rolls[bound] as i64);
                let mut prompt: Vec<String> = Vec::new();
                prompt.push(join(&pending, ", "));
                prompt.push(
                    concat3("What ability score would you like to assign ", roll.as_str(), " to?"),
                );
                assert(texts(prompt@) =~= seq![
                    joined(roll_texts(self@.pending()), ", "@),
                    "What ability score would you like to assign "@ + decimal(
                        self@.rolls[self@.chosen.len() as int] as int,
                    ) + " to?"@,
                ]);
                menu_frame(prompt, names, m.cursor())
            },
            Stage::Confirming(q) => {
                let mut prompt: Vec<String> = Vec::new();
                prompt.push(String::from_str("Proceed with these ability scores?"));
                prompt.push(String::new());
                let mut i: usize = 0;
                while i < 6
                    invariant
                        0 <= i <= 6,
                        prompt@.len() == 2 + i,
                        prompt@[0]@ == "Proceed with these ability scores?"@,
                        prompt@[1]@ == Seq::<char>::empty(),
                        forall|j: int|
                            0 <= j < i ==> prompt@[2 + j]@ == score_lines(self.scores@)[j],
                    decreases 6 - i,
                {
                    let ability = AbilityName::at(i);
                    let score = number_text(self.scores.get(ability) as i64);
                    prompt.push(concat3(ability.to_string().as_str(), ": ", score.as_str()));
                    i = i + 1;
                }
                assert(texts(prompt@) =~= seq![
                    "Proceed with these ability scores?"@,
                    Seq::<char>::empty(),
                ] + score_lines(self@.scores));
                menu_frame(prompt, yes_no(), q.cursor())
            },
            Stage::Done => {
                let lines: Vec<String> = Vec::new();
                assert(texts(lines@) =~= Seq::<Seq<char>>::empty());
                text_frame(lines, false)
            },
        }
    }

    /// Takes one event and says what the front end is to do next. The new
    /// state is [`RollAssignState::apply`] of the old one.
    pub fn handle(&mut self, event: Event) -> (outcome: Outcome)
        requires
            old(self)@.wf(),
        ensures
            final(self)@ == old(self)@.apply(event),
            final(self)@.wf(),
            outcome == old(self)@.outcome(event),
    {
        proof {
            lemma_roll_assignment_step(self@, event);
        }
        match self.stage {
            Stage::Assigning(m) => {
                match event {
                    Event::Confirm => {
                        let choice = m.cursor();
                        let ability = self.available[choice];
                        let roll = self.rolls[self.chosen.len()];
                        self.scores.set(ability, roll);
                        self.chosen.push(ability);
                        self.available.remove(choice);
                        if self.chosen.len() == BATCH {
                            self.stage = Stage::Confirming(Selection::new(2, CONFIRM_FIRST_ROW));
                        } else {
                            self.stage = Stage::Assigning(
                                Selection::new(self.available.len(), ASSIGN_FIRST_ROW),
                            );
                        }
                        Outcome::Pending
                    },
                    _ => {
                        let mut m = m;
                        let outcome = m.handle(event);
                        self.stage = Stage::Assigning(m);
                        outcome
                    },
                }
            },
            Stage::Confirming(q) => {
                match event {
                    Event::Confirm => {
                        if q.cursor() == 0 {
                            self.stage = Stage::Done;
                            Outcome::Confirmed
                        } else {
                            self.chosen = Vec::new();
                            self.available = AbilityName::iter();
                            self.stage = Stage::Assigning(
                                Selection::new(self.available.len(), ASSIGN_FIRST_ROW),
                            );
                            Outcome::Pending
                        }
                    },
                    _ => {
                        let mut q = q;
                        let outcome = q.handle(event);
                        self.stage = Stage::Confirming(q);
                        outcome
                    },
                }
            },
            Stage::Done => {
                match event {
                    Event::Cancel => Outcome::Cancelled,
                    _ => Outcome::Confirmed,
                }
            },
        }
    }
}

} // verus!
