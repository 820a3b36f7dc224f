//! Point-buy: a shared pool of points spent on the six abilities, one ability
//! at a time.

use vstd::prelude::*;
use vstd::string::*;
use crate::adjustment::{
    cost_from_floor, lemma_adjustment_step, AdjustState, Adjustment, MAX_SCORE, MIN_SCORE,
    POINT_POOL,
};
use crate::character::{complete, AbilityName, AbilityScores};
use crate::frame::{menu_frame, menu_view, text_frame, text_view, Frame, FrameView};
use crate::input::{Event, Outcome};
use crate::menu::{SelectState, Selection};
use crate::text::{concat3, decimal, number_text, texts, yes_no, yes_no_names};
use crate::util::EnumString;

verus! {

/// Where a point-buy allocation stands.
pub enum PointBuyStage {
    /// The user adjusts the score of the current ability.
    Adjusting(AdjustState),
    /// All six scores are in and points are left: the user is asked whether
    /// to go on all the same.
    Confirming(SelectState),
    /// The allocation is final.
    Done,
}

/// A point-buy allocation, as the mathematics sees it.
pub struct PointBuyState {
    /// The scores entered so far.
    pub scores: Map<AbilityName, int>,
    /// The points that are left, not counting what the adjustment under way
    /// has used.
    pub pool: int,
    /// The place of the current ability in the canonical order; six once
    /// every ability has had its turn.
    pub index: int,
    /// What the user is doing.
    pub stage: PointBuyStage,
}

/// The terminal row on which the first option of the final question is
/// drawn: the question takes one row, and an empty row follows it.
pub const CONFIRM_FIRST_ROW: usize = 3;

impl PointBuyState {
    /// The question whether to go on with points left, with "Yes"
    /// highlighted.
    pub open spec fn question() -> SelectState {
        SelectState { cursor: 0, len: 2, first_row: CONFIRM_FIRST_ROW as int }
    }

    /// The stores of a well-formed allocation hold the six abilities, the
    /// pool is within the budget, and the stage fits the index.
    pub open spec fn wf(self) -> bool {
        &&& 0 <= self.pool <= POINT_POOL
        &&& complete(self.scores)
        &&& match self.stage {
            PointBuyStage::Adjusting(a) => 0 <= self.index < 6 && a.pool == self.pool && a.wf(),
            PointBuyStage::Confirming(q) => self.index == 6 && self.pool > 0 && q.wf() && q.len
                == 2 && q.first_row == CONFIRM_FIRST_ROW,
            PointBuyStage::Done => self.index == 6,
        }
    }

    /// Every score entered, and the score on display, lies between the floor
    /// and the ceiling.
    pub open spec fn in_range(self) -> bool {
        &&& forall|a: AbilityName|
            a.is_canonical() ==> MIN_SCORE <= #[trigger] self.scores[a] <= MAX_SCORE
        &&& self.stage matches PointBuyStage::Adjusting(a) ==> a.in_range()
    }

    /// The points that the user sees as left.
    pub open spec fn remaining(self) -> int {
        match self.stage {
            PointBuyStage::Adjusting(a) => a.remaining(),
            _ => self.pool,
        }
    }

    /// The allocation at the turn of the ability at `index`: its score as
    /// entered so far is on display, and nothing of the pool is used yet.
    pub open spec fn turn(scores: Map<AbilityName, int>, pool: int, index: int) -> PointBuyState {
        PointBuyState {
            scores,
            pool,
            index,
            stage: PointBuyStage::Adjusting(
                AdjustState { value: scores[AbilityName::canonical()[index]], pool, used: 0 },
            ),
        }
    }

    /// A fresh allocation over `scores`: the whole budget, and the first
    /// ability's turn.
    pub open spec fn start(scores: Map<AbilityName, int>) -> PointBuyState {
        PointBuyState::turn(scores, POINT_POOL as int, 0)
    }

    /// The allocation after the user has confirmed the score on display:
    /// the score is entered, the points it used leave the pool, and the next
    /// ability has its turn. After the sixth ability the allocation is final
    /// if the pool is empty, and else the user is asked whether to go on.
    pub open spec fn commit(self, a: AdjustState) -> PointBuyState {
        let scores = self.scores.insert(AbilityName::canonical()[self.index], a.value);
        let pool = self.pool - a.used;
        if self.index + 1 < 6 {
            PointBuyState::turn(scores, pool, self.index + 1)
        } else if pool > 0 {
            PointBuyState {
                scores,
                pool,
                index: 6,
                stage: PointBuyStage::Confirming(PointBuyState::question()),
            }
        } else {
            PointBuyState { scores, pool, index: 6, stage: PointBuyStage::Done }
        }
    }

    /// The allocation after the user has answered the final question with
    /// the option at `choice`: the first option makes the allocation final,
    /// the other one gives every ability another turn, with the scores and
    /// the pool as they are.
    pub open spec fn answer(self, choice: int) -> PointBuyState {
        if choice == 0 {
            PointBuyState {
                scores: self.scores,
                pool: self.pool,
                index: 6,
                stage: PointBuyStage::Done,
            }
        } else {
            PointBuyState::turn(self.scores, self.pool, 0)
        }
    }

    /// What the allocation looks like. While a score is adjusted: the
    /// points that are left, the ability, an empty line and the score. At
    /// the final question: a menu of "Yes" and "No" under the number of
    /// points left. Nothing once the allocation is final.
    pub open spec fn frame(self) -> FrameView {
        match self.stage {
            PointBuyStage::Adjusting(a) => text_view(
                seq![
                    "Pool Remaining: "@ + decimal(a.remaining()),
                    "Adjust points for "@ + AbilityName::canonical()[self.index].label() + ":"@,
                    Seq::<char>::empty(),
                    decimal(a.value),
                ],
                false,
            ),
            PointBuyStage::Confirming(q) => menu_view(
                seq![
                    "You have "@ + decimal(self.pool)
                        + " points remaining. Are you sure you want to proceed?"@,
                ],
                yes_no_names(),
                q.cursor,
            ),
            PointBuyStage::Done => text_view(Seq::empty(), false),
        }
    }

    /// The state after one event.
    pub open spec fn apply(self, event: Event) -> PointBuyState {
        match self.stage {
            PointBuyStage::Adjusting(a) => match event {
                Event::Confirm => self.commit(a),
                _ => PointBuyState {
                    scores: self.scores,
                    pool: self.pool,
                    index: self.index,
                    stage: PointBuyStage::Adjusting(a.apply(event)),
                },
            },
            PointBuyStage::Confirming(q) => match event {
                Event::Confirm => self.answer(q.cursor),
                _ => PointBuyState {
                    scores: self.scores,
                    pool: self.pool,
                    index: self.index,
                    stage: PointBuyStage::Confirming(q.apply(event)),
                },
            },
            PointBuyStage::Done => self,
        }
    }

    /// What the front end is to do after `event`: leave on `Cancel`, go on
    /// to the next page once the allocation is final, and else draw and
    /// read on.
    pub open spec fn outcome(self, event: Event) -> Outcome {
        if event == Event::Cancel {
            Outcome::Cancelled
        } else if self.apply(event).stage is Done {
            Outcome::Confirmed
        } else {
            Outcome::Pending
        }
    }

    /// The state after a sequence of events, taken in order.
    pub open spec fn run(self, events: Seq<Event>) -> PointBuyState
        decreases events.len(),
    {
        if events.len() == 0 {
            self
        } else {
            self.run(events.drop_last()).apply(events.last())
        }
    }
}

/// One event keeps an allocation well formed and its scores in range.
pub proof fn lemma_point_buy_step(s: PointBuyState, event: Event)
    requires
        s.wf(),
    ensures
        s.apply(event).wf(),
        s.in_range() ==> s.apply(event).in_range(),
        0 <= s.apply(event).remaining() <= POINT_POOL,
{
    match s.stage {
        PointBuyStage::Adjusting(a) => {
            lemma_adjustment_step(a, event);
        },
        PointBuyStage::Confirming(q) => {},
        PointBuyStage::Done => {},
    }
}

/// Whatever the events are, every score of a point-buy allocation stays
/// between the floor and the ceiling, and the pool never goes below nothing
/// nor above the whole budget.
pub proof fn lemma_point_buy_stays_in_bounds(s: PointBuyState, events: Seq<Event>)
    requires
        s.wf(),
        s.in_range(),
    ensures
        s.run(events).wf(),
        s.run(events).in_range(),
        0 <= s.run(events).pool <= POINT_POOL,
        0 <= s.run(events).remaining() <= POINT_POOL,
    decreases events.len(),
{
    if events.len() > 0 {
        lemma_point_buy_stays_in_bounds(s, events.drop_last());
        lemma_point_buy_step(s.run(events.drop_last()), events.last());
    }
}

/// The points it takes to raise all six scores from the floor to where they
/// are.
pub open spec fn total_cost(scores: Map<AbilityName, int>) -> int {
    cost_from_floor(scores[AbilityName::Strength]) + cost_from_floor(
        scores[AbilityName::Dexterity],
    ) + cost_from_floor(scores[AbilityName::Constitution]) + cost_from_floor(
        scores[AbilityName::Intelligence],
    ) + cost_from_floor(scores[AbilityName::Wisdom]) + cost_from_floor(
        scores[AbilityName::Charisma],
    )
}

impl PointBuyState {
    /// What the allocation is worth: the cost of the scores, with the score
    /// on display in the place of the one it would replace, and the points
    /// that the user sees as left.
    pub open spec fn worth(self) -> int {
        match self.stage {
            PointBuyStage::Adjusting(a) => total_cost(
                self.scores.insert(AbilityName::canonical()[self.index], a.value),
            ) + a.remaining(),
            _ => total_cost(self.scores) + self.pool,
        }
    }

    /// Whether the allocation is worth no more than `budget`, both as it
    /// stands and as it was when the score on display began to move.
    pub open spec fn within(self, budget: int) -> bool {
        self.worth() <= budget && total_cost(self.scores) + self.pool <= budget
    }
}

/// A fresh allocation is worth what its scores cost, and the whole pool.
pub proof fn lemma_start_is_within_budget(scores: Map<AbilityName, int>)
    requires
        complete(scores),
    ensures
        PointBuyState::start(scores).within(total_cost(scores) + POINT_POOL),
{
    lemma_cost_of_replacing(scores, AbilityName::Strength, scores[AbilityName::Strength]);
}

/// Replacing one score changes the total cost by the difference between
/// the cost of the new score and that of the old one.
pub proof fn lemma_cost_of_replacing(scores: Map<AbilityName, int>, name: AbilityName, score: int)
    requires
        name.is_canonical(),
    ensures
        total_cost(scores.insert(name, score)) == total_cost(scores) - cost_from_floor(scores[name])
            + cost_from_floor(score),
{
}

/// Moving the score on display up or down never makes the score and what is
/// left of the pool worth more together.
pub proof fn lemma_moving_gains_nothing(a: AdjustState, event: Event)
    requires
        a.wf(),
        a.in_range(),
    ensures
        cost_from_floor(a.apply(event).value) + a.apply(event).remaining() <= cost_from_floor(
            a.value,
        ) + a.remaining(),
{
}

/// No event makes an allocation worth more: a point that a score costs
/// leaves the pool, and no point comes from nowhere.
pub proof fn lemma_no_point_is_gained(s: PointBuyState, event: Event, budget: int)
    requires
        s.wf(),
        s.in_range(),
        s.within(budget),
    ensures
        s.apply(event).within(budget),
{
    match s.stage {
        PointBuyStage::Adjusting(a) => {
            let name = AbilityName::canonical()[s.index];
            lemma_cost_of_replacing(s.scores, name, a.value);
            if event == Event::Confirm {
                let t = s.commit(a);
                if let PointBuyStage::Adjusting(b) = t.stage {
                    let next = AbilityName::canonical()[t.index];
                    lemma_cost_of_replacing(t.scores, next, b.value);
                }
            } else {
                lemma_moving_gains_nothing(a, event);
                lemma_cost_of_replacing(s.scores, name, a.apply(event).value);
            }
        },
        PointBuyStage::Confirming(q) => {
            if event == Event::Confirm && q.cursor != 0 {
                lemma_cost_of_replacing(
                    s.scores,
                    AbilityName::Strength,
                    s.scores[AbilityName::Strength],
                );
            }
        },
        PointBuyStage::Done => {},
    }
}

/// The scores stay affordable: whatever the events are, the scores of an
/// allocation and the points left are together worth no more than they were
/// at the beginning. Scores bought from the floor with the whole budget
/// never cost more than the budget.
pub proof fn lemma_scores_stay_affordable(s: PointBuyState, events: Seq<Event>, budget: int)
    requires
        s.wf(),
        s.in_range(),
        s.within(budget),
    ensures
        s.run(events).within(budget),
        total_cost(s.run(events).scores) <= budget - s.run(events).pool,
    decreases events.len(),
{
    if events.len() > 0 {
        let before = s.run(events.drop_last());
        lemma_scores_stay_affordable(s, events.drop_last(), budget);
        lemma_point_buy_stays_in_bounds(s, events.drop_last());
        lemma_no_point_is_gained(before, events.last(), budget);
    }
}

/// Every ability at the floor.
pub open spec fn floor_scores() -> Map<AbilityName, int> {
    Map::new(|a: AbilityName| a.is_canonical(), |a: AbilityName| MIN_SCORE as int)
}

/// The budget is never overspent: whatever the events are, the scores
/// bought from the floor cost no more than the budget less what is left of
/// it, and every one of them lies between the floor and the ceiling.
pub proof fn lemma_budget_is_never_overspent(events: Seq<Event>)
    ensures
        ({
            let end = PointBuyState::start(floor_scores()).run(events);
            &&& end.wf()
            &&& end.in_range()
            &&& 0 <= end.pool <= POINT_POOL
            &&& 0 <= total_cost(end.scores) <= POINT_POOL - end.pool
        }),
{
    let s = PointBuyState::start(floor_scores());
    lemma_start_is_within_budget(floor_scores());
    lemma_point_buy_stays_in_bounds(s, events);
    lemma_scores_stay_affordable(s, events, POINT_POOL as int);
}

/// A click lands where the frame shows it: after a click on the row of an
/// answer to the final question, that row is the highlighted one.
pub proof fn lemma_click_highlights_the_answer(s: PointBuyState, q: SelectState, row: u16)
    requires
        s.wf(),
        s.stage == PointBuyStage::Confirming(q),
        q.first_row <= row < q.first_row + q.len,
    ensures
        s.apply(Event::Click(row)).frame().highlighted == Some(row - 1),
        s.apply(Event::Click(row)).frame().lines[row - 1] == yes_no_names()[row - q.first_row],
{
}

/// Declining the final question keeps every score that was entered, and the
/// pool: the abilities have another turn from where they stand, not from
/// the defaults.
pub proof fn lemma_decline_keeps_scores(s: PointBuyState, q: SelectState)
    requires
        s.stage == PointBuyStage::Confirming(q),
        q.cursor != 0,
    ensures
        s.apply(Event::Confirm).scores == s.scores,
        s.apply(Event::Confirm).pool == s.pool,
        s.apply(Event::Confirm) == PointBuyState::turn(s.scores, s.pool, 0),
{
}

#[derive(Copy, Clone, Debug)]
enum Stage {
    Adjusting(Adjustment),
    Confirming(Selection),
    Done,
}

/// A point-buy allocation: the user spends a pool of 27 points on the six
/// abilities, one ability at a time and in canonical order.
#[derive(Copy, Clone, Debug)]
pub struct PointBuy {
    scores: AbilityScores,
    pool: i8,
    index: usize,
    stage: Stage,
}

impl View for PointBuy {
    type V = PointBuyState;

    closed spec fn view(&self) -> PointBuyState {
        PointBuyState {
            scores: self.scores@,
            pool: self.pool as int,
            index: self.index as int,
            stage: match self.stage {
                Stage::Adjusting(a) => PointBuyStage::Adjusting(a@),
                Stage::Confirming(q) => PointBuyStage::Confirming(q@),
                Stage::Done => PointBuyStage::Done,
            },
        }
    }
}

impl PointBuy {
    #[verifier::type_invariant]
    spec fn inv(self) -> bool {
        self@.wf()
    }

    /// Begins an allocation over `scores` with the whole budget. The first
    /// ability has its turn.
    pub fn new(scores: AbilityScores) -> (p: PointBuy)
        ensures
            p@ == PointBuyState::start(scores@),
            p@.wf(),
    {
        let first = Adjustment::new(scores.get(AbilityName::at(0)), POINT_POOL);
        PointBuy { scores, pool: POINT_POOL, index: 0, stage: Stage::Adjusting(first) }
    }

    /// The scores entered so far.
    pub fn scores(&self) -> (scores: AbilityScores)
        ensures
            scores@ == self@.scores,
    {
        self.scores
    }

    /// The points that are left, not counting what the adjustment under way
    /// has used.
    pub fn pool(&self) -> (pool: i8)
        ensures
            pool == self@.pool,
            0 <= pool <= POINT_POOL,
    {
        proof {
            use_type_invariant(self);
        }
        self.pool
    }

    /// The points that the user sees as left.
    pub fn remaining(&self) -> (r: i8)
        ensures
            r == self@.remaining(),
            0 <= r <= POINT_POOL,
    {
        proof {
            use_type_invariant(self);
        }
        match self.stage {
            Stage::Adjusting(a) => a.remaining(),
            _ => self.pool,
        }
    }

    /// The ability whose score is on display, if one is.
    pub fn current(&self) -> (current: Option<(AbilityName, i8)>)
        ensures
            current == match self@.stage {
                PointBuyStage::Adjusting(a) => Some(
                    (AbilityName::canonical()[self@.index], a.value as i8),
                ),
                _ => None,
            },
            self@.wf(),
    {
        proof {
            use_type_invariant(self);
        }
        match self.stage {
            Stage::Adjusting(a) => Some((AbilityName::at(self.index), a.value())),
            _ => None,
        }
    }

    /// The highlighted option of the final question, if it is being asked:
    /// 0 for "Yes", 1 for "No".
    pub fn question(&self) -> (cursor: Option<usize>)
        ensures
            cursor == match self@.stage {
                PointBuyStage::Confirming(q) => Some(q.cursor as usize),
                _ => None,
            },
    {
        match self.stage {
            Stage::Confirming(q) => Some(q.cursor()),
            _ => None,
        }
    }

    /// Whether the allocation is final.
    pub fn is_done(&self) -> (done: bool)
        ensures
            done == (self@.stage is Done),
    {
        match self.stage {
            Stage::Done => true,
            _ => false,
        }
    }

    /// Draws the allocation.
    pub fn frame(&self) -> (frame: Frame)
        ensures
            frame@ == self@.frame(),
    {
        proof {
            use_type_invariant(self);
        }
        match self.stage {
            Stage::Adjusting(a) => {
                let mut lines: Vec<String> = Vec::new();
                let left = number_text(a.remaining() as i64);
                let name = AbilityName::at(self.index).to_string();
                let value = number_text(a.value() as i64);
                lines.push(String::from_str("Pool Remaining: ").concat(left.as_str()));
                lines.push(concat3("Adjust points for ", name.as_str(), ":"));
                lines.push(String::new());
                lines.push(value);
                proof {
                    assert(texts(lines@) =~= seq![
                        "Pool Remaining: "@ + decimal(a@.remaining()),
                        "Adjust points for "@ + AbilityName::canonical()[self@.index].label()
                            + ":"@,
                        Seq::<char>::empty(),
                        decimal(a@.value),
                    ]);
                }
                text_frame(lines, false)
            },
            Stage::Confirming(q) => {
                let mut prompt: Vec<String> = Vec::new();
                let left = number_text(self.pool as i64);
                prompt.push(
                    concat3(
                        "You have ",
                        left.as_str(),
                        " points remaining. Are you sure you want to proceed?",
                    ),
                );
                assert(texts(prompt@) =~= seq![
                    "You have "@ + decimal(self@.pool)
                        + " points remaining. Are you sure you want to proceed?"@,
                ]);
                menu_frame(prompt, yes_no(), q.cursor())
            },
            Stage::Done => {
                let lines: Vec<String> = Vec::new();
                assert(texts(lines@) =~= Seq::<Seq<char>>::empty());
                text_frame(lines, false)
            },
        }
    }

    /// Takes one event and says what the front end is to do next. The new
    /// state is [`PointBuyState::apply`] of the old one.
    pub fn handle(&mut self, event: Event) -> (outcome: Outcome)
        ensures
            final(self)@ == old(self)@.apply(event),
            final(self)@.wf(),
            outcome == old(self)@.outcome(event),
    {
        proof {
            use_type_invariant(&*self);
            lemma_point_buy_step(self@, event);
        }
        match self.stage {
            Stage::Adjusting(a) => {
                match event {
                    Event::Confirm => {
                        let mut scores = self.scores;
                        scores.set(AbilityName::at(self.index), a.value());
                        let pool = self.pool - a.used();
                        let index = self.index + 1;
                        if index < 6 {
                            let next = Adjustment::new(scores.get(AbilityName::at(index)), pool);
                            *self = PointBuy { scores, pool, index, stage: Stage::Adjusting(next) };
                            Outcome::Pending
                        } else if pool > 0 {
                            let q = Selection::new(2, CONFIRM_FIRST_ROW);
                            *self = PointBuy { scores, pool, index, stage: Stage::Confirming(q) };
                            Outcome::Pending
                        } else {
                            *self = PointBuy { scores, pool, index, stage: Stage::Done };
                            Outcome::Confirmed
                        }
                    },
                    _ => {
                        let mut a = a;
                        let outcome = a.handle(event);
                        *self = PointBuy {
                            scores: self.scores,
                            pool: self.pool,
                            index: self.index,
                            stage: Stage::Adjusting(a),
                        };
                        outcome
                    },
                }
            },
            Stage::Confirming(q) => {
                match event {
                    Event::Confirm => {
                        if q.cursor() == 0 {
                            *self = PointBuy {
                                scores: self.scores,
                                pool: self.pool,
                                index: self.index,
                                stage: Stage::Done,
                            };
                            Outcome::Confirmed
                        } else {
                            let first = Adjustment::new(
                                self.scores.get(AbilityName::at(0)),
                                self.pool,
                            );
                            *self = PointBuy {
                                scores: self.scores,
                                pool: self.pool,
                                index: 0,
                                stage: Stage::Adjusting(first),
                            };
                            Outcome::Pending
                        }
                    },
                    _ => {
                        let mut q = q;
                        let outcome = q.handle(event);
                        *self = PointBuy {
                            scores: self.scores,
                            pool: self.pool,
                            index: self.index,
                            stage: Stage::Confirming(q),
                        };
                        outcome
                    },
                }
            },
            Stage::Done => {
                match event {
                    Event::Cancel => Outcome::Cancelled,
                    _ => Outcome::Confirmed,
                }
            },
        }
    }
}

} // verus!
