//! The adjustment of one score against a pool of points: the arrow keys move
//! the score between a floor and a ceiling, and every step up is paid for.

use vstd::prelude::*;
use crate::input::{Event, Outcome};

verus! {

/// The lowest score point-buy allows.
pub const MIN_SCORE: i8 = 8;

/// The highest score point-buy allows.
pub const MAX_SCORE: i8 = 15;

/// The last score that costs a single point to reach.
pub const COST_THRESHOLD: i8 = 13;

/// The points a character starts with.
pub const POINT_POOL: i8 = 27;

/// The points it takes to raise a score by one so that it becomes `score`;
/// lowering a score that is `score` by one gives the same number back.
pub open spec fn step_cost(score: int) -> int {
    if score <= COST_THRESHOLD {
        1
    } else {
        2
    }
}

/// The points it takes to raise a score from the floor to `score`.
pub open spec fn cost_from_floor(score: int) -> int {
    if score <= COST_THRESHOLD {
        score - MIN_SCORE
    } else {
        (score - MIN_SCORE) + (score - COST_THRESHOLD)
    }
}

/// The adjustment of one score, as the mathematics sees it.
pub struct AdjustState {
    /// The score as it is displayed.
    pub value: int,
    /// The points that were left when the adjustment began.
    pub pool: int,
    /// The points this adjustment has used so far.
    pub used: int,
}

impl AdjustState {
    /// The adjustment has used no more than the pool held, and the pool is
    /// no larger than a character's whole budget.
    pub open spec fn wf(self) -> bool {
        0 <= self.used <= self.pool <= POINT_POOL
    }

    /// Whether the displayed score lies between the floor and the ceiling.
    pub open spec fn in_range(self) -> bool {
        MIN_SCORE <= self.value <= MAX_SCORE
    }

    /// The points that are left to spend.
    pub open spec fn remaining(self) -> int {
        self.pool - self.used
    }

    /// One step up. At the ceiling, or when what is left of the pool cannot
    /// pay for the step, nothing changes.
    pub open spec fn raise(self) -> AdjustState {
        let cost = step_cost(self.value + 1);
        if self.value >= MAX_SCORE || self.remaining() < cost {
            self
        } else {
            AdjustState { value: self.value + 1, pool: self.pool, used: self.used + cost }
        }
    }

    /// One step down. At the floor nothing changes; otherwise the step's
    /// points come back, but never more than this adjustment has used.
    pub open spec fn lower(self) -> AdjustState {
        let refund = step_cost(self.value);
        if self.value <= MIN_SCORE {
            self
        } else {
            AdjustState {
                value: self.value - 1,
                pool: self.pool,
                used: if self.used >= refund {
                    self.used - refund
                } else {
                    0
                },
            }
        }
    }

    /// The state after one event. Only `Up` and `Down` change anything.
    pub open spec fn apply(self, event: Event) -> AdjustState {
        match event {
            Event::Up => self.raise(),
            Event::Down => self.lower(),
            _ => self,
        }
    }

    /// The state after a sequence of events, taken in order.
    pub open spec fn run(self, events: Seq<Event>) -> AdjustState
        decreases events.len(),
    {
        if events.len() == 0 {
            self
        } else {
            self.run(events.drop_last()).apply(events.last())
        }
    }
}

/// One event keeps an adjustment well formed and leaves the pool as it was
/// when the adjustment began; a displayed score between the floor and the
/// ceiling stays there.
pub proof fn lemma_adjustment_step(s: AdjustState, event: Event)
    requires
        s.wf(),
    ensures
        s.apply(event).wf(),
        s.apply(event).pool == s.pool,
        s.in_range() ==> s.apply(event).in_range(),
{
}

/// Whatever the events are, the displayed score stays between the floor and
/// the ceiling, and what is left of the pool stays between nothing and the
/// whole budget.
pub proof fn lemma_adjustment_stays_in_bounds(s: AdjustState, events: Seq<Event>)
    requires
        s.wf(),
        s.in_range(),
    ensures
        s.run(events).wf(),
        s.run(events).in_range(),
        s.run(events).pool == s.pool,
        0 <= s.run(events).remaining() <= POINT_POOL,
    decreases events.len(),
{
    if events.len() > 0 {
        lemma_adjustment_stays_in_bounds(s, events.drop_last());
    }
}

/// The cost law. A step that arrives at 14 or 15 costs two points and a step
/// that arrives at 13 or less costs one, so from 8 to 13 is five points; a
/// step down gives back what the step up took, so from 15 to 13 is four
/// points back.
pub proof fn lemma_cost_law(s: AdjustState)
    ensures
        s.value == 13 && s.remaining() >= 2 ==> s.raise().value == 14 && s.raise().used == s.used
            + 2,
        s.value == 8 && s.remaining() >= 5 ==> ({
            let t = s.raise().raise().raise().raise().raise();
            t.value == 13 && t.used == s.used + 5
        }),
        s.value == 15 && s.used >= 4 ==> ({
            let t = s.lower().lower();
            t.value == 13 && t.used == s.used - 4
        }),
        cost_from_floor(13) == 5,
        cost_from_floor(14) - cost_from_floor(13) == 2,
        cost_from_floor(15) - cost_from_floor(13) == 4,
{
}

/// The cost of a score does not depend on the path to it. An adjustment that
/// has used exactly what its score costs from the floor, as one that begins
/// at the floor has, still has after any sequence of events: moving a score
/// up and down leaves no drift.
pub proof fn lemma_cost_is_path_independent(s: AdjustState, events: Seq<Event>)
    requires
        s.in_range(),
        s.used == cost_from_floor(s.value),
    ensures
        s.run(events).in_range(),
        s.run(events).used == cost_from_floor(s.run(events).value),
    decreases events.len(),
{
    if events.len() > 0 {
        lemma_cost_is_path_independent(s, events.drop_last());
    }
}

/// The lowest score that was on display from the beginning of an adjustment
/// to the end of `events`.
pub open spec fn lowest(s: AdjustState, events: Seq<Event>) -> int
    decreases events.len(),
{
    if events.len() == 0 {
        s.value
    } else {
        let before = lowest(s, events.drop_last());
        let value = s.run(events).value;
        if value < before {
            value
        } else {
            before
        }
    }
}

/// What a fresh adjustment has used depends on two scores alone: the one on
/// display and the lowest one that was on display. It is the cost of the
/// way up from the lowest to the one on display, whatever the keys were;
/// what a score is lowered below where it began gives nothing back.
pub proof fn lemma_cost_depends_on_the_lowest_score(s: AdjustState, events: Seq<Event>)
    requires
        s.in_range(),
        s.used == 0,
    ensures
        MIN_SCORE <= lowest(s, events) <= s.run(events).value <= MAX_SCORE,
        lowest(s, events) <= s.value,
        s.run(events).used == cost_from_floor(s.run(events).value) - cost_from_floor(
            lowest(s, events),
        ),
    decreases events.len(),
{
    if events.len() > 0 {
        lemma_cost_depends_on_the_lowest_score(s, events.drop_last());
    }
}

/// The interactive adjustment of one score against the pool.
#[derive(Copy, Clone, Debug)]
pub struct Adjustment {
    value: i8,
    pool: i8,
    used: i8,
}

impl View for Adjustment {
    type V = AdjustState;

    closed spec fn view(&self) -> AdjustState {
        AdjustState { value: self.value as int, pool: self.pool as int, used: self.used as int }
    }
}

impl Adjustment {
    #[verifier::type_invariant]
    spec fn inv(self) -> bool {
        0 <= self.used && (self.used <= self.pool || self.used == 0)
    }

    /// Begins to adjust a score of `value` with `pool` points left.
    pub fn new(value: i8, pool: i8) -> (a: Adjustment)
        ensures
            a@ == (AdjustState { value: value as int, pool: pool as int, used: 0 }),
    {
        Adjustment { value, pool, used: 0 }
    }

    /// The score as it is displayed.
    pub fn value(&self) -> (v: i8)
        ensures
            v == self@.value,
    {
        self.value
    }

    /// The points this adjustment has used so far.
    pub fn used(&self) -> (u: i8)
        ensures
            u == self@.used,
    {
        self.used
    }

    /// The points that are left to spend.
    pub fn remaining(&self) -> (r: i8)
        ensures
            r == self@.remaining(),
    {
        proof {
            use_type_invariant(self);
        }
        if self.pool >= 0 {
            self.pool - self.used
        } else {
            self.pool
        }
    }

    /// Takes one event. `Up` and `Down` move the score as [`AdjustState::raise`]
    /// and [`AdjustState::lower`] say; `Confirm` and `Cancel` end the
    /// adjustment and change nothing; every other event is ignored.
    pub fn handle(&mut self, event: Event) -> (outcome: Outcome)
        ensures
            final(self)@ == old(self)@.apply(event),
            outcome == Outcome::of(event),
    {
        proof {
            use_type_invariant(&*self);
        }
        match event {
            Event::Up => {
                let cost: i8 = if self.value < COST_THRESHOLD {
                    1
                } else {
                    2
                };
                if self.value < MAX_SCORE && self.pool >= 0 && self.pool - self.used >= cost {
                    self.value = self.value + 1;
                    self.used = self.used + cost;
                }
                Outcome::Pending
            },
            Event::Down => {
                if self.value > MIN_SCORE {
                    let refund: i8 = if self.value <= COST_THRESHOLD {
                        1
                    } else {
                        2
                    };
                    self.value = self.value - 1;
                    self.used = if self.used >= refund {
                        self.used - refund
                    } else {
                        0
                    };
                }
                Outcome::Pending
            },
            Event::Confirm => Outcome::Confirmed,
            Event::Cancel => Outcome::Cancelled,
            _ => Outcome::Pending,
        }
    }
}

} // verus!
