//! Dice, and the six rolled scores of a character.

use vstd::prelude::*;
use vstd::seq_lib::{to_multiset_build, to_multiset_insert};
use rand::Rng;

verus! {

/// A die, named by the number of its faces.
#[derive(Copy, Clone, Debug, PartialEq, Eq, Structural)]
pub enum Dice {
    D4,
    D6,
    D8,
    D10,
    D12,
    D20,
    D100,
}

/// The number of dice rolled for one ability score.
pub const DICE_PER_SCORE: usize = 4;

/// The lowest score that rolling can give: three ones.
pub const MIN_ROLLED: i8 = 3;

/// The highest score that rolling can give: three sixes.
pub const MAX_ROLLED: i8 = 18;

/// One face of a die with `sides` faces, drawn at random from the thread's
/// generator by `rand::Rng::gen_range` over `1..=sides`. Whatever is drawn
/// lies in that range. The call does not return if the operating system has
/// no entropy to seed the generator with.
#[verifier::external_body]
fn random_face(sides: i8) -> (face: i8)
    requires
        sides >= 1,
    ensures
        1 <= face <= sides,
{
    rand::thread_rng().gen_range(1..=sides)
}

impl Dice {
    /// The number of faces.
    pub open spec fn faces(self) -> int {
        match self {
            Dice::D4 => 4,
            Dice::D6 => 6,
            Dice::D8 => 8,
            Dice::D10 => 10,
            Dice::D12 => 12,
            Dice::D20 => 20,
            Dice::D100 => 100,
        }
    }

    /// The number of faces.
    pub fn sides(self) -> (sides: i8)
        ensures
            sides == self.faces(),
    {
        match self {
            Dice::D4 => 4,
            Dice::D6 => 6,
            Dice::D8 => 8,
            Dice::D10 => 10,
            Dice::D12 => 12,
            Dice::D20 => 20,
            Dice::D100 => 100,
        }
    }

    /// Rolls the die `num` times and returns the total. Each roll shows a
    /// face between 1 and the number of faces, so the total lies between
    /// `num` and `num` times the number of faces; with nothing to roll the
    /// total is zero.
    pub fn roll(self, num: i8) -> (total: i8)
        requires
            num * self.faces() <= i8::MAX,
        ensures
            num <= 0 ==> total == 0,
            num > 0 ==> num <= total <= num * self.faces(),
    {
        let sides = self.sides();
        let mut total: i8 = 0;
        let mut rolled: i8 = 0;
        while rolled < num
            invariant
                sides == self.faces(),
                num * self.faces() <= i8::MAX,
                0 <= rolled,
                num <= 0 ==> rolled == 0,
                num > 0 ==> rolled <= num,
                rolled == 0 ==> total == 0,
                rolled <= total <= rolled * sides,
            decreases num - rolled,
        {
            let face = random_face(sides);
            assert((rolled + 1) * sides <= num * sides) by (nonlinear_arith)
                requires
                    rolled + 1 <= num,
                    sides >= 1,
            ;
            assert((rolled + 1) * sides == rolled * sides + sides) by (nonlinear_arith);
            total = total + face;
            rolled = rolled + 1;
        }
        total
    }
}

/// The lowest of four dice.
pub open spec fn lowest(dice: Seq<i8>) -> int {
    let a = if dice[0] <= dice[1] {
        dice[0]
    } else {
        dice[1]
    };
    let b = if dice[2] <= dice[3] {
        dice[2]
    } else {
        dice[3]
    };
    if a <= b {
        a as int
    } else {
        b as int
    }
}

/// The total of four dice without the lowest of them.
pub open spec fn best_three(dice: Seq<i8>) -> int {
    dice[0] + dice[1] + dice[2] + dice[3] - lowest(dice)
}

/// Whether every one of the dice shows a face of a six-sided die.
pub open spec fn six_sided(dice: Seq<i8>) -> bool {
    forall|i: int| 0 <= i < dice.len() ==> 1 <= #[trigger] dice[i] <= 6
}

/// The score that four six-sided dice give: the lowest die is dropped and
/// the other three are added up.
pub fn drop_lowest(dice: [i8; 4]) -> (score: i8)
    requires
        six_sided(dice@),
    ensures
        score == best_three(dice@),
        MIN_ROLLED <= score <= MAX_ROLLED,
{
    let mut low = dice[0];
    let mut total = dice[0];
    let mut i: usize = 1;
    while i < 4
        invariant
            1 <= i <= 4,
            six_sided(dice@),
            1 <= low <= 6,
            forall|j: int| 0 <= j < i ==> low <= dice@[j],
            exists|j: int| 0 <= j < i && low == dice@[j],
            i == 1 ==> total == dice@[0],
            i == 2 ==> total == dice@[0] + dice@[1],
            i == 3 ==> total == dice@[0] + dice@[1] + dice@[2],
            i == 4 ==> total == dice@[0] + dice@[1] + dice@[2] + dice@[3],
        decreases 4 - i,
    {
        if dice[i] < low {
            low = dice[i];
        }
        total = total + dice[i];
        i = i + 1;
    }
    total - low
}

/// Rolls one ability score: four six-sided dice, of which the lowest is
/// dropped.
pub fn roll_for_ability_score() -> (score: i8)
    ensures
        MIN_ROLLED <= score <= MAX_ROLLED,
{
    let d6 = Dice::D6;
    let first = d6.roll(1);
    let second = d6.roll(1);
    let third = d6.roll(1);
    let fourth = d6.roll(1);
    drop_lowest([first, second, third, fourth])
}

/// Whether the rolls are in ascending order.
pub open spec fn ascending(rolls: Seq<i8>) -> bool {
    forall|i: int, j: int| 0 <= i <= j < rolls.len() ==> rolls[i] <= rolls[j]
}

/// Sorts rolls from the lowest to the highest. The result holds the very
/// rolls that were given, each as often as it was given.
pub fn sort_rolls(rolls: &Vec<i8>) -> (sorted: Vec<i8>)
    ensures
        ascending(sorted@),
        sorted@.to_multiset() == rolls@.to_multiset(),
        sorted@.len() == rolls@.len(),
{
    let mut sorted: Vec<i8> = Vec::new();
    let mut i: usize = 0;
    assert(rolls@.subrange(0, 0) =~= sorted@);
    while i < rolls.len()
        invariant
            0 <= i <= rolls.len(),
            sorted@.len() == i,
            ascending(sorted@),
            sorted@.to_multiset() == rolls@.subrange(0, i as int).to_multiset(),
        decreases rolls.len() - i,
    {
        let roll = rolls[i];
        let mut at: usize = 0;
        while at < sorted.len() && sorted[at] <= roll
            invariant
                0 <= at <= sorted.len(),
                forall|j: int| 0 <= j < at ==> sorted@[j] <= roll,
            decreases sorted.len() - at,
        {
            at = at + 1;
        }
        proof {
            to_multiset_insert(sorted@, at as int, roll);
            to_multiset_build(rolls@.subrange(0, i as int), roll);
            assert(rolls@.subrange(0, i + 1) =~= rolls@.subrange(0, i as int).push(roll));
        }
        sorted.insert(at, roll);
        i = i + 1;
    }
    assert(rolls@.subrange(0, i as int) =~= rolls@);
    sorted
}

/// Whether every one of the rolls is a score that four dice can give.
pub open spec fn rolled_scores(rolls: Seq<i8>) -> bool {
    forall|i: int| 0 <= i < rolls.len() ==> MIN_ROLLED <= #[trigger] rolls[i] <= MAX_ROLLED
}

/// Rolls the six ability scores of a character and returns them in
/// ascending order. Each is between 3 and 18.
pub fn get_ability_score_rolls() -> (rolls: Vec<i8>)
    ensures
        rolls@.len() == 6,
        rolled_scores(rolls@),
        ascending(rolls@),
{
    let mut rolls: Vec<i8> = Vec::new();
    let mut i: usize = 0;
    while i < 6
        invariant
            0 <= i <= 6,
            rolls@.len() == i,
            rolled_scores(rolls@),
        decreases 6 - i,
    {
        rolls.push(roll_for_ability_score());
        i = i + 1;
    }
    let sorted = sort_rolls(&rolls);
    proof {
        lemma_sorting_keeps_range(rolls@, sorted@);
    }
    sorted
}

/// Rolls that hold the same values as rolled scores are rolled scores.
pub proof fn lemma_sorting_keeps_range(rolls: Seq<i8>, sorted: Seq<i8>)
    requires
        rolled_scores(rolls),
        sorted.to_multiset() == rolls.to_multiset(),
    ensures
        rolled_scores(sorted),
{
    broadcast use vstd::seq_lib::group_to_multiset_ensures;

    assert forall|i: int| 0 <= i < sorted.len() implies MIN_ROLLED <= #[trigger] sorted[i]
        <= MAX_ROLLED by {
        assert(sorted.contains(sorted[i]));
        assert(sorted.to_multiset().count(sorted[i]) > 0);
        assert(rolls.contains(sorted[i]));
    }
}

} // verus!
