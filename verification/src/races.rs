//! The races a character can have, and what each adds to the ability
//! scores.

use vstd::prelude::*;
use vstd::string::*;
use crate::character::{complete, AbilityName, AbilityScores};
use crate::text::{lowercase, texts};
use crate::util::{EnumIter, EnumString};

verus! {

/// The race of a character.
#[derive(Copy, Clone, Debug, PartialEq, Eq, Structural)]
pub enum AvailableRaces {
    Dragonborn,
    Dwarf,
    Elf,
    Gnome,
    HalfElf,
    HalfOrc,
    Halfling,
    Human,
    Tiefling,
}

impl EnumString for AvailableRaces {
    open spec fn label(&self) -> Seq<char> {
        match *self {
            AvailableRaces::Dragonborn => "Dragonborn"@,
            AvailableRaces::Dwarf => "Dwarf"@,
            AvailableRaces::Elf => "Elf"@,
            AvailableRaces::Gnome => "Gnome"@,
            AvailableRaces::HalfElf => "Half-Elf"@,
            AvailableRaces::HalfOrc => "Half-Orc"@,
            AvailableRaces::Halfling => "Halfling"@,
            AvailableRaces::Human => "Human"@,
            AvailableRaces::Tiefling => "Tiefling"@,
        }
    }

    fn to_string(&self) -> (s: String)
        ensures
            s@ == self.label(),
    {
        match self {
            AvailableRaces::Dragonborn => String::from_str("Dragonborn"),
            AvailableRaces::Dwarf => String::from_str("Dwarf"),
            AvailableRaces::Elf => String::from_str("Elf"),
            AvailableRaces::Gnome => String::from_str("Gnome"),
            AvailableRaces::HalfElf => String::from_str("Half-Elf"),
            AvailableRaces::HalfOrc => String::from_str("Half-Orc"),
            AvailableRaces::Halfling => String::from_str("Halfling"),
            AvailableRaces::Human => String::from_str("Human"),
            AvailableRaces::Tiefling => String::from_str("Tiefling"),
        }
    }
}

impl EnumIter for AvailableRaces {
    open spec fn variants() -> Seq<AvailableRaces> {
        seq![
            AvailableRaces::Dragonborn,
            AvailableRaces::Dwarf,
            AvailableRaces::Elf,
            AvailableRaces::Gnome,
            AvailableRaces::HalfElf,
            AvailableRaces::HalfOrc,
            AvailableRaces::Halfling,
            AvailableRaces::Human,
            AvailableRaces::Tiefling,
        ]
    }

    fn iter() -> (all: Vec<AvailableRaces>)
        ensures
            all@ == AvailableRaces::variants(),
    {
        vec![
            AvailableRaces::Dragonborn,
            AvailableRaces::Dwarf,
            AvailableRaces::Elf,
            AvailableRaces::Gnome,
            AvailableRaces::HalfElf,
            AvailableRaces::HalfOrc,
            AvailableRaces::Halfling,
            AvailableRaces::Human,
            AvailableRaces::Tiefling,
        ]
    }
}

/// A race together with what it adds to the ability scores.
#[derive(Debug)]
pub struct Race {
    /// The name under which the wizard shows the race.
    pub name: String,
    /// The bonuses of the race: an ability and what is added to its score.
    pub ability_score_increases: Vec<(AbilityName, i8)>,
}

impl Race {
    /// The race with its name and its bonuses.
    pub fn new(race: AvailableRaces) -> (r: Race)
        ensures
            r.name@ == race.label(),
            r.ability_score_increases@ == race.bonuses(),
    {
        Race { name: race.to_string(), ability_score_increases: race.get_ability_score_increase() }
    }
}

impl AvailableRaces {
    /// The bonuses of the race, in the order in which they are applied. A
    /// bonus to `ANY` goes to an ability of the player's choice.
    pub open spec fn bonuses(self) -> Seq<(AbilityName, i8)> {
        match self {
            AvailableRaces::Dragonborn => seq![
                (AbilityName::Strength, 2i8),
                (AbilityName::Charisma, 1i8),
            ],
            AvailableRaces::Dwarf => seq![(AbilityName::Constitution, 2i8)],
            AvailableRaces::Elf => seq![(AbilityName::Dexterity, 2i8)],
            AvailableRaces::Gnome => seq![(AbilityName::Intelligence, 2i8)],
            AvailableRaces::HalfElf => seq![
                (AbilityName::Charisma, 2i8),
                (AbilityName::ANY, 1i8),
                (AbilityName::ANY, 1i8),
            ],
            AvailableRaces::HalfOrc => seq![
                (AbilityName::Strength, 2i8),
                (AbilityName::Constitution, 1i8),
            ],
            AvailableRaces::Halfling => seq![(AbilityName::Dexterity, 2i8)],
            AvailableRaces::Human => seq![(AbilityName::ANY, 1i8), (AbilityName::ANY, 1i8)],
            AvailableRaces::Tiefling => seq![
                (AbilityName::Intelligence, 1i8),
                (AbilityName::Charisma, 2i8),
            ],
        }
    }

    /// The bonuses of the race.
    pub fn get_ability_score_increase(&self) -> (bonuses: Vec<(AbilityName, i8)>)
        ensures
            bonuses@ == self.bonuses(),
    {
        match self {
            AvailableRaces::Dragonborn => vec![
                (AbilityName::Strength, 2),
                (AbilityName::Charisma, 1),
            ],
            AvailableRaces::Dwarf => vec![(AbilityName::Constitution, 2)],
            AvailableRaces::Elf => vec![(AbilityName::Dexterity, 2)],
            AvailableRaces::Gnome => vec![(AbilityName::Intelligence, 2)],
            AvailableRaces::HalfElf => vec![
                (AbilityName::Charisma, 2),
                (AbilityName::ANY, 1),
                (AbilityName::ANY, 1),
            ],
            AvailableRaces::HalfOrc => vec![
                (AbilityName::Strength, 2),
                (AbilityName::Constitution, 1),
            ],
            AvailableRaces::Halfling => vec![(AbilityName::Dexterity, 2)],
            AvailableRaces::Human => vec![(AbilityName::ANY, 1), (AbilityName::ANY, 1)],
            AvailableRaces::Tiefling => vec![
                (AbilityName::Intelligence, 1),
                (AbilityName::Charisma, 2),
            ],
        }
    }

    /// The first race, from place `from` of the list on, whose entry in
    /// `names` is `name`; `Human` if there is none.
    pub open spec fn first_named(name: Seq<char>, names: Seq<Seq<char>>, from: int) -> AvailableRaces
        decreases names.len() - from,
    {
        if from < 0 || from >= names.len() || from >= AvailableRaces::variants().len() {
            AvailableRaces::Human
        } else if names[from] == name {
            AvailableRaces::variants()[from]
        } else {
            AvailableRaces::first_named(name, names, from + 1)
        }
    }

    /// The names of the races in lowercase, in the order of the list.
    pub open spec fn lowercase_names() -> Seq<Seq<char>> {
        Seq::new(
            AvailableRaces::variants().len(),
            |i: int| lowercase(AvailableRaces::variants()[i].label()),
        )
    }

    /// The first race of the list whose entry in `names` is `name`; `Human`
    /// if there is none. `names` holds one name for each race, in the order
    /// of the list.
    pub fn named(name: &String, names: &Vec<String>) -> (race: AvailableRaces)
        ensures
            race == AvailableRaces::first_named(name@, texts(names@), 0),
    {
        let races = AvailableRaces::iter();
        let mut i: usize = 0;
        while i < names.len() && i < races.len()
            invariant
                0 <= i <= names.len(),
                races@ == AvailableRaces::variants(),
                AvailableRaces::first_named(name@, texts(names@), 0) == AvailableRaces::first_named(
                    name@,
                    texts(names@),
                    i as int,
                ),
            decreases names.len() - i,
        {
            if names[i] == *name {
                return races[i];
            }
            i = i + 1;
        }
        AvailableRaces::Human
    }

    /// The race that `text` names, whatever the case of its letters: the
    /// first race whose name in lowercase is `text` in lowercase. A text
    /// that names no race gives `Human`.
    pub fn from(text: &str) -> (race: AvailableRaces)
        ensures
            race == AvailableRaces::first_named(
                lowercase(text@),
                AvailableRaces::lowercase_names(),
                0,
            ),
    {
        let races = AvailableRaces::iter();
        let mut names: Vec<String> = Vec::new();
        let mut i: usize = 0;
        while i < races.len()
            invariant
                0 <= i <= races.len(),
                races@ == AvailableRaces::variants(),
                names@.len() == i,
                forall|j: int|
                    0 <= j < i ==> names@[j]@ == lowercase(AvailableRaces::variants()[j].label()),
            decreases races.len() - i,
        {
            names.push(races[i].to_string().as_str().to_lowercase());
            i = i + 1;
        }
        assert(texts(names@) =~= AvailableRaces::lowercase_names());
        let lowered = text.to_lowercase();
        AvailableRaces::named(&lowered, &names)
    }
}

/// The scores after the first `count` of the bonuses are applied, in order:
/// a bonus adds to the score of its ability. A bonus to `ANY` waits for the
/// player to pick an ability and changes nothing.
pub open spec fn adjusted(
    scores: Map<AbilityName, int>,
    bonuses: Seq<(AbilityName, i8)>,
    count: int,
) -> Map<AbilityName, int>
    decreases count,
{
    if count <= 0 {
        scores
    } else {
        let before = adjusted(scores, bonuses, count - 1);
        let (ability, bonus) = bonuses[count - 1];
        if ability.is_canonical() {
            before.insert(ability, before[ability] + bonus)
        } else {
            before
        }
    }
}

/// Whether every score on the way to `adjusted(scores, bonuses, count)` is
/// one that a store can hold.
pub open spec fn adjustable(
    scores: Map<AbilityName, int>,
    bonuses: Seq<(AbilityName, i8)>,
    count: int,
) -> bool {
    forall|n: int, a: AbilityName|
        0 <= n <= count && a.is_canonical() ==> i8::MIN <= #[trigger] adjusted(
            scores,
            bonuses,
            n,
        )[a] <= i8::MAX
}

/// The bonuses of a race raise no score by more than two points each, and
/// lower none.
pub proof fn lemma_adjusted_bounds(
    scores: Map<AbilityName, int>,
    race: AvailableRaces,
    count: int,
    ability: AbilityName,
)
    requires
        0 <= count <= race.bonuses().len(),
        ability.is_canonical(),
        complete(scores),
    ensures
        adjusted(scores, race.bonuses(), count).dom().contains(ability),
        scores[ability] <= adjusted(scores, race.bonuses(), count)[ability] <= scores[ability] + 2
            * count,
    decreases count,
{
    if count > 0 {
        lemma_adjusted_bounds(scores, race, count - 1, ability);
        let (target, bonus) = race.bonuses()[count - 1];
        assert(0 <= bonus <= 2);
        if target.is_canonical() {
            lemma_adjusted_bounds(scores, race, count - 1, target);
        }
    }
}

/// The bonuses of any race can be added to scores that leave six points of
/// room in the type that holds them.
pub proof fn lemma_scores_with_room_are_adjustable(
    scores: Map<AbilityName, int>,
    race: AvailableRaces,
)
    requires
        complete(scores),
        forall|a: AbilityName|
            a.is_canonical() ==> i8::MIN <= #[trigger] scores[a] <= i8::MAX - 6,
    ensures
        adjustable(scores, race.bonuses(), race.bonuses().len() as int),
{
    assert forall|n: int, a: AbilityName|
        0 <= n <= race.bonuses().len() && a.is_canonical() implies i8::MIN <= #[trigger] adjusted(
        scores,
        race.bonuses(),
        n,
    )[a] <= i8::MAX by {
        lemma_adjusted_bounds(scores, race, n, a);
        assert(race.bonuses().len() <= 3);
    }
}

/// Adds the bonuses of `race` to `scores`. A bonus to `ANY` is left for the
/// player to place.
pub fn adjust_ability_score_for_race(scores: &mut AbilityScores, race: AvailableRaces)
    requires
        adjustable(old(scores)@, race.bonuses(), race.bonuses().len() as int),
    ensures
        final(scores)@ == adjusted(old(scores)@, race.bonuses(), race.bonuses().len() as int),
{
    let bonuses = race.get_ability_score_increase();
    let mut i: usize = 0;
    while i < bonuses.len()
        invariant
            0 <= i <= bonuses.len(),
            bonuses@ == race.bonuses(),
            adjustable(old(scores)@, bonuses@, bonuses@.len() as int),
            scores@ == adjusted(old(scores)@, bonuses@, i as int),
        decreases bonuses.len() - i,
    {
        let (ability, bonus) = bonuses[i];
        if ability.has_score() {
            let ghost after = adjusted(old(scores)@, bonuses@, i + 1);
            assert(i8::MIN <= after[ability] <= i8::MAX);
            let score = scores.get(ability);
            scores.set(ability, score + bonus);
        }
        i = i + 1;
    }
}

} // verus!
