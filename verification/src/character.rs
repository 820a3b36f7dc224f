//! The character: the names of the abilities, the store that maps each of
//! them to a score, and the sheet. The rolled scores of a character come
//! from the dice and are offered here as well.

use vstd::prelude::*;
use vstd::string::*;
use crate::classes::AvailableClasses;
pub use crate::dice::{get_ability_score_rolls, roll_for_ability_score};
use crate::races::AvailableRaces;
use crate::text::{concat3, decimal, number_text, pad_right, padded};
use crate::util::{EnumIter, EnumString};

verus! {

/// The six abilities of a character, and `ANY`, which a race's bonus table
/// uses for a bonus whose target the player picks. `ANY` is never a key of an
/// [`AbilityScores`] store.
#[derive(Copy, Clone, Debug, PartialEq, Eq, Hash, Structural)]
pub enum AbilityName {
    Strength,
    Dexterity,
    Constitution,
    Intelligence,
    Wisdom,
    Charisma,
    ANY,
}

impl AbilityName {
    /// Whether this is one of the six abilities that carry a score.
    pub open spec fn is_canonical(self) -> bool {
        self != AbilityName::ANY
    }

    /// The place of the ability in the canonical order; `ANY` comes after
    /// the six.
    pub open spec fn position(self) -> int {
        match self {
            AbilityName::Strength => 0,
            AbilityName::Dexterity => 1,
            AbilityName::Constitution => 2,
            AbilityName::Intelligence => 3,
            AbilityName::Wisdom => 4,
            AbilityName::Charisma => 5,
            AbilityName::ANY => 6,
        }
    }

    /// The six abilities in canonical order.
    pub open spec fn canonical() -> Seq<AbilityName> {
        seq![
            AbilityName::Strength,
            AbilityName::Dexterity,
            AbilityName::Constitution,
            AbilityName::Intelligence,
            AbilityName::Wisdom,
            AbilityName::Charisma,
        ]
    }

    /// The ability at place `position` of the canonical order.
    pub fn at(position: usize) -> (name: AbilityName)
        requires
            position < 6,
        ensures
            name == AbilityName::canonical()[position as int],
            name.is_canonical(),
            name.position() == position,
    {
        if position == 0 {
            AbilityName::Strength
        } else if position == 1 {
            AbilityName::Dexterity
        } else if position == 2 {
            AbilityName::Constitution
        } else if position == 3 {
            AbilityName::Intelligence
        } else if position == 4 {
            AbilityName::Wisdom
        } else {
            AbilityName::Charisma
        }
    }

    /// Whether the ability is one of the six that carry a score.
    pub fn has_score(self) -> (b: bool)
        ensures
            b == self.is_canonical(),
    {
        self != AbilityName::ANY
    }
}

impl EnumString for AbilityName {
    open spec fn label(&self) -> Seq<char> {
        match *self {
            AbilityName::Strength => "Strength"@,
            AbilityName::Dexterity => "Dexterity"@,
            AbilityName::Constitution => "Constitution"@,
            AbilityName::Intelligence => "Intelligence"@,
            AbilityName::Wisdom => "Wisdom"@,
            AbilityName::Charisma => "Charisma"@,
            AbilityName::ANY => "A-N-Y"@,
        }
    }

    fn to_string(&self) -> (s: String)
        ensures
            s@ == self.label(),
    {
        match self {
            AbilityName::Strength => String::from_str("Strength"),
            AbilityName::Dexterity => String::from_str("Dexterity"),
            AbilityName::Constitution => String::from_str("Constitution"),
            AbilityName::Intelligence => String::from_str("Intelligence"),
            AbilityName::Wisdom => String::from_str("Wisdom"),
            AbilityName::Charisma => String::from_str("Charisma"),
            AbilityName::ANY => String::from_str("A-N-Y"),
        }
    }
}

impl EnumIter for AbilityName {
    /// The abilities a menu offers: the six canonical ones. `ANY` stands
    /// for a choice and is not offered.
    open spec fn variants() -> Seq<AbilityName> {
        AbilityName::canonical()
    }

    fn iter() -> (all: Vec<AbilityName>)
        ensures
            all@ == AbilityName::variants(),
    {
        vec![
            AbilityName::Strength,
            AbilityName::Dexterity,
            AbilityName::Constitution,
            AbilityName::Intelligence,
            AbilityName::Wisdom,
            AbilityName::Charisma,
        ]
    }
}

/// Whether a map of scores holds a score for each of the six canonical
/// abilities, and for nothing else.
pub open spec fn complete(scores: Map<AbilityName, int>) -> bool {
    forall|a: AbilityName| #[trigger] scores.dom().contains(a) <==> a.is_canonical()
}

/// The score every ability starts with.
pub const DEFAULT_SCORE: i8 = 8;

/// One score for each of the six abilities.
#[derive(Copy, Clone, Debug)]
pub struct AbilityScores {
    strength: i8,
    dexterity: i8,
    constitution: i8,
    intelligence: i8,
    wisdom: i8,
    charisma: i8,
}

impl View for AbilityScores {
    type V = Map<AbilityName, int>;

    /// The store as a map from the six canonical abilities to their scores.
    open spec fn view(&self) -> Map<AbilityName, int> {
        Map::new(|a: AbilityName| a.is_canonical(), |a: AbilityName| self.score(a))
    }
}

impl AbilityScores {
    /// The score that the store holds for `ability`.
    pub closed spec fn score(self, ability: AbilityName) -> int {
        match ability {
            AbilityName::Strength => self.strength as int,
            AbilityName::Dexterity => self.dexterity as int,
            AbilityName::Constitution => self.constitution as int,
            AbilityName::Intelligence => self.intelligence as int,
            AbilityName::Wisdom => self.wisdom as int,
            _ => self.charisma as int,
        }
    }

    /// A store that holds `score` for every ability.
    pub fn uniform(score: i8) -> (scores: AbilityScores)
        ensures
            scores@ == Map::new(|a: AbilityName| a.is_canonical(), |a: AbilityName| score as int),
    {
        AbilityScores {
            strength: score,
            dexterity: score,
            constitution: score,
            intelligence: score,
            wisdom: score,
            charisma: score,
        }
    }

    /// The score of `ability`.
    pub fn get(&self, ability: AbilityName) -> (score: i8)
        requires
            ability.is_canonical(),
        ensures
            score == self@[ability],
    {
        match ability {
            AbilityName::Strength => self.strength,
            AbilityName::Dexterity => self.dexterity,
            AbilityName::Constitution => self.constitution,
            AbilityName::Intelligence => self.intelligence,
            AbilityName::Wisdom => self.wisdom,
            _ => self.charisma,
        }
    }

    /// Overwrites the score of `ability` and leaves the others as they are.
    pub fn set(&mut self, ability: AbilityName, score: i8)
        requires
            ability.is_canonical(),
        ensures
            final(self)@ == old(self)@.insert(ability, score as int),
    {
        match ability {
            AbilityName::Strength => { self.strength = score; },
            AbilityName::Dexterity => { self.dexterity = score; },
            AbilityName::Constitution => { self.constitution = score; },
            AbilityName::Intelligence => { self.intelligence = score; },
            AbilityName::Wisdom => { self.wisdom = score; },
            _ => { self.charisma = score; },
        }
    }

    /// The scores with their abilities, in canonical order: Strength,
    /// Dexterity, Constitution, Intelligence, Wisdom, Charisma.
    pub fn get_sorted(&self) -> (sorted: Vec<(AbilityName, i8)>)
        ensures
            sorted@.len() == 6,
            forall|i: int|
                0 <= i < 6 ==> (#[trigger] sorted@[i]).0 == AbilityName::canonical()[i]
                    && sorted@[i].1 == self@[AbilityName::canonical()[i]],
    {
        vec![
            (AbilityName::Strength, self.get(AbilityName::Strength)),
            (AbilityName::Dexterity, self.get(AbilityName::Dexterity)),
            (AbilityName::Constitution, self.get(AbilityName::Constitution)),
            (AbilityName::Intelligence, self.get(AbilityName::Intelligence)),
            (AbilityName::Wisdom, self.get(AbilityName::Wisdom)),
            (AbilityName::Charisma, self.get(AbilityName::Charisma)),
        ]
    }

    /// The scores on one line: for each ability, in canonical order, its
    /// name, a colon, the score in a column of two characters, and three
    /// spaces.
    pub fn to_string(&self) -> (s: String)
        ensures
            s@ == score_cells(self@, 6),
    {
        let mut s = String::new();
        let mut i: usize = 0;
        assert(s@ =~= score_cells(self@, 0));
        while i < 6
            invariant
                0 <= i <= 6,
                s@ == score_cells(self@, i as int),
            decreases 6 - i,
        {
            let ability = AbilityName::at(i);
            let score = number_text(self.get(ability) as i64);
            let column = pad_right(score.as_str(), 2);
            let cell = concat3(ability.to_string().as_str(), ": ", column.as_str());
            s.append(cell.as_str());
            s.append("   ");
            i = i + 1;
        }
        s
    }
}

/// The first `count` cells of the line that shows a store of scores.
pub open spec fn score_cells(scores: Map<AbilityName, int>, count: int) -> Seq<char>
    decreases count,
{
    if count <= 0 {
        Seq::empty()
    } else {
        let ability = AbilityName::canonical()[count - 1];
        score_cells(scores, count - 1) + (ability.label() + ": "@ + padded(
            decimal(scores[ability]),
            2,
        )) + "   "@
    }
}

impl Default for AbilityScores {
    /// Every ability at the default score.
    fn default() -> (scores: AbilityScores)
        ensures
            scores@ == Map::new(
                |a: AbilityName| a.is_canonical(),
                |a: AbilityName| DEFAULT_SCORE as int,
            ),
    {
        AbilityScores::uniform(DEFAULT_SCORE)
    }
}

/// The modifier that a score gives: half of what the score is above 10,
/// rounded towards zero.
pub open spec fn modifier(score: int) -> int {
    if score >= 10 {
        (score - 10) / 2
    } else {
        -((10 - score) / 2)
    }
}

/// The modifier of an ability score.
pub fn get_modifier(score: i8) -> (m: i8)
    ensures
        m == modifier(score as int),
{
    let wide: i16 = score as i16;
    let half: i16 = if wide >= 10 {
        (wide - 10) / 2
    } else {
        -((10 - wide) / 2)
    };
    half as i8
}

/// The sheet of a character.
#[derive(Debug)]
pub struct CharacterSheet {
    /// The name of the character.
    pub name: String,
    /// The race of the character.
    pub race: AvailableRaces,
    /// The alignment of the character.
    pub alignment: Alignment,
    /// The class of the character.
    pub class: AvailableClasses,
    /// The level of the character.
    pub level: i8,
    /// The experience the character has gathered.
    pub experience_points: u32,
    /// The six ability scores.
    pub ability_scores: AbilityScores,
    /// Whether the ability scores were bought.
    pub point_buy: bool,
}

/// A sheet, as the mathematics sees it.
pub struct SheetView {
    pub name: Seq<char>,
    pub race: AvailableRaces,
    pub alignment: Alignment,
    pub class: AvailableClasses,
    pub level: int,
    pub experience_points: int,
    pub ability_scores: Map<AbilityName, int>,
    pub point_buy: bool,
}

impl View for CharacterSheet {
    type V = SheetView;

    open spec fn view(&self) -> SheetView {
        SheetView {
            name: self.name@,
            race: self.race,
            alignment: self.alignment,
            class: self.class,
            level: self.level as int,
            experience_points: self.experience_points as int,
            ability_scores: self.ability_scores@,
            point_buy: self.point_buy,
        }
    }
}

impl SheetView {
    /// A blank sheet: no name, a human barbarian of true neutral alignment
    /// at level 1 with no experience, and every ability at the default
    /// score.
    pub open spec fn blank() -> SheetView {
        SheetView {
            name: Seq::empty(),
            race: AvailableRaces::Human,
            alignment: Alignment::TrueNeutral,
            class: AvailableClasses::Barbarian,
            level: 1,
            experience_points: 0,
            ability_scores: Map::new(
                |a: AbilityName| a.is_canonical(),
                |a: AbilityName| DEFAULT_SCORE as int,
            ),
            point_buy: false,
        }
    }

    /// The fields as text, in the order in which a sheet shows them.
    pub open spec fn value_texts(self) -> Seq<Seq<char>> {
        seq![
            self.name,
            self.race.label(),
            self.alignment.label(),
            self.class.label(),
            decimal(self.level),
            decimal(self.experience_points),
            score_cells(self.ability_scores, 6),
            if self.point_buy {
                "true"@
            } else {
                "false"@
            },
        ]
    }
}

/// The number of fields that a sheet shows.
pub const FIELDS: usize = 8;

impl CharacterSheet {
    /// A blank sheet.
    pub fn new() -> (sheet: CharacterSheet)
        ensures
            sheet@ == SheetView::blank(),
    {
        CharacterSheet {
            name: String::new(),
            race: AvailableRaces::Human,
            alignment: Alignment::TrueNeutral,
            class: AvailableClasses::Barbarian,
            level: 1,
            experience_points: 0,
            ability_scores: AbilityScores::default(),
            point_buy: false,
        }
    }

    /// The names of the fields, in the order in which a sheet shows them.
    pub open spec fn key_names() -> Seq<Seq<char>> {
        seq![
            "name"@,
            "race"@,
            "alignment"@,
            "class"@,
            "level"@,
            "experience_points"@,
            "ability_scores"@,
            "point_buy"@,
        ]
    }

    /// The names of the fields, in the order in which a sheet shows them.
    pub fn keys() -> (keys: Vec<&'static str>)
        ensures
            keys@.len() == FIELDS,
            forall|i: int| 0 <= i < FIELDS ==> (#[trigger] keys@[i])@ == CharacterSheet::key_names()[i],
    {
        vec![
            "name",
            "race",
            "alignment",
            "class",
            "level",
            "experience_points",
            "ability_scores",
            "point_buy",
        ]
    }

    /// What a sheet writes in front of each field, in the order of the
    /// fields: the name of the field as a heading, and a colon.
    pub open spec fn label_texts() -> Seq<Seq<char>> {
        seq![
            "Name: "@,
            "Race: "@,
            "Alignment: "@,
            "Class: "@,
            "Level: "@,
            "Experience points: "@,
            "Ability scores: "@,
            "Point buy: "@,
        ]
    }

    /// What a sheet writes in front of each field.
    pub fn labels() -> (labels: Vec<&'static str>)
        ensures
            labels@.len() == FIELDS,
            forall|i: int|
                0 <= i < FIELDS ==> (#[trigger] labels@[i])@ == CharacterSheet::label_texts()[i],
    {
        vec![
            "Name: ",
            "Race: ",
            "Alignment: ",
            "Class: ",
            "Level: ",
            "Experience points: ",
            "Ability scores: ",
            "Point buy: ",
        ]
    }

    /// The fields as text, in the order in which a sheet shows them.
    pub fn values(&self) -> (values: Vec<String>)
        ensures
            values@.len() == FIELDS,
            forall|i: int| 0 <= i < FIELDS ==> (#[trigger] values@[i])@ == self@.value_texts()[i],
    {
        vec![
            self.name.clone(),
            self.race.to_string(),
            self.alignment.to_string(),
            self.class.to_string(),
            number_text(self.level as i64),
            number_text(self.experience_points as i64),
            self.ability_scores.to_string(),
            String::from_str(
                if self.point_buy {
                    "true"
                } else {
                    "false"
                },
            ),
        ]
    }
}

/// The alignment of a character.
#[derive(Copy, Clone, Debug, PartialEq, Eq, Structural)]
pub enum Alignment {
    LawfulGood,
    NeutralGood,
    ChaoticGood,
    LawfulNeutral,
    TrueNeutral,
    ChaoticNeutral,
    LawfulEvil,
    NeutralEvil,
    ChaoticEvil,
}

impl EnumString for Alignment {
    open spec fn label(&self) -> Seq<char> {
        match *self {
            Alignment::LawfulGood => "Lawful-Good"@,
            Alignment::NeutralGood => "Neutral-Good"@,
            Alignment::ChaoticGood => "Chaotic-Good"@,
            Alignment::LawfulNeutral => "Lawful-Neutral"@,
            Alignment::TrueNeutral => "True-Neutral"@,
            Alignment::ChaoticNeutral => "Chaotic-Neutral"@,
            Alignment::LawfulEvil => "Lawful-Evil"@,
            Alignment::NeutralEvil => "Neutral-Evil"@,
            Alignment::ChaoticEvil => "Chaotic-Evil"@,
        }
    }

    fn to_string(&self) -> (s: String)
        ensures
            s@ == self.label(),
    {
        match self {
            Alignment::LawfulGood => String::from_str("Lawful-Good"),
            Alignment::NeutralGood => String::from_str("Neutral-Good"),
            Alignment::ChaoticGood => String::from_str("Chaotic-Good"),
            Alignment::LawfulNeutral => String::from_str("Lawful-Neutral"),
            Alignment::TrueNeutral => String::from_str("True-Neutral"),
            Alignment::ChaoticNeutral => String::from_str("Chaotic-Neutral"),
            Alignment::LawfulEvil => String::from_str("Lawful-Evil"),
            Alignment::NeutralEvil => String::from_str("Neutral-Evil"),
            Alignment::ChaoticEvil => String::from_str("Chaotic-Evil"),
        }
    }
}

impl EnumIter for Alignment {
    open spec fn variants() -> Seq<Alignment> {
        seq![
            Alignment::LawfulGood,
            Alignment::NeutralGood,
            Alignment::ChaoticGood,
            Alignment::LawfulNeutral,
            Alignment::TrueNeutral,
            Alignment::ChaoticNeutral,
            Alignment::LawfulEvil,
            Alignment::NeutralEvil,
            Alignment::ChaoticEvil,
        ]
    }

    fn iter() -> (all: Vec<Alignment>)
        ensures
            all@ == Alignment::variants(),
    {
        vec![
            Alignment::LawfulGood,
            Alignment::NeutralGood,
            Alignment::ChaoticGood,
            Alignment::LawfulNeutral,
            Alignment::TrueNeutral,
            Alignment::ChaoticNeutral,
            Alignment::LawfulEvil,
            Alignment::NeutralEvil,
            Alignment::ChaoticEvil,
        ]
    }
}

} // verus!
