//! The classes a character can have.

use vstd::prelude::*;
use vstd::string::*;
use crate::util::{EnumIter, EnumString};

verus! {

/// The class of a character.
#[derive(Copy, Clone, Debug, PartialEq, Eq, Structural)]
pub enum AvailableClasses {
    Barbarian,
    Bard,
    Cleric,
    Druid,
    Fighter,
    Monk,
    Paladin,
    Ranger,
    Rogue,
    Sorcerer,
    Warlock,
    Wizard,
}

impl EnumString for AvailableClasses {
    open spec fn label(&self) -> Seq<char> {
        match *self {
            AvailableClasses::Barbarian => "Barbarian"@,
            AvailableClasses::Bard => "Bard"@,
            AvailableClasses::Cleric => "Cleric"@,
            AvailableClasses::Druid => "Druid"@,
            AvailableClasses::Fighter => "Fighter"@,
            AvailableClasses::Monk => "Monk"@,
            AvailableClasses::Paladin => "Paladin"@,
            AvailableClasses::Ranger => "Ranger"@,
            AvailableClasses::Rogue => "Rogue"@,
            AvailableClasses::Sorcerer => "Sorcerer"@,
            AvailableClasses::Warlock => "Warlock"@,
            AvailableClasses::Wizard => "Wizard"@,
        }
    }

    fn to_string(&self) -> (s: String)
        ensures
            s@ == self.label(),
    {
        match self {
            AvailableClasses::Barbarian => String::from_str("Barbarian"),
            AvailableClasses::Bard => String::from_str("Bard"),
            AvailableClasses::Cleric => String::from_str("Cleric"),
            AvailableClasses::Druid => String::from_str("Druid"),
            AvailableClasses::Fighter => String::from_str("Fighter"),
            AvailableClasses::Monk => String::from_str("Monk"),
            AvailableClasses::Paladin => String::from_str("Paladin"),
            AvailableClasses::Ranger => String::from_str("Ranger"),
            AvailableClasses::Rogue => String::from_str("Rogue"),
            AvailableClasses::Sorcerer => String::from_str("Sorcerer"),
            AvailableClasses::Warlock => String::from_str("Warlock"),
            AvailableClasses::Wizard => String::from_str("Wizard"),
        }
    }
}

impl EnumIter for AvailableClasses {
    open spec fn variants() -> Seq<AvailableClasses> {
        seq![
            AvailableClasses::Barbarian,
            AvailableClasses::Bard,
            AvailableClasses::Cleric,
            AvailableClasses::Druid,
            AvailableClasses::Fighter,
            AvailableClasses::Monk,
            AvailableClasses::Paladin,
            AvailableClasses::Ranger,
            AvailableClasses::Rogue,
            AvailableClasses::Sorcerer,
            AvailableClasses::Warlock,
            AvailableClasses::Wizard,
        ]
    }

    fn iter() -> (all: Vec<AvailableClasses>)
        ensures
            all@ == AvailableClasses::variants(),
    {
        vec![
            AvailableClasses::Barbarian,
            AvailableClasses::Bard,
            AvailableClasses::Cleric,
            AvailableClasses::Druid,
            AvailableClasses::Fighter,
            AvailableClasses::Monk,
            AvailableClasses::Paladin,
            AvailableClasses::Ranger,
            AvailableClasses::Rogue,
            AvailableClasses::Sorcerer,
            AvailableClasses::Warlock,
            AvailableClasses::Wizard,
        ]
    }
}

} // verus!
