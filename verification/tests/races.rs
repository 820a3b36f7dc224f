use character_wizard::character::{AbilityName, AbilityScores};
use character_wizard::races::{adjust_ability_score_for_race, AvailableRaces, Race};
use character_wizard::util::EnumIter;

#[test]
fn bonuses_of_each_race() {
    assert_eq!(
        AvailableRaces::Dragonborn.get_ability_score_increase(),
        vec![(AbilityName::Strength, 2), (AbilityName::Charisma, 1)]
    );
    assert_eq!(
        AvailableRaces::Dwarf.get_ability_score_increase(),
        vec![(AbilityName::Constitution, 2)]
    );
    assert_eq!(
        AvailableRaces::Elf.get_ability_score_increase(),
        vec![(AbilityName::Dexterity, 2)]
    );
    assert_eq!(
        AvailableRaces::Gnome.get_ability_score_increase(),
        vec![(AbilityName::Intelligence, 2)]
    );
    assert_eq!(
        AvailableRaces::HalfElf.get_ability_score_increase(),
        vec![
            (AbilityName::Charisma, 2),
            (AbilityName::ANY, 1),
            (AbilityName::ANY, 1),
        ]
    );
    assert_eq!(
        AvailableRaces::HalfOrc.get_ability_score_increase(),
        vec![(AbilityName::Strength, 2), (AbilityName::Constitution, 1)]
    );
    assert_eq!(
        AvailableRaces::Halfling.get_ability_score_increase(),
        vec![(AbilityName::Dexterity, 2)]
    );
    assert_eq!(
        AvailableRaces::Human.get_ability_score_increase(),
        vec![(AbilityName::ANY, 1), (AbilityName::ANY, 1)]
    );
    assert_eq!(
        AvailableRaces::Tiefling.get_ability_score_increase(),
        vec![(AbilityName::Intelligence, 1), (AbilityName::Charisma, 2)]
    );
}

#[test]
fn a_race_with_its_name_and_bonuses() {
    let race = Race::new(AvailableRaces::HalfOrc);
    assert_eq!(race.name, "Half-Orc");
    assert_eq!(
        race.ability_score_increases,
        vec![(AbilityName::Strength, 2), (AbilityName::Constitution, 1)]
    );
}

#[test]
fn a_race_by_its_name_in_any_case() {
    assert_eq!(AvailableRaces::from("Elf"), AvailableRaces::Elf);
    assert_eq!(AvailableRaces::from("elf"), AvailableRaces::Elf);
    assert_eq!(AvailableRaces::from("HALF-ELF"), AvailableRaces::HalfElf);
    assert_eq!(AvailableRaces::from("half-orc"), AvailableRaces::HalfOrc);
    assert_eq!(AvailableRaces::from("DragonBorn"), AvailableRaces::Dragonborn);
    assert_eq!(AvailableRaces::from("tiefling"), AvailableRaces::Tiefling);
    for race in AvailableRaces::iter() {
        let name = Race::new(race).name;
        assert_eq!(AvailableRaces::from(name.as_str()), race);
        assert_eq!(AvailableRaces::from(name.to_uppercase().as_str()), race);
    }
}

#[test]
fn an_unknown_name_gives_human() {
    assert_eq!(AvailableRaces::from("Orc"), AvailableRaces::Human);
    assert_eq!(AvailableRaces::from(""), AvailableRaces::Human);
    assert_eq!(AvailableRaces::from("HalfElf"), AvailableRaces::Human);
    assert_eq!(AvailableRaces::from(" elf"), AvailableRaces::Human);
}

#[test]
fn the_first_matching_name_wins() {
    let names: Vec<String> = vec!["a", "b", "c", "b", "e", "f", "g", "h", "i"]
        .into_iter()
        .map(String::from)
        .collect();
    assert_eq!(AvailableRaces::named(&"b".to_string(), &names), AvailableRaces::Dwarf);
    assert_eq!(AvailableRaces::named(&"i".to_string(), &names), AvailableRaces::Tiefling);
    assert_eq!(AvailableRaces::named(&"z".to_string(), &names), AvailableRaces::Human);
    assert_eq!(AvailableRaces::named(&"a".to_string(), &Vec::new()), AvailableRaces::Human);
    let short = vec!["x".to_string(), "y".to_string()];
    assert_eq!(AvailableRaces::named(&"y".to_string(), &short), AvailableRaces::Dwarf);
}

#[test]
fn race_bonuses_are_added_to_the_scores() {
    let mut scores = AbilityScores::uniform(10);
    adjust_ability_score_for_race(&mut scores, AvailableRaces::Dragonborn);
    assert_eq!(
        scores.get_sorted(),
        vec![
            (AbilityName::Strength, 12),
            (AbilityName::Dexterity, 10),
            (AbilityName::Constitution, 10),
            (AbilityName::Intelligence, 10),
            (AbilityName::Wisdom, 10),
            (AbilityName::Charisma, 11),
        ]
    );
    adjust_ability_score_for_race(&mut scores, AvailableRaces::Tiefling);
    assert_eq!(scores.get(AbilityName::Intelligence), 11);
    assert_eq!(scores.get(AbilityName::Charisma), 13);
}

#[test]
fn a_bonus_of_the_players_choice_is_left_open() {
    let mut scores = AbilityScores::uniform(10);
    adjust_ability_score_for_race(&mut scores, AvailableRaces::Human);
    assert_eq!(scores.get_sorted(), AbilityScores::uniform(10).get_sorted());
    adjust_ability_score_for_race(&mut scores, AvailableRaces::HalfElf);
    assert_eq!(scores.get(AbilityName::Charisma), 12);
    assert_eq!(scores.get(AbilityName::Strength), 10);
    assert_eq!(scores.get(AbilityName::Dexterity), 10);
    assert_eq!(scores.get(AbilityName::Constitution), 10);
    assert_eq!(scores.get(AbilityName::Intelligence), 10);
    assert_eq!(scores.get(AbilityName::Wisdom), 10);
}
