use character_wizard::character::{AbilityName, Alignment, CharacterSheet};
use character_wizard::classes::AvailableClasses;
use character_wizard::controller::{App, Page};
use character_wizard::input::{Event, Outcome};
use character_wizard::races::AvailableRaces;
use character_wizard::sheet::summary_frame;
use character_wizard::util::EnumIter;

fn feed(app: &mut App, event: Event, times: usize) {
    for _ in 0..times {
        assert_eq!(app.handle(event), Outcome::Pending);
    }
}

fn type_text(app: &mut App, text: &str) {
    for c in text.chars() {
        assert_eq!(app.handle(Event::Printable(c)), Outcome::Pending);
    }
}

fn through_class(app: &mut App) {
    type_text(app, "  Mira ");
    feed(app, Event::Confirm, 1);
    feed(app, Event::Down, 2);
    feed(app, Event::Confirm, 1);
    feed(app, Event::Down, 4);
    feed(app, Event::Confirm, 1);
    feed(app, Event::Down, 1);
    feed(app, Event::Confirm, 1);
}

#[test]
fn the_pages_in_order() {
    assert_eq!(
        Page::iter(),
        vec![
            Page::Name,
            Page::Race,
            Page::Class,
            Page::Abilities,
            Page::Background,
            Page::Spells,
            Page::Feats,
            Page::Bio,
            Page::Review,
        ]
    );
}

#[test]
fn a_new_wizard_asks_for_the_name() {
    let app = App::new();
    assert_eq!(app.page(), Some(Page::Name));
    assert!(!app.is_finished());
    assert!(app.rolls().is_empty());
    let frame = app.frame();
    assert_eq!(frame.lines, vec!["What is your character's name?", "", ""]);
    assert!(frame.cursor_visible);
    assert_eq!(frame.highlighted, None);
    assert_eq!(app.sheet().name, "");
}

#[test]
fn the_name_is_entered_without_the_space_around_it() {
    let mut app = App::new();
    type_text(&mut app, "  Mira  of  Tor ");
    feed(&mut app, Event::Backspace, 1);
    assert_eq!(app.frame().lines[2], "  Mira  of  Tor");
    feed(&mut app, Event::Confirm, 1);
    assert_eq!(app.sheet().name, "Mira  of  Tor");
    assert_eq!(app.page(), Some(Page::Race));
}

#[test]
fn race_then_alignment_then_class() {
    let mut app = App::new();
    feed(&mut app, Event::Confirm, 1);
    assert_eq!(app.page(), Some(Page::Race));
    let frame = app.frame();
    assert_eq!(frame.lines[0], "What is your character's race?");
    assert_eq!(frame.lines.len(), 11);
    assert_eq!(frame.lines[2], "Dragonborn");
    assert_eq!(frame.lines[6], "Half-Elf");
    assert_eq!(frame.highlighted, Some(2));
    feed(&mut app, Event::Down, 4);
    feed(&mut app, Event::Confirm, 1);
    assert_eq!(app.sheet().race, AvailableRaces::HalfElf);
    assert_eq!(app.page(), Some(Page::Race));
    assert_eq!(app.frame().lines[0], "What is your character's alignment?");
    feed(&mut app, Event::Click(5), 1);
    feed(&mut app, Event::Confirm, 1);
    assert_eq!(app.sheet().alignment, Alignment::ChaoticGood);
    assert_eq!(app.page(), Some(Page::Class));
    let frame = app.frame();
    assert_eq!(frame.lines[0], "What is your character's class?");
    assert_eq!(frame.lines.len(), 14);
    feed(&mut app, Event::Down, 20);
    feed(&mut app, Event::Confirm, 1);
    assert_eq!(app.sheet().class, AvailableClasses::Wizard);
    assert_eq!(app.page(), Some(Page::Abilities));
    assert_eq!(
        app.frame().lines,
        vec![
            "Would you like to roll for your ability scores or use point buy?",
            "",
            "Roll",
            "Point Buy",
        ]
    );
}

#[test]
fn a_whole_run_with_point_buy() {
    let mut app = App::new();
    through_class(&mut app);
    assert_eq!(app.page(), Some(Page::Abilities));
    feed(&mut app, Event::Down, 1);
    feed(&mut app, Event::Confirm, 1);
    assert_eq!(
        app.frame().lines,
        vec!["Pool Remaining: 27", "Adjust points for Strength:", "", "8"]
    );
    feed(&mut app, Event::Up, 7);
    assert_eq!(
        app.frame().lines,
        vec!["Pool Remaining: 18", "Adjust points for Strength:", "", "15"]
    );
    feed(&mut app, Event::Confirm, 1);
    assert_eq!(
        app.frame().lines,
        vec!["Pool Remaining: 18", "Adjust points for Dexterity:", "", "8"]
    );
    assert_eq!(app.sheet().ability_scores.get(AbilityName::Strength), 8);
    feed(&mut app, Event::Up, 5);
    feed(&mut app, Event::Confirm, 5);
    assert_eq!(
        app.frame().lines[0],
        "You have 13 points remaining. Are you sure you want to proceed?"
    );
    feed(&mut app, Event::Down, 1);
    feed(&mut app, Event::Confirm, 1);
    assert_eq!(
        app.frame().lines,
        vec!["Pool Remaining: 13", "Adjust points for Strength:", "", "15"]
    );
    feed(&mut app, Event::Confirm, 2);
    feed(&mut app, Event::Up, 7);
    feed(&mut app, Event::Confirm, 1);
    feed(&mut app, Event::Up, 4);
    feed(&mut app, Event::Confirm, 1);
    feed(&mut app, Event::Confirm, 1);
    assert!(!app.is_finished());
    assert_eq!(app.handle(Event::Confirm), Outcome::Confirmed);
    assert!(app.is_finished());
    assert_eq!(app.page(), Some(Page::Background));
    let sheet = app.sheet();
    assert_eq!(sheet.name, "Mira");
    assert_eq!(sheet.race, AvailableRaces::Elf);
    assert_eq!(sheet.alignment, Alignment::TrueNeutral);
    assert_eq!(sheet.class, AvailableClasses::Bard);
    assert_eq!(
        sheet.ability_scores.get_sorted(),
        vec![
            (AbilityName::Strength, 15),
            (AbilityName::Dexterity, 13),
            (AbilityName::Constitution, 15),
            (AbilityName::Intelligence, 12),
            (AbilityName::Wisdom, 8),
            (AbilityName::Charisma, 8),
        ]
    );
    assert_eq!(
        app.frame().lines,
        vec![
            "Name:               Mira",
            "Race:               Elf",
            "Alignment:          True-Neutral",
            "Class:              Bard",
            "Level:              1",
            "Experience points:  0",
            "Ability scores:     Strength: 15   Dexterity: 13   Constitution: 15   Intelligence: 12   Wisdom: 8    Charisma: 8    ",
            "Point buy:          false",
        ]
    );
    assert_eq!(app.handle(Event::Up), Outcome::Confirmed);
    assert_eq!(app.handle(Event::Cancel), Outcome::Cancelled);
    assert!(app.is_finished());
}

#[test]
fn a_whole_run_with_rolled_scores() {
    let mut app = App::new();
    through_class(&mut app);
    feed(&mut app, Event::Confirm, 1);
    let rolls = app.rolls().clone();
    assert_eq!(rolls.len(), 6);
    for roll in rolls.iter() {
        assert!(3 <= *roll && *roll <= 18);
    }
    for pair in rolls.windows(2) {
        assert!(pair[0] <= pair[1]);
    }
    assert_eq!(
        app.frame().lines[1],
        format!("What ability score would you like to assign {} to?", rolls[0])
    );
    feed(&mut app, Event::Down, 5);
    feed(&mut app, Event::Confirm, 1);
    assert_eq!(app.sheet().ability_scores.get(AbilityName::Charisma), rolls[0]);
    feed(&mut app, Event::Confirm, 5);
    assert_eq!(app.frame().lines[0], "Proceed with these ability scores?");
    feed(&mut app, Event::Down, 1);
    feed(&mut app, Event::Confirm, 1);
    assert_eq!(app.rolls(), &rolls);
    assert_eq!(
        app.frame().lines[1],
        format!("What ability score would you like to assign {} to?", rolls[0])
    );
    feed(&mut app, Event::Confirm, 6);
    assert_eq!(app.handle(Event::Confirm), Outcome::Confirmed);
    assert!(app.is_finished());
    assert_eq!(app.rolls(), &rolls);
    let scores: Vec<i8> = app
        .sheet()
        .ability_scores
        .get_sorted()
        .iter()
        .map(|pair| pair.1)
        .collect();
    assert_eq!(scores, rolls);
}

#[test]
fn given_rolls_are_assigned() {
    let mut app = App::new();
    through_class(&mut app);
    app.begin_rolls(vec![7, 9, 11, 13, 15, 17]);
    assert_eq!(app.rolls(), &vec![7, 9, 11, 13, 15, 17]);
    assert_eq!(app.frame().lines[0], "7, 9, 11, 13, 15, 17");
    feed(&mut app, Event::Down, 4);
    feed(&mut app, Event::Confirm, 1);
    feed(&mut app, Event::Down, 4);
    feed(&mut app, Event::Confirm, 1);
    feed(&mut app, Event::Down, 3);
    feed(&mut app, Event::Confirm, 1);
    feed(&mut app, Event::Down, 2);
    feed(&mut app, Event::Confirm, 1);
    feed(&mut app, Event::Down, 1);
    feed(&mut app, Event::Confirm, 1);
    feed(&mut app, Event::Confirm, 1);
    assert_eq!(app.handle(Event::Confirm), Outcome::Confirmed);
    assert_eq!(
        app.sheet().ability_scores.get_sorted(),
        vec![
            (AbilityName::Strength, 17),
            (AbilityName::Dexterity, 15),
            (AbilityName::Constitution, 13),
            (AbilityName::Intelligence, 11),
            (AbilityName::Wisdom, 7),
            (AbilityName::Charisma, 9),
        ]
    );
}

#[test]
fn a_name_can_be_entered_directly() {
    let mut app = App::new();
    app.enter_name("Tor".to_string());
    assert_eq!(app.sheet().name, "Tor");
    assert_eq!(app.page(), Some(Page::Race));
}

#[test]
fn cancel_leaves_the_wizard_on_every_screen() {
    let mut app = App::new();
    type_text(&mut app, "Mira");
    assert_eq!(app.handle(Event::Cancel), Outcome::Cancelled);
    assert_eq!(app.page(), Some(Page::Name));
    feed(&mut app, Event::Confirm, 1);
    assert_eq!(app.handle(Event::Cancel), Outcome::Cancelled);
    feed(&mut app, Event::Confirm, 1);
    assert_eq!(app.handle(Event::Cancel), Outcome::Cancelled);
    feed(&mut app, Event::Confirm, 1);
    assert_eq!(app.handle(Event::Cancel), Outcome::Cancelled);
    assert_eq!(app.page(), Some(Page::Class));
    feed(&mut app, Event::Confirm, 1);
    assert_eq!(app.handle(Event::Cancel), Outcome::Cancelled);
    assert_eq!(app.page(), Some(Page::Abilities));
    feed(&mut app, Event::Confirm, 1);
    assert_eq!(app.handle(Event::Cancel), Outcome::Cancelled);
    assert_eq!(app.rolls().len(), 6);
    assert_eq!(app.sheet().name, "Mira");
}

#[test]
fn the_race_adds_its_bonuses_to_the_scores() {
    let mut app = App::new();
    feed(&mut app, Event::Confirm, 1);
    feed(&mut app, Event::Down, 5);
    feed(&mut app, Event::Confirm, 1);
    assert_eq!(app.sheet().race, AvailableRaces::HalfOrc);
    app.adjust_ability_score_for_race();
    assert_eq!(
        app.sheet().ability_scores.get_sorted(),
        vec![
            (AbilityName::Strength, 10),
            (AbilityName::Dexterity, 8),
            (AbilityName::Constitution, 9),
            (AbilityName::Intelligence, 8),
            (AbilityName::Wisdom, 8),
            (AbilityName::Charisma, 8),
        ]
    );
}

#[test]
fn the_summary_of_a_sheet() {
    let mut sheet = CharacterSheet::new();
    sheet.name = "Kel\nthe Bold".to_string();
    sheet.race = AvailableRaces::Dragonborn;
    sheet.alignment = Alignment::LawfulEvil;
    sheet.class = AvailableClasses::Paladin;
    sheet.level = 12;
    sheet.experience_points = 100000;
    sheet.point_buy = true;
    sheet.ability_scores.set(AbilityName::Charisma, 18);
    let frame = summary_frame(&sheet);
    assert_eq!(
        frame.lines,
        vec![
            "Name:               Kelthe Bold",
            "Race:               Dragonborn",
            "Alignment:          Lawful-Evil",
            "Class:              Paladin",
            "Level:              12",
            "Experience points:  100000",
            "Ability scores:     Strength: 8    Dexterity: 8    Constitution: 8    Intelligence: 8    Wisdom: 8    Charisma: 18   ",
            "Point buy:          true",
        ]
    );
    assert_eq!(frame.highlighted, None);
    assert!(!frame.cursor_visible);
}
