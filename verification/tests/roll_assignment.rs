use character_wizard::character::{AbilityName, AbilityScores};
use character_wizard::input::{Event, Outcome};
use character_wizard::roll_assignment::RollAssignment;
use character_wizard::util::EnumIter;

fn pick(assignment: &mut RollAssignment, ability: AbilityName) {
    let index = assignment
        .available()
        .iter()
        .position(|a| *a == ability)
        .unwrap();
    while assignment.cursor().unwrap() < index {
        assert_eq!(assignment.handle(Event::Down), Outcome::Pending);
    }
    assert_eq!(assignment.cursor(), Some(index));
    assert_eq!(assignment.handle(Event::Confirm), Outcome::Pending);
}

fn assign_all(assignment: &mut RollAssignment, order: &[AbilityName]) {
    for ability in order {
        pick(assignment, *ability);
    }
}

const ORDER: [AbilityName; 6] = [
    AbilityName::Wisdom,
    AbilityName::Charisma,
    AbilityName::Intelligence,
    AbilityName::Constitution,
    AbilityName::Dexterity,
    AbilityName::Strength,
];

#[test]
fn sorted_rolls_assigned_from_wisdom_to_strength() {
    let rolls = vec![7, 9, 11, 13, 15, 17];
    let mut assignment = RollAssignment::new(rolls, AbilityScores::default());
    assign_all(&mut assignment, &ORDER);
    assert!(assignment.is_confirming());
    assert_eq!(assignment.handle(Event::Confirm), Outcome::Confirmed);
    assert!(assignment.is_done());
    assert_eq!(
        assignment.scores().get_sorted(),
        vec![
            (AbilityName::Strength, 17),
            (AbilityName::Dexterity, 15),
            (AbilityName::Constitution, 13),
            (AbilityName::Intelligence, 11),
            (AbilityName::Wisdom, 7),
            (AbilityName::Charisma, 9),
        ]
    );
}

#[test]
fn rolls_are_taken_in_the_order_of_the_batch() {
    let rolls = vec![3, 8, 8, 12, 16, 18];
    let mut assignment = RollAssignment::new(rolls.clone(), AbilityScores::default());
    assert_eq!(assignment.rolls(), &rolls);
    for roll in rolls.iter() {
        assert_eq!(assignment.current_roll(), Some(*roll));
        assert_eq!(assignment.handle(Event::Confirm), Outcome::Pending);
    }
    assert_eq!(assignment.current_roll(), None);
    assert_eq!(
        assignment.scores().get_sorted(),
        vec![
            (AbilityName::Strength, 3),
            (AbilityName::Dexterity, 8),
            (AbilityName::Constitution, 8),
            (AbilityName::Intelligence, 12),
            (AbilityName::Wisdom, 16),
            (AbilityName::Charisma, 18),
        ]
    );
}

#[test]
fn a_chosen_ability_is_offered_no_more() {
    let mut assignment = RollAssignment::new(vec![7, 9, 11, 13, 15, 17], AbilityScores::default());
    assert_eq!(assignment.available(), &AbilityName::iter());
    pick(&mut assignment, AbilityName::Constitution);
    assert_eq!(
        assignment.available(),
        &vec![
            AbilityName::Strength,
            AbilityName::Dexterity,
            AbilityName::Intelligence,
            AbilityName::Wisdom,
            AbilityName::Charisma,
        ]
    );
    assert_eq!(assignment.chosen(), &vec![AbilityName::Constitution]);
    assert_eq!(assignment.cursor(), Some(0));
    pick(&mut assignment, AbilityName::Charisma);
    pick(&mut assignment, AbilityName::Strength);
    assert_eq!(
        assignment.available(),
        &vec![
            AbilityName::Dexterity,
            AbilityName::Intelligence,
            AbilityName::Wisdom,
        ]
    );
    assert_eq!(assignment.scores().get(AbilityName::Constitution), 7);
    assert_eq!(assignment.scores().get(AbilityName::Charisma), 9);
    assert_eq!(assignment.scores().get(AbilityName::Strength), 11);
    assert_eq!(assignment.scores().get(AbilityName::Dexterity), 8);
}

#[test]
fn every_assignment_is_a_bijection() {
    let rolls: Vec<i8> = vec![4, 6, 10, 10, 14, 18];
    let mut seed: u32 = 7;
    for _ in 0..300 {
        let mut assignment = RollAssignment::new(rolls.clone(), AbilityScores::default());
        while !assignment.is_confirming() {
            seed = seed.wrapping_mul(1103515245).wrapping_add(12345);
            let event = match (seed >> 16) % 3 {
                0 => Event::Up,
                1 => Event::Down,
                _ => Event::Confirm,
            };
            assignment.handle(event);
        }
        let chosen = assignment.chosen().clone();
        assert_eq!(chosen.len(), 6);
        for ability in AbilityName::iter() {
            assert_eq!(chosen.iter().filter(|a| **a == ability).count(), 1);
        }
        for (j, ability) in chosen.iter().enumerate() {
            assert_eq!(assignment.scores().get(*ability), rolls[j]);
        }
        let mut scores: Vec<i8> = assignment
            .scores()
            .get_sorted()
            .iter()
            .map(|pair| pair.1)
            .collect();
        scores.sort();
        assert_eq!(scores, rolls);
        assert!(assignment.available().is_empty());
    }
}

#[test]
fn declining_starts_again_with_the_same_rolls() {
    let rolls = vec![7, 9, 11, 13, 15, 17];
    let mut assignment = RollAssignment::new(rolls.clone(), AbilityScores::default());
    assign_all(&mut assignment, &ORDER);
    assert!(assignment.is_confirming());
    assert_eq!(assignment.handle(Event::Down), Outcome::Pending);
    assert_eq!(assignment.cursor(), Some(1));
    assert_eq!(assignment.handle(Event::Confirm), Outcome::Pending);
    assert!(!assignment.is_confirming());
    assert!(!assignment.is_done());
    assert_eq!(assignment.rolls(), &rolls);
    assert_eq!(assignment.current_roll(), Some(7));
    assert_eq!(assignment.available(), &AbilityName::iter());
    assert!(assignment.chosen().is_empty());
    assert_eq!(assignment.cursor(), Some(0));
    let again = [
        AbilityName::Strength,
        AbilityName::Dexterity,
        AbilityName::Constitution,
        AbilityName::Intelligence,
        AbilityName::Wisdom,
        AbilityName::Charisma,
    ];
    assign_all(&mut assignment, &again);
    assert_eq!(assignment.handle(Event::Confirm), Outcome::Confirmed);
    assert_eq!(
        assignment.scores().get_sorted(),
        vec![
            (AbilityName::Strength, 7),
            (AbilityName::Dexterity, 9),
            (AbilityName::Constitution, 11),
            (AbilityName::Intelligence, 13),
            (AbilityName::Wisdom, 15),
            (AbilityName::Charisma, 17),
        ]
    );
}

#[test]
fn the_highlight_stays_on_the_abilities_that_are_left() {
    let mut assignment = RollAssignment::new(vec![7, 9, 11, 13, 15, 17], AbilityScores::default());
    assert_eq!(assignment.handle(Event::Up), Outcome::Pending);
    assert_eq!(assignment.cursor(), Some(0));
    for _ in 0..10 {
        assignment.handle(Event::Down);
    }
    assert_eq!(assignment.cursor(), Some(5));
    assignment.handle(Event::Confirm);
    assert_eq!(assignment.scores().get(AbilityName::Charisma), 7);
    for _ in 0..10 {
        assignment.handle(Event::Down);
    }
    assert_eq!(assignment.cursor(), Some(4));
    assignment.handle(Event::Click(5));
    assert_eq!(assignment.cursor(), Some(1));
    assignment.handle(Event::Click(3));
    assert_eq!(assignment.cursor(), Some(1));
    assignment.handle(Event::Click(9));
    assert_eq!(assignment.cursor(), Some(1));
    assignment.handle(Event::Click(8));
    assert_eq!(assignment.cursor(), Some(4));
}

#[test]
fn cancel_leaves_the_assignment_as_it_is() {
    let mut assignment = RollAssignment::new(vec![7, 9, 11, 13, 15, 17], AbilityScores::default());
    pick(&mut assignment, AbilityName::Wisdom);
    assert_eq!(assignment.handle(Event::Cancel), Outcome::Cancelled);
    assert_eq!(assignment.chosen(), &vec![AbilityName::Wisdom]);
    assert_eq!(assignment.current_roll(), Some(9));
}

#[test]
fn roll_assignment_frames() {
    let mut assignment = RollAssignment::new(vec![7, 9, 11, 13, 15, 17], AbilityScores::default());
    let frame = assignment.frame();
    assert_eq!(
        frame.lines,
        vec![
            "7, 9, 11, 13, 15, 17",
            "What ability score would you like to assign 7 to?",
            "",
            "Strength",
            "Dexterity",
            "Constitution",
            "Intelligence",
            "Wisdom",
            "Charisma",
        ]
    );
    assert_eq!(frame.highlighted, Some(3));
    assert!(!frame.cursor_visible);
    pick(&mut assignment, AbilityName::Dexterity);
    assignment.handle(Event::Down);
    let frame = assignment.frame();
    assert_eq!(
        frame.lines,
        vec![
            "9, 11, 13, 15, 17",
            "What ability score would you like to assign 9 to?",
            "",
            "Strength",
            "Constitution",
            "Intelligence",
            "Wisdom",
            "Charisma",
        ]
    );
    assert_eq!(frame.highlighted, Some(4));
    assignment.handle(Event::Up);
    assign_all(
        &mut assignment,
        &[
            AbilityName::Strength,
            AbilityName::Constitution,
            AbilityName::Intelligence,
            AbilityName::Wisdom,
            AbilityName::Charisma,
        ],
    );
    let frame = assignment.frame();
    assert_eq!(
        frame.lines,
        vec![
            "Proceed with these ability scores?",
            "",
            "Strength: 9",
            "Dexterity: 7",
            "Constitution: 11",
            "Intelligence: 13",
            "Wisdom: 15",
            "Charisma: 17",
            "",
            "Yes",
            "No",
        ]
    );
    assert_eq!(frame.highlighted, Some(9));
    assignment.handle(Event::Click(11));
    assert_eq!(assignment.cursor(), Some(1));
    assert_eq!(assignment.frame().highlighted, Some(10));
    assignment.handle(Event::Click(10));
    assignment.handle(Event::Confirm);
    assert!(assignment.frame().lines.is_empty());
}
