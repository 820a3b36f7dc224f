use character_wizard::dice::{
    drop_lowest, get_ability_score_rolls, roll_for_ability_score, sort_rolls, Dice,
};

#[test]
fn six_rolls_between_three_and_eighteen_in_ascending_order() {
    for _ in 0..200 {
        let rolls = get_ability_score_rolls();
        assert_eq!(rolls.len(), 6);
        for roll in rolls.iter() {
            assert!(3 <= *roll && *roll <= 18);
        }
        for pair in rolls.windows(2) {
            assert!(pair[0] <= pair[1]);
        }
    }
}

#[test]
fn one_rolled_score_is_between_three_and_eighteen() {
    for _ in 0..500 {
        let score = roll_for_ability_score();
        assert!(3 <= score && score <= 18);
    }
}

#[test]
fn the_lowest_die_is_dropped() {
    assert_eq!(drop_lowest([1, 1, 1, 1]), 3);
    assert_eq!(drop_lowest([6, 6, 6, 6]), 18);
    assert_eq!(drop_lowest([1, 6, 6, 6]), 18);
    assert_eq!(drop_lowest([6, 6, 6, 1]), 18);
    assert_eq!(drop_lowest([4, 2, 5, 3]), 12);
    assert_eq!(drop_lowest([2, 2, 3, 3]), 8);
    assert_eq!(drop_lowest([5, 1, 1, 2]), 8);
}

#[test]
fn a_die_shows_one_of_its_faces() {
    let dice = [
        Dice::D4,
        Dice::D6,
        Dice::D8,
        Dice::D10,
        Dice::D12,
        Dice::D20,
        Dice::D100,
    ];
    let faces = [4, 6, 8, 10, 12, 20, 100];
    for (die, sides) in dice.iter().zip(faces.iter()) {
        assert_eq!(die.sides(), *sides);
        for _ in 0..200 {
            let face = die.roll(1);
            assert!(1 <= face && face <= *sides);
        }
    }
}

#[test]
fn a_die_comes_up_on_more_than_one_face() {
    let first = Dice::D100.roll(1);
    let mut other = false;
    for _ in 0..1000 {
        if Dice::D100.roll(1) != first {
            other = true;
        }
    }
    assert!(other);
}

#[test]
fn several_dice_are_added_up() {
    for _ in 0..200 {
        let total = Dice::D6.roll(4);
        assert!(4 <= total && total <= 24);
        let total = Dice::D20.roll(6);
        assert!(6 <= total && total <= 120);
    }
    assert_eq!(Dice::D6.roll(0), 0);
    assert_eq!(Dice::D6.roll(-3), 0);
}

#[test]
fn sorting_keeps_every_roll() {
    assert_eq!(sort_rolls(&vec![15, 7, 17, 9, 13, 11]), vec![7, 9, 11, 13, 15, 17]);
    assert_eq!(sort_rolls(&vec![12, 12, 3, 18, 3, 12]), vec![3, 3, 12, 12, 12, 18]);
    assert_eq!(sort_rolls(&vec![]), Vec::<i8>::new());
    assert_eq!(sort_rolls(&vec![5]), vec![5]);
    assert_eq!(sort_rolls(&vec![3, 4, 5]), vec![3, 4, 5]);
    assert_eq!(sort_rolls(&vec![-1, -5, 0]), vec![-5, -1, 0]);
}
