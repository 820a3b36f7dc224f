use character_wizard::character::Alignment;
use character_wizard::input::{Event, Key, Outcome};
use character_wizard::menu::{either_menu, enum_menu, Choice, Menu, MenuItem, Selection};

#[test]
fn keys_as_events() {
    assert_eq!(Event::from_key(Key::Up), Event::Up);
    assert_eq!(Event::from_key(Key::Down), Event::Down);
    assert_eq!(Event::from_key(Key::Backspace), Event::Backspace);
    assert_eq!(Event::from_key(Key::Esc), Event::Cancel);
    assert_eq!(Event::from_key(Key::Ctrl('c')), Event::Cancel);
    assert_eq!(Event::from_key(Key::Ctrl('d')), Event::Ignored);
    assert_eq!(Event::from_key(Key::Char('\r')), Event::Confirm);
    assert_eq!(Event::from_key(Key::Char('\n')), Event::Confirm);
    assert_eq!(Event::from_key(Key::Char('a')), Event::Printable('a'));
    assert_eq!(Event::from_key(Key::Char(' ')), Event::Printable(' '));
    assert_eq!(Event::from_key(Key::Other), Event::Ignored);
}

#[test]
fn the_highlight_moves_without_wrapping() {
    let mut selection = Selection::new(3, 3);
    assert_eq!(selection.cursor(), 0);
    assert_eq!(selection.handle(Event::Up), Outcome::Pending);
    assert_eq!(selection.cursor(), 0);
    assert_eq!(selection.handle(Event::Down), Outcome::Pending);
    assert_eq!(selection.cursor(), 1);
    selection.handle(Event::Down);
    assert_eq!(selection.cursor(), 2);
    selection.handle(Event::Down);
    assert_eq!(selection.cursor(), 2);
    selection.handle(Event::Up);
    assert_eq!(selection.cursor(), 1);
    assert_eq!(selection.len(), 3);
    assert_eq!(selection.first_row(), 3);
}

#[test]
fn a_single_option_keeps_the_highlight() {
    let mut selection = Selection::new(1, 3);
    selection.handle(Event::Down);
    assert_eq!(selection.cursor(), 0);
    selection.handle(Event::Up);
    assert_eq!(selection.cursor(), 0);
}

#[test]
fn a_click_on_an_option_highlights_it() {
    let mut selection = Selection::new(4, 5);
    assert_eq!(selection.handle(Event::Click(7)), Outcome::Pending);
    assert_eq!(selection.cursor(), 2);
    selection.handle(Event::Click(4));
    assert_eq!(selection.cursor(), 2);
    selection.handle(Event::Click(9));
    assert_eq!(selection.cursor(), 2);
    selection.handle(Event::Click(8));
    assert_eq!(selection.cursor(), 3);
    selection.handle(Event::Click(5));
    assert_eq!(selection.cursor(), 0);
    selection.handle(Event::Click(0));
    assert_eq!(selection.cursor(), 0);
    selection.handle(Event::Click(65535));
    assert_eq!(selection.cursor(), 0);
}

#[test]
fn confirm_and_cancel_end_a_selection() {
    let mut selection = Selection::new(3, 3);
    selection.handle(Event::Down);
    assert_eq!(selection.handle(Event::Confirm), Outcome::Confirmed);
    assert_eq!(selection.cursor(), 1);
    assert_eq!(selection.handle(Event::Cancel), Outcome::Cancelled);
    assert_eq!(selection.cursor(), 1);
    assert_eq!(selection.handle(Event::Printable('x')), Outcome::Pending);
    assert_eq!(selection.handle(Event::Backspace), Outcome::Pending);
    assert_eq!(selection.handle(Event::Ignored), Outcome::Pending);
    assert_eq!(selection.cursor(), 1);
}

fn numbers() -> Menu<u32> {
    Menu::new(
        vec!["Pick a number".to_string(), "any number".to_string()],
        vec![
            MenuItem { name: "ten".to_string(), value: 10 },
            MenuItem { name: "twenty".to_string(), value: 20 },
            MenuItem { name: "thirty".to_string(), value: 30 },
        ],
    )
}

#[test]
fn a_menu_gives_the_value_of_the_highlighted_item() {
    let mut menu = numbers();
    assert_eq!(menu.selected(), 10);
    assert_eq!(menu.handle(Event::Down), Choice::Pending);
    assert_eq!(menu.handle(Event::Down), Choice::Pending);
    assert_eq!(menu.handle(Event::Down), Choice::Pending);
    assert_eq!(menu.cursor(), 2);
    assert_eq!(menu.selected(), 30);
    assert_eq!(menu.handle(Event::Up), Choice::Pending);
    assert_eq!(menu.handle(Event::Confirm), Choice::Chosen(20));
    assert_eq!(menu.handle(Event::Cancel), Choice::Cancelled);
    assert_eq!(menu.handle(Event::Click(4)), Choice::Pending);
    assert_eq!(menu.handle(Event::Confirm), Choice::Chosen(10));
    assert_eq!(menu.handle(Event::Click(6)), Choice::Pending);
    assert_eq!(menu.handle(Event::Confirm), Choice::Chosen(30));
    assert_eq!(menu.handle(Event::Click(7)), Choice::Pending);
    assert_eq!(menu.handle(Event::Click(3)), Choice::Pending);
    assert_eq!(menu.handle(Event::Confirm), Choice::Chosen(30));
}

#[test]
fn a_menu_frame_shows_prompt_and_items() {
    let mut menu = numbers();
    menu.handle(Event::Down);
    let frame = menu.frame();
    assert_eq!(
        frame.lines,
        vec!["Pick a number", "any number", "", "ten", "twenty", "thirty"]
    );
    assert_eq!(frame.highlighted, Some(4));
    assert!(!frame.cursor_visible);
}

#[test]
fn a_menu_of_an_enumeration() {
    let mut menu: Menu<Alignment> = enum_menu("What is your character's alignment?");
    let frame = menu.frame();
    assert_eq!(
        frame.lines,
        vec![
            "What is your character's alignment?",
            "",
            "Lawful-Good",
            "Neutral-Good",
            "Chaotic-Good",
            "Lawful-Neutral",
            "True-Neutral",
            "Chaotic-Neutral",
            "Lawful-Evil",
            "Neutral-Evil",
            "Chaotic-Evil",
        ]
    );
    assert_eq!(frame.highlighted, Some(2));
    for _ in 0..20 {
        menu.handle(Event::Down);
    }
    assert_eq!(menu.handle(Event::Confirm), Choice::Chosen(Alignment::ChaoticEvil));
    menu.handle(Event::Click(7));
    assert_eq!(menu.handle(Event::Confirm), Choice::Chosen(Alignment::TrueNeutral));
}

#[test]
fn a_menu_of_two_answers() {
    let mut menu = either_menu("Roll or buy?", "Roll", "Point Buy");
    assert_eq!(menu.frame().lines, vec!["Roll or buy?", "", "Roll", "Point Buy"]);
    assert_eq!(menu.handle(Event::Confirm), Choice::Chosen(false));
    menu.handle(Event::Down);
    assert_eq!(menu.handle(Event::Confirm), Choice::Chosen(true));
}
