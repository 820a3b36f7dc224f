use character_wizard::frame::{menu_frame, text_frame};
use character_wizard::input::{Event, Outcome};
use character_wizard::line_input::LineInput;
use character_wizard::sheet::strip_line_feeds;
use character_wizard::text::{concat3, copy_lines, join, number_text, pad_right, yes_no};

#[test]
fn numbers_in_decimal() {
    assert_eq!(number_text(0), "0");
    assert_eq!(number_text(7), "7");
    assert_eq!(number_text(10), "10");
    assert_eq!(number_text(27), "27");
    assert_eq!(number_text(-1), "-1");
    assert_eq!(number_text(-128), "-128");
    assert_eq!(number_text(4294967295), "4294967295");
    assert_eq!(number_text(i64::MAX), "9223372036854775807");
    assert_eq!(number_text(i64::MIN), "-9223372036854775808");
}

#[test]
fn padding_on_the_right() {
    assert_eq!(pad_right("Name: ", 20), "Name:               ");
    assert_eq!(pad_right("8", 2), "8 ");
    assert_eq!(pad_right("15", 2), "15");
    assert_eq!(pad_right("-10", 2), "-10");
    assert_eq!(pad_right("", 3), "   ");
    assert_eq!(pad_right("abc", 0), "abc");
    assert_eq!(pad_right("é", 3), "é  ");
}

#[test]
fn joining_with_a_separator() {
    let parts = vec!["7".to_string(), "9".to_string(), "11".to_string()];
    assert_eq!(join(&parts, ", "), "7, 9, 11");
    assert_eq!(join(&vec!["7".to_string()], ", "), "7");
    assert_eq!(join(&Vec::new(), ", "), "");
    assert_eq!(join(&vec!["".to_string(), "".to_string()], "-"), "-");
}

#[test]
fn three_texts_in_a_row() {
    assert_eq!(concat3("Strength", ": ", "15"), "Strength: 15");
    assert_eq!(concat3("", "", ""), "");
}

#[test]
fn copies_and_answers() {
    let lines = vec!["a".to_string(), "".to_string(), "c d".to_string()];
    assert_eq!(copy_lines(&lines), lines);
    assert_eq!(yes_no(), vec!["Yes", "No"]);
}

#[test]
fn line_feeds_are_removed() {
    assert_eq!(strip_line_feeds("a\nb\n"), "ab");
    assert_eq!(strip_line_feeds("\n\n"), "");
    assert_eq!(strip_line_feeds("no feeds\r"), "no feeds\r");
    assert_eq!(strip_line_feeds(""), "");
    assert_eq!(strip_line_feeds("é\nü"), "éü");
}

#[test]
fn frames_of_text_and_of_menus() {
    let frame = text_frame(vec!["one".to_string(), "two".to_string()], true);
    assert_eq!(frame.lines, vec!["one", "two"]);
    assert_eq!(frame.highlighted, None);
    assert!(frame.cursor_visible);
    let frame = menu_frame(
        vec!["first".to_string(), "second".to_string()],
        vec!["a".to_string(), "b".to_string(), "c".to_string()],
        2,
    );
    assert_eq!(frame.lines, vec!["first", "second", "", "a", "b", "c"]);
    assert_eq!(frame.highlighted, Some(5));
    assert!(!frame.cursor_visible);
    let frame = menu_frame(Vec::new(), vec!["only".to_string()], 0);
    assert_eq!(frame.lines, vec!["", "only"]);
    assert_eq!(frame.highlighted, Some(1));
}

#[test]
fn typing_a_line() {
    let mut input = LineInput::new(vec!["Name?".to_string()], "Bo".to_string());
    assert_eq!(input.text(), "Bo");
    assert_eq!(input.handle(Event::Printable('b')), Outcome::Pending);
    assert_eq!(input.text(), "Bob");
    assert_eq!(input.handle(Event::Backspace), Outcome::Pending);
    assert_eq!(input.handle(Event::Backspace), Outcome::Pending);
    assert_eq!(input.text(), "B");
    assert_eq!(input.handle(Event::Backspace), Outcome::Pending);
    assert_eq!(input.text(), "");
    assert_eq!(input.handle(Event::Backspace), Outcome::Pending);
    assert_eq!(input.text(), "");
    for c in "Al é".chars() {
        input.handle(Event::Printable(c));
    }
    assert_eq!(input.text(), "Al é");
    assert_eq!(input.handle(Event::Up), Outcome::Pending);
    assert_eq!(input.handle(Event::Down), Outcome::Pending);
    assert_eq!(input.handle(Event::Click(3)), Outcome::Pending);
    assert_eq!(input.handle(Event::Ignored), Outcome::Pending);
    assert_eq!(input.handle(Event::Confirm), Outcome::Confirmed);
    assert_eq!(input.handle(Event::Cancel), Outcome::Cancelled);
    assert_eq!(input.text(), "Al é");
    let frame = input.frame();
    assert_eq!(frame.lines, vec!["Name?", "", "Al é"]);
    assert_eq!(frame.highlighted, None);
    assert!(frame.cursor_visible);
}
