use ggedit::{HighlightingOptions, Row, SearchDirection, Type};

fn rust_options() -> HighlightingOptions {
    HighlightingOptions { numbers: true, strings: true, characters: true, comments: true }
}

fn text_of(row: &Row) -> String {
    row.chars().iter().collect()
}

#[test]
fn insert_places_char_before_column() {
    let mut row = Row::from("ac");
    row.insert(1, 'b');
    assert_eq!(text_of(&row), "abc");
}

#[test]
fn insert_past_end_appends() {
    let mut row = Row::from("ab");
    row.insert(10, 'c');
    assert_eq!(text_of(&row), "abc");
}

#[test]
fn delete_removes_char_and_ignores_past_end() {
    let mut row = Row::from("abc");
    row.delete(1);
    assert_eq!(text_of(&row), "ac");
    row.delete(5);
    assert_eq!(text_of(&row), "ac");
}

#[test]
fn split_then_append_restores_row() {
    for column in 0..=5 {
        let mut row = Row::from("hello");
        let tail = row.split(column);
        assert_eq!(text_of(&row), &"hello"[..column]);
        assert_eq!(text_of(&tail), &"hello"[column..]);
        row.append(&tail);
        assert_eq!(text_of(&row), "hello");
    }
}

#[test]
fn split_past_end_leaves_empty_tail() {
    let mut row = Row::from("ab");
    let tail = row.split(9);
    assert_eq!(text_of(&row), "ab");
    assert!(tail.is_empty());
}

#[test]
fn len_counts_characters_not_bytes() {
    let row = Row::from("héllo");
    assert_eq!(row.len(), 5);
}

#[test]
fn find_forward_and_backward_in_row() {
    let row = Row::from("hello");
    assert_eq!(row.find("l", 0, SearchDirection::Forward), Some(2));
    assert_eq!(row.find("l", 3, SearchDirection::Forward), Some(3));
    assert_eq!(row.find("l", 4, SearchDirection::Forward), None);
    assert_eq!(row.find("l", 4, SearchDirection::Backward), Some(3));
    assert_eq!(row.find("l", 1, SearchDirection::Backward), None);
    assert_eq!(row.find("lo", 0, SearchDirection::Forward), Some(3));
    assert_eq!(row.find("hello!", 0, SearchDirection::Forward), None);
}

#[test]
fn find_is_by_character_position() {
    let row = Row::from("ééx");
    assert_eq!(row.find("x", 0, SearchDirection::Forward), Some(2));
}

#[test]
fn highlight_numbers_and_comment() {
    let mut row = Row::from("x = 12; // c");
    row.highlight(&rust_options(), None);
    let p = Type::Plain;
    let n = Type::Number;
    let c = Type::Comment;
    assert_eq!(row.highlighting().clone(), vec![p, p, p, p, n, n, p, p, c, c, c, c]);
}

#[test]
fn highlight_number_needs_separator_before() {
    let mut row = Row::from("a1 2.5");
    row.highlight(&rust_options(), None);
    let p = Type::Plain;
    let n = Type::Number;
    assert_eq!(row.highlighting().clone(), vec![p, p, p, n, n, n]);
}

#[test]
fn highlight_string_with_escape() {
    let mut row = Row::from("\"a\\\"b\" x");
    row.highlight(&rust_options(), None);
    let s = Type::String;
    let p = Type::Plain;
    assert_eq!(row.highlighting().clone(), vec![s, s, s, s, s, s, p, p]);
}

#[test]
fn highlight_character_literals() {
    let mut row = Row::from("'a' 'ab'");
    row.highlight(&rust_options(), None);
    let ch = Type::Character;
    let p = Type::Plain;
    assert_eq!(row.highlighting().clone(), vec![ch, ch, ch, p, p, p, p, p]);
}

#[test]
fn highlight_without_policy_is_plain() {
    let mut row = Row::from("12 // x");
    row.highlight(&HighlightingOptions::default(), None);
    assert!(row.highlighting().iter().all(|t| *t == Type::Plain));
    assert_eq!(row.highlighting().len(), 7);
}

#[test]
fn highlight_marks_every_search_match() {
    let mut row = Row::from("hello");
    row.highlight(&HighlightingOptions::default(), Some("l"));
    let p = Type::Plain;
    let m = Type::SearchMatch;
    assert_eq!(row.highlighting().clone(), vec![p, p, m, m, p]);
}

#[test]
fn highlight_search_overrides_other_classes() {
    let mut row = Row::from("x 12");
    row.highlight(&rust_options(), Some("2"));
    let p = Type::Plain;
    assert_eq!(row.highlighting().clone(), vec![p, p, Type::Number, Type::SearchMatch]);
}

#[test]
fn render_expands_tabs_and_replaces_control_chars() {
    let row = Row::from("a\tb\u{1}");
    assert_eq!(row.render(0, 10), "a    b?\u{1b}[49m\u{1b}[39m");
}

#[test]
fn render_clips_to_window() {
    let row = Row::from("abcdef");
    assert_eq!(row.render(2, 4), "cd\u{1b}[49m\u{1b}[39m");
    assert_eq!(row.render(8, 12), "\u{1b}[49m\u{1b}[39m");
}

#[test]
fn render_switches_colours_at_class_changes() {
    let mut row = Row::from("ab");
    row.highlight(&HighlightingOptions::default(), Some("b"));
    assert_eq!(
        row.render(0, 2),
        "a\u{1b}[48;2;255;255;0m\u{1b}[38;2;0;0;0mb\u{1b}[49m\u{1b}[39m"
    );
}
