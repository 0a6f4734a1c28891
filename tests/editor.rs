use ggedit::{
    welcome_message, CursorStyle, Document, Editor, Key, Mode, Pending, Position, SaveCommand,
    ScreenLine, Size, Step, Type, MESSAGE_LIFETIME_MS,
};

fn editor_with(lines: &[&str], height: u16, width: u16) -> Editor {
    let lines: Vec<String> = lines.iter().map(|l| l.to_string()).collect();
    let doc = Document::open("a.txt", &lines);
    Editor::new(doc, Size { height, width }, String::new())
}

fn rows_of(editor: &Editor) -> Vec<String> {
    (0..editor.document.len())
        .map(|y| editor.document.row(y).unwrap().chars().iter().collect())
        .collect()
}

fn press(editor: &mut Editor, keys: &[Key]) {
    for key in keys {
        editor.process_key(*key);
    }
}

fn type_text(editor: &mut Editor, text: &str) {
    for c in text.chars() {
        editor.process_key(Key::Char(c));
    }
}

fn at(x: usize, y: usize) -> Position {
    Position { x, y }
}

const UNSAVED: &str =
    "File has unsaved changes. Use :wq to save and quit, or :q! to quit without saving.";

#[test]
fn right_at_row_end_moves_to_next_row() {
    let mut e = editor_with(&["abc", "", "hello"], 10, 80);
    e.cursor_position = at(3, 0);
    e.process_key(Key::Right);
    assert_eq!(e.cursor_position, at(0, 1));
    e.process_key(Key::Right);
    assert_eq!(e.cursor_position, at(0, 2));
}

#[test]
fn vertical_move_clamps_column() {
    let mut e = editor_with(&["hello", "ab"], 10, 80);
    e.cursor_position = at(4, 0);
    e.process_key(Key::Down);
    assert_eq!(e.cursor_position, at(2, 1));
    e.process_key(Key::Down);
    assert_eq!(e.cursor_position, at(0, 2));
    e.process_key(Key::Down);
    assert_eq!(e.cursor_position, at(0, 2));
}

#[test]
fn left_at_row_start_moves_to_previous_end() {
    let mut e = editor_with(&["abc", "de"], 10, 80);
    e.cursor_position = at(0, 1);
    e.process_key(Key::Left);
    assert_eq!(e.cursor_position, at(3, 0));
    e.cursor_position = at(0, 0);
    e.process_key(Key::Char('h'));
    assert_eq!(e.cursor_position, at(0, 0));
}

#[test]
fn home_end_and_pages() {
    let mut e = editor_with(&["abc", "d", "e", "f", "g"], 2, 80);
    e.cursor_position = at(1, 0);
    e.process_key(Key::End);
    assert_eq!(e.cursor_position, at(3, 0));
    e.process_key(Key::Char('0'));
    assert_eq!(e.cursor_position, at(0, 0));
    e.process_key(Key::Char('$'));
    assert_eq!(e.cursor_position, at(3, 0));
    e.process_key(Key::PageDown);
    assert_eq!(e.cursor_position, at(1, 2));
    e.process_key(Key::PageDown);
    e.process_key(Key::PageDown);
    assert_eq!(e.cursor_position, at(0, 5));
    e.process_key(Key::PageUp);
    assert_eq!(e.cursor_position, at(0, 3));
}

#[test]
fn scroll_down_by_overflow() {
    let mut e = editor_with(&[], 10, 80);
    e.cursor_position = at(0, 15);
    e.scroll();
    assert_eq!(e.offset.y, 6);
    e.cursor_position = at(0, 2);
    e.scroll();
    assert_eq!(e.offset.y, 2);
    e.cursor_position = at(100, 2);
    e.scroll();
    assert_eq!(e.offset.x, 21);
}

#[test]
fn quit_refused_on_unsaved_changes() {
    let mut e = editor_with(&["abc"], 10, 80);
    e.document.insert(&at(0, 0), 'x');
    type_text(&mut e, ":q\n");
    assert!(!e.should_quit);
    assert_eq!(e.status_message.text, UNSAVED);
    assert_eq!(e.mode, Mode::Normal);
    type_text(&mut e, ":q!\n");
    assert!(e.should_quit);
}

#[test]
fn quit_on_clean_document() {
    let mut e = editor_with(&["abc"], 10, 80);
    type_text(&mut e, ":q\n");
    assert!(e.should_quit);
}

#[test]
fn command_buffer_echo_and_backspace() {
    let mut e = editor_with(&["abc"], 10, 80);
    type_text(&mut e, ":wx");
    assert_eq!(e.status_message.text, ":wx");
    e.process_key(Key::Backspace);
    assert_eq!(e.status_message.text, ":w");
    assert_eq!(e.command_buffer, vec!['w']);
    e.process_key(Key::Esc);
    assert_eq!(e.mode, Mode::Normal);
    assert!(e.command_buffer.is_empty());
    assert_eq!(e.status_message.text, "");
}

#[test]
fn unrecognized_command_is_reported() {
    let mut e = editor_with(&["abc"], 10, 80);
    type_text(&mut e, ":frob now\n");
    assert_eq!(e.status_message.text, "Unrecognized command: frob");
    assert_eq!(e.mode, Mode::Normal);
    assert!(e.command_buffer.is_empty());
}

#[test]
fn write_quit_requests_save_then_reports() {
    let mut e = editor_with(&["abc"], 10, 80);
    type_text(&mut e, ":wq");
    let step = e.process_key(Key::Char('\n'));
    assert!(e.should_quit);
    match step {
        Step::Save(req) => {
            assert_eq!(req.path, "a.txt");
            assert_eq!(req.name, None);
            assert_eq!(req.command, SaveCommand::WriteQuit);
            e.complete_save(req.command, None, Ok(()));
        }
        _ => panic!("expected a save request"),
    }
    assert_eq!(e.status_message.text, "\"a.txt\" 1L, 4B written");
}

#[test]
fn write_with_name_and_failure() {
    let mut e = editor_with(&["abc"], 10, 80);
    type_text(&mut e, ":w  b.txt");
    match e.process_key(Key::Char('\n')) {
        Step::Save(req) => {
            assert_eq!(req.path, "b.txt");
            assert_eq!(req.name.as_deref(), Some("b.txt"));
            e.complete_save(req.command, req.name.as_deref(), Err("denied".to_string()));
        }
        _ => panic!("expected a save request"),
    }
    assert!(!e.should_quit);
    assert_eq!(e.status_message.text, "Error writing file: denied");
}

#[test]
fn write_of_empty_clean_document_reports_error() {
    let mut e = Editor::new(Document::default(), Size { height: 10, width: 80 }, String::new());
    type_text(&mut e, ":w\n");
    assert_eq!(e.status_message.text, "Error writing file: Document is empty");
    type_text(&mut e, ":wq\n");
    assert_eq!(e.status_message.text, "Document is empty");
    assert!(e.should_quit);
}

#[test]
fn insert_mode_typing_and_escape() {
    let mut e = editor_with(&["xy"], 10, 80);
    e.process_key(Key::Char('i'));
    assert_eq!(e.mode, Mode::Insert);
    assert_eq!(e.cursor_style(), CursorStyle::Bar);
    type_text(&mut e, "ab");
    assert_eq!(rows_of(&e), vec!["abxy"]);
    assert_eq!(e.cursor_position, at(2, 0));
    e.process_key(Key::Char('\n'));
    assert_eq!(rows_of(&e), vec!["ab", "xy"]);
    assert_eq!(e.cursor_position, at(0, 1));
    e.process_key(Key::Backspace);
    assert_eq!(rows_of(&e), vec!["abxy"]);
    assert_eq!(e.cursor_position, at(2, 0));
    e.process_key(Key::Delete);
    assert_eq!(rows_of(&e), vec!["aby"]);
    e.process_key(Key::Esc);
    assert_eq!(e.mode, Mode::Normal);
    assert_eq!(e.cursor_position, at(1, 0));
    assert_eq!(e.cursor_style(), CursorStyle::Block);
}

#[test]
fn backspace_at_document_start_does_nothing() {
    let mut e = editor_with(&["ab"], 10, 80);
    e.process_key(Key::Char('i'));
    e.process_key(Key::Backspace);
    assert_eq!(rows_of(&e), vec!["ab"]);
    assert!(!e.document.is_dirty());
}

#[test]
fn append_and_open_line_keys() {
    let mut e = editor_with(&["ab", "cd"], 10, 80);
    e.process_key(Key::Char('a'));
    assert_eq!(e.cursor_position, at(1, 0));
    assert_eq!(e.mode, Mode::Insert);
    e.process_key(Key::Esc);
    e.process_key(Key::Char('o'));
    assert_eq!(rows_of(&e), vec!["ab", "", "cd"]);
    assert_eq!(e.cursor_position, at(0, 1));
    assert!(e.document.is_dirty());
    e.process_key(Key::Esc);
    e.cursor_position = at(1, 2);
    e.process_key(Key::Char('O'));
    assert_eq!(rows_of(&e), vec!["ab", "", "", "cd"]);
    assert_eq!(e.cursor_position, at(0, 2));
}

#[test]
fn delete_line_gesture() {
    let mut e = editor_with(&["a", "b", "c"], 10, 80);
    e.cursor_position = at(0, 1);
    assert!(matches!(e.process_key(Key::Char('d')), Step::ReadKey));
    assert_eq!(e.pending, Pending::SecondDeleteKey);
    assert!(matches!(e.process_key(Key::Char('x')), Step::ReadKey));
    assert!(matches!(e.process_key(Key::Char('d')), Step::Render));
    assert_eq!(rows_of(&e), vec!["a", "c"]);
    assert_eq!(e.pending, Pending::Nothing);
    e.process_key(Key::Char('d'));
    e.process_key(Key::Esc);
    assert_eq!(rows_of(&e), vec!["a", "c"]);
}

#[test]
fn search_moves_cursor_and_navigates() {
    let mut e = editor_with(&["hello", "world"], 10, 80);
    e.process_key(Key::Char('/'));
    assert_eq!(e.mode, Mode::Search);
    assert_eq!(e.status_message.text, "/");
    e.process_key(Key::Char('o'));
    assert_eq!(e.cursor_position, at(4, 0));
    assert_eq!(e.status_message.text, "/o");
    assert_eq!(e.document.row(0).unwrap().highlighting()[4], Type::SearchMatch);
    assert!(matches!(e.process_key(Key::Char('\n')), Step::ReadKey));
    e.process_key(Key::Char('n'));
    assert_eq!(e.cursor_position, at(1, 1));
    e.process_key(Key::Char('n'));
    assert_eq!(e.cursor_position, at(1, 1));
    assert_eq!(e.status_message.text, ":o - No results for search");
    e.process_key(Key::Char('N'));
    assert_eq!(e.cursor_position, at(4, 0));
    e.process_key(Key::Esc);
    assert_eq!(e.cursor_position, at(0, 0));
    assert_eq!(e.mode, Mode::Normal);
    assert_eq!(e.document.row(0).unwrap().highlighting()[4], Type::Plain);
}

#[test]
fn search_miss_reports_and_escape_restores() {
    let mut e = editor_with(&["hello"], 10, 80);
    e.cursor_position = at(1, 0);
    e.process_key(Key::Char('/'));
    e.process_key(Key::Char('z'));
    assert_eq!(e.cursor_position, at(1, 0));
    assert_eq!(e.status_message.text, "No results for search: z");
    e.process_key(Key::Backspace);
    assert_eq!(e.status_message.text, "/");
    e.process_key(Key::Char('l'));
    assert_eq!(e.cursor_position, at(2, 0));
    e.process_key(Key::Esc);
    assert_eq!(e.cursor_position, at(1, 0));
    assert_eq!(e.status_message.text, "");
}

#[test]
fn ctrl_q_quits() {
    let mut e = editor_with(&["a"], 10, 80);
    e.process_key(Key::Ctrl('q'));
    assert!(e.should_quit);
}

#[test]
fn status_bar_layout() {
    let mut e = editor_with(&["abc"], 10, 40);
    let bar = e.status_bar();
    assert_eq!(bar, format!("a.txt{} [ Normal ] 1/1", " ".repeat(20)));
    e.document.insert(&at(0, 0), 'x');
    assert_eq!(e.status_bar(), format!("a.txt [+]{} [ Normal ] 1/1", " ".repeat(16)));
    let narrow = editor_with(&["abc"], 10, 8);
    assert_eq!(narrow.status_bar(), "a.txt [ ");
    let unnamed = Editor::new(Document::default(), Size { height: 10, width: 30 }, String::new());
    assert_eq!(unnamed.status_bar(), format!("[No Name]{} [ Normal ] 1/0", " ".repeat(6)));
}

#[test]
fn welcome_message_is_centred() {
    assert_eq!(welcome_message("0.1.0", 40), format!("~{}ggedit v0.1.0", " ".repeat(12)));
    assert_eq!(welcome_message("0.1.0", 5), "~gged");
}

#[test]
fn screen_lines_of_text_area() {
    let e = editor_with(&["ab"], 6, 80);
    assert!(matches!(e.screen_line(0), ScreenLine::Text(ref t) if t == "ab\u{1b}[49m\u{1b}[39m"));
    assert!(matches!(e.screen_line(1), ScreenLine::Filler));
    let empty = Editor::new(Document::default(), Size { height: 6, width: 80 }, String::new());
    assert!(matches!(empty.screen_line(0), ScreenLine::Blank));
    assert!(matches!(empty.screen_line(2), ScreenLine::Welcome));
    assert!(matches!(empty.screen_line(3), ScreenLine::Filler));
}

#[test]
fn draw_row_shows_visible_columns() {
    let mut e = editor_with(&["abcdef"], 10, 3);
    e.offset = at(2, 0);
    let drawn = e.draw_row(e.document.row(0).unwrap());
    assert_eq!(drawn, "cde\u{1b}[49m\u{1b}[39m");
}

#[test]
fn cursor_on_screen_and_message_line() {
    let mut e = editor_with(&["abc"], 10, 4);
    e.cursor_position = at(3, 0);
    e.offset = at(2, 0);
    assert_eq!(e.cursor_on_screen(), Some(at(1, 0)));
    type_text(&mut e, ":abcdef");
    assert_eq!(e.cursor_on_screen(), None);
    assert_eq!(e.message_line(), ":abc");
}

#[test]
fn message_bar_expires() {
    let mut e = editor_with(&["abc"], 10, 4);
    type_text(&mut e, ":abcdef");
    assert_eq!(e.message_bar(0), ":abc");
    assert_eq!(e.message_bar(MESSAGE_LIFETIME_MS - 1), ":abc");
    assert_eq!(e.message_bar(MESSAGE_LIFETIME_MS), "");
    assert_eq!(MESSAGE_LIFETIME_MS, 5000);
}

#[test]
fn mode_names_and_sizes() {
    assert_eq!(Mode::Normal.to_string(), "Normal");
    assert_eq!(Mode::Insert.to_string(), "Insert");
    assert_eq!(Mode::Command.to_string(), "Command");
    assert_eq!(Mode::Search.to_string(), "Search");
    assert_eq!(Size::from_dimensions(80, 24), Size { width: 80, height: 22 });
    assert_eq!(Size::from_dimensions(80, 1), Size { width: 80, height: 0 });
}
