use ggedit::{Document, DocumentError, Position, SearchDirection, Type};

fn doc_of(lines: &[&str]) -> Document {
    let lines: Vec<String> = lines.iter().map(|l| l.to_string()).collect();
    Document::open("a.txt", &lines)
}

fn rows_of(doc: &Document) -> Vec<String> {
    (0..doc.len())
        .map(|y| doc.row(y).unwrap().chars().iter().collect())
        .collect()
}

fn at(x: usize, y: usize) -> Position {
    Position { x, y }
}

#[test]
fn open_builds_clean_named_document() {
    let doc = doc_of(&["one", "two"]);
    assert_eq!(rows_of(&doc), vec!["one", "two"]);
    assert!(!doc.is_dirty());
    assert_eq!(doc.file_name.as_deref(), Some("a.txt"));
    assert_eq!(doc.file_type(), "No filetype");
}

#[test]
fn open_highlights_rows_by_file_type() {
    let lines = vec!["x 1".to_string()];
    let doc = Document::open("m.rs", &lines);
    assert_eq!(doc.file_type(), "Rust");
    assert_eq!(
        doc.row(0).unwrap().highlighting().clone(),
        vec![Type::Plain, Type::Plain, Type::Number]
    );
}

#[test]
fn from_empty_named_is_dirty_and_empty() {
    let doc = Document::from_empty_named("new.rs");
    assert!(doc.is_empty());
    assert!(doc.is_dirty());
    assert_eq!(doc.file_name.as_deref(), Some("new.rs"));
    assert_eq!(doc.file_type(), "Rust");
    let unnamed = Document::from_empty_named("");
    assert_eq!(unnamed.file_name, None);
}

#[test]
fn default_document_is_clean_and_unnamed() {
    let doc = Document::default();
    assert!(doc.is_empty());
    assert!(!doc.is_dirty());
    assert_eq!(doc.file_name, None);
}

#[test]
fn insert_into_row_marks_dirty() {
    let mut doc = doc_of(&["ac"]);
    doc.insert(&at(1, 0), 'b');
    assert_eq!(rows_of(&doc), vec!["abc"]);
    assert!(doc.is_dirty());
}

#[test]
fn insert_at_row_count_appends_row() {
    let mut doc = doc_of(&["a"]);
    doc.insert(&at(7, 1), 'z');
    assert_eq!(rows_of(&doc), vec!["a", "z"]);
}

#[test]
fn insert_past_row_count_is_ignored() {
    let mut doc = doc_of(&["a"]);
    doc.insert(&at(0, 2), 'z');
    assert_eq!(rows_of(&doc), vec!["a"]);
    assert!(!doc.is_dirty());
}

#[test]
fn insert_line_break_splits_row() {
    let mut doc = doc_of(&["hello"]);
    doc.insert(&at(2, 0), '\n');
    assert_eq!(rows_of(&doc), vec!["he", "llo"]);
    assert!(doc.is_dirty());
}

#[test]
fn insert_newline_marks_dirty() {
    let mut doc = Document::default();
    doc.insert_newline(&at(0, 0));
    assert!(doc.is_dirty());
    let mut split = doc_of(&["ab"]);
    split.insert_newline(&at(1, 0));
    assert!(split.is_dirty());
    let mut past = doc_of(&["ab"]);
    past.insert_newline(&at(0, 5));
    assert!(!past.is_dirty());
}

#[test]
fn save_as_other_name_after_success_keeps_changes() {
    let mut doc = doc_of(&["abc"]);
    doc.insert(&at(0, 0), 'x');
    assert!(doc.save_as(Some("c.txt"), Ok(())).is_ok());
    assert!(doc.is_dirty());
    assert_eq!(doc.file_name.as_deref(), Some("a.txt"));
}

#[test]
fn insert_newline_cases() {
    let mut doc = doc_of(&["ab"]);
    doc.insert_newline(&at(2, 0));
    assert_eq!(rows_of(&doc), vec!["ab", ""]);
    doc.insert_newline(&at(0, 2));
    assert_eq!(rows_of(&doc), vec!["ab", "", ""]);
    doc.insert_newline(&at(0, 9));
    assert_eq!(rows_of(&doc), vec!["ab", "", ""]);
}

#[test]
fn delete_at_end_of_row_joins_next() {
    let mut doc = doc_of(&["ab", "cd"]);
    doc.delete(&at(2, 0));
    assert_eq!(rows_of(&doc), vec!["abcd"]);
    assert!(doc.is_dirty());
}

#[test]
fn delete_inside_row_and_out_of_range() {
    let mut doc = doc_of(&["abc"]);
    doc.delete(&at(0, 0));
    assert_eq!(rows_of(&doc), vec!["bc"]);
    doc.delete(&at(2, 0));
    assert_eq!(rows_of(&doc), vec!["bc"]);
    let mut clean = doc_of(&["abc"]);
    clean.delete(&at(0, 1));
    assert!(!clean.is_dirty());
}

#[test]
fn delete_line_removes_row() {
    let mut doc = doc_of(&["a", "b", "c"]);
    doc.delete_line(&at(0, 1));
    assert_eq!(rows_of(&doc), vec!["a", "c"]);
    doc.delete_line(&at(0, 5));
    assert_eq!(rows_of(&doc), vec!["a", "c"]);
}

#[test]
fn insert_then_delete_restores_rows() {
    for c in ['x', '\n'] {
        for x in 0..=3 {
            let mut doc = doc_of(&["abc", "de"]);
            doc.insert(&at(x, 0), c);
            doc.delete(&at(x, 0));
            assert_eq!(rows_of(&doc), vec!["abc", "de"]);
        }
    }
}

#[test]
fn find_in_single_row() {
    let doc = doc_of(&["hello"]);
    assert_eq!(doc.find("l", &at(0, 0), SearchDirection::Forward), Some(at(2, 0)));
    assert_eq!(doc.find("l", &at(3, 0), SearchDirection::Forward), Some(at(3, 0)));
    assert_eq!(doc.find("l", &at(4, 0), SearchDirection::Forward), None);
}

#[test]
fn find_crosses_rows_without_wrapping() {
    let doc = doc_of(&["ab", "xb", "b"]);
    assert_eq!(doc.find("b", &at(2, 0), SearchDirection::Forward), Some(at(1, 1)));
    assert_eq!(doc.find("x", &at(0, 2), SearchDirection::Forward), None);
    assert_eq!(doc.find("a", &at(0, 2), SearchDirection::Backward), Some(at(0, 0)));
    assert_eq!(doc.find("b", &at(0, 1), SearchDirection::Backward), Some(at(1, 0)));
    assert_eq!(doc.find("b", &at(0, 3), SearchDirection::Forward), None);
}

#[test]
fn find_result_stays_in_bounds() {
    let doc = doc_of(&["aa", "", "a"]);
    for y in 0..4 {
        for x in 0..4 {
            for dir in [SearchDirection::Forward, SearchDirection::Backward] {
                for q in ["a", "", "aa"] {
                    if let Some(p) = doc.find(q, &at(x, y), dir) {
                        assert!(p.y < doc.len());
                        assert!(p.x <= doc.row(p.y).unwrap().len());
                    }
                }
            }
        }
    }
}

#[test]
fn size_in_bytes_counts_terminators() {
    let doc = doc_of(&["abc", "", "héllo"]);
    assert_eq!(doc.size_in_bytes(), 4 + 1 + 6);
    assert_eq!(Document::default().size_in_bytes(), 0);
}

#[test]
fn contents_ends_each_row_with_line_feed() {
    let doc = doc_of(&["ab", "", "c"]);
    assert_eq!(doc.contents(), "ab\n\nc\n");
}

#[test]
fn highlight_with_word_marks_matches_in_all_rows() {
    let mut doc = doc_of(&["ab", "b"]);
    doc.highlight(Some("b"));
    assert_eq!(doc.row(1).unwrap().highlighting().clone(), vec![Type::SearchMatch]);
    doc.highlight(None);
    assert_eq!(doc.row(1).unwrap().highlighting().clone(), vec![Type::Plain]);
}

#[test]
fn save_as_other_name_keeps_current_name() {
    let mut doc = doc_of(&["abc"]);
    doc.insert(&at(0, 0), 'x');
    assert_eq!(doc.save_target(Some("b.txt")).unwrap(), "b.txt");
    let r = doc.save_as(Some("b.txt"), Ok(()));
    assert_eq!(r.unwrap(), "\"b.txt\" 1L, 5B written");
    assert_eq!(doc.file_name.as_deref(), Some("a.txt"));
    assert!(doc.is_dirty());
}

#[test]
fn save_as_own_name_marks_clean() {
    let mut doc = doc_of(&["abc"]);
    doc.insert(&at(0, 0), 'x');
    let r = doc.save_as(Some("a.txt"), Ok(()));
    assert_eq!(r.unwrap(), "\"a.txt\" 1L, 5B written");
    assert!(!doc.is_dirty());
}

#[test]
fn save_without_name_uses_document_name() {
    let mut doc = doc_of(&["abc", "d"]);
    doc.insert(&at(0, 0), 'x');
    assert_eq!(doc.save_target(None).unwrap(), "a.txt");
    let r = doc.save_as(None, Ok(()));
    assert_eq!(r.unwrap(), "\"a.txt\" 2L, 7B written");
    assert!(!doc.is_dirty());
}

#[test]
fn save_names_an_unnamed_document() {
    let mut doc = Document::from_empty_named("");
    doc.insert(&at(0, 0), 'a');
    let r = doc.save_as(Some("n.rs"), Ok(()));
    assert_eq!(r.unwrap(), "\"n.rs\" 1L, 2B written");
    assert_eq!(doc.file_name.as_deref(), Some("n.rs"));
    assert_eq!(doc.file_type(), "Rust");
    assert!(!doc.is_dirty());
}

#[test]
fn save_of_empty_clean_document_is_refused() {
    let mut doc = Document::default();
    let r = doc.save_as(Some("x.txt"), Ok(()));
    assert!(matches!(r, Err(DocumentError::EmptyDocument)));
    assert_eq!(doc.file_name, None);
    assert!(matches!(doc.save_target(None), Err(DocumentError::EmptyDocument)));
    assert_eq!(DocumentError::EmptyDocument.message(), "Document is empty");
}

#[test]
fn save_without_any_name_fails() {
    let mut doc = Document::from_empty_named("");
    let r = doc.save_as(None, Ok(()));
    assert!(matches!(r, Err(DocumentError::NoFileName)));
    assert!(doc.is_dirty());
    assert_eq!(DocumentError::NoFileName.message(), "Document has no file name");
}

#[test]
fn save_reports_write_failure() {
    let mut doc = doc_of(&["abc"]);
    doc.insert(&at(0, 0), 'x');
    let r = doc.save_as(None, Err("disk full".to_string()));
    match r {
        Err(DocumentError::Io(m)) => assert_eq!(m, "disk full"),
        _ => panic!("expected an I/O error"),
    }
    assert!(doc.is_dirty());
}

#[test]
fn save_clears_changed_state() {
    let mut doc = doc_of(&["ab"]);
    doc.insert(&at(0, 0), 'x');
    assert!(doc.save(Err("denied".to_string())).is_err());
    assert!(doc.is_dirty());
    assert_eq!(doc.save(Ok(())).unwrap(), "\"a.txt\" 1L, 4B written");
    assert!(!doc.is_dirty());
    let mut unnamed = Document::from_empty_named("");
    assert!(matches!(unnamed.save(Ok(())), Err(DocumentError::NoFileName)));
}

#[test]
fn failed_save_under_own_name_keeps_changes() {
    let mut doc = doc_of(&["abc"]);
    doc.insert(&at(0, 0), 'x');
    assert!(doc.save_as(Some("a.txt"), Err("denied".to_string())).is_err());
    assert!(doc.is_dirty());
    let mut unnamed = Document::from_empty_named("");
    unnamed.insert(&at(0, 0), 'a');
    assert!(unnamed.save_as(Some("n.txt"), Err("denied".to_string())).is_err());
    assert!(unnamed.is_dirty());
    assert_eq!(unnamed.file_name.as_deref(), Some("n.txt"));
}
