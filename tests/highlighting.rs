use ggedit::{FileType, Rgb, Type};

#[test]
fn colours_of_classes() {
    assert_eq!(Type::SearchMatch.to_bg_color(), Some(Rgb { r: 255, g: 255, b: 0 }));
    assert_eq!(Type::Number.to_bg_color(), None);
    assert_eq!(Type::Plain.to_fg_color(), None);
    assert_eq!(Type::String.to_fg_color(), Some(Rgb { r: 211, g: 54, b: 130 }));
    assert_eq!(Type::Comment.to_fg_color(), Some(Rgb { r: 124, g: 124, b: 124 }));
}

#[test]
fn escape_sequences_of_classes() {
    assert_eq!(Type::Plain.to_string(), "\u{1b}[49m\u{1b}[39m");
    assert_eq!(Type::Number.to_string(), "\u{1b}[49m\u{1b}[38;2;232;165;165m");
    assert_eq!(Type::SearchMatch.to_string(), "\u{1b}[48;2;255;255;0m\u{1b}[38;2;0;0;0m");
}

#[test]
fn file_type_from_name() {
    let rust = FileType::from("main.rs");
    assert_eq!(rust.name(), "Rust");
    assert!(rust.highlight_options().numbers);
    assert!(rust.highlight_options().comments);
    let other = FileType::from("notes.txt");
    assert_eq!(other.name(), "No filetype");
    assert!(!other.highlight_options().strings);
    assert_eq!(FileType::from("rs").name(), "No filetype");
}
