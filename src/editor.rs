use vstd::prelude::*;
use crate::document::{
    doc_delete, doc_delete_line, doc_has_match, doc_insert, error_text, is_doc_match, name_view,
    save_as_post, str_view, Document, DocumentError,
};
use crate::position::{Position, SearchDirection};
use crate::row::highlight_of;
use crate::text::{extend_chars, push_str, split_words, string_of, words};
use crate::terminal::Size;

verus! {

/// A key press, as the terminal reports it.
#[derive(Debug, Clone, Copy, PartialEq, Eq, Structural)]
pub enum Key {
    Char(char),
    Ctrl(char),
    Up,
    Down,
    Left,
    Right,
    PageUp,
    PageDown,
    Home,
    End,
    Backspace,
    Delete,
    Esc,
    Other,
}

/// How key presses are read.
#[derive(Debug, Clone, Copy, PartialEq, Eq, Structural)]
pub enum Mode {
    Normal,
    Insert,
    Command,
    Search,
}

/// The name a mode shows in the status bar.
pub open spec fn mode_name(m: Mode) -> Seq<char> {
    match m {
        Mode::Normal => "Normal"@,
        Mode::Insert => "Insert"@,
        Mode::Command => "Command"@,
        Mode::Search => "Search"@,
    }
}

impl Mode {
    /// The name of the mode.
    pub fn to_string(&self) -> (r: String)
        ensures
            r@ == mode_name(*self),
    {
        match self {
            Mode::Normal => String::from_str("Normal"),
            Mode::Insert => String::from_str("Insert"),
            Mode::Command => String::from_str("Command"),
            Mode::Search => String::from_str("Search"),
        }
    }
}

/// `std::time::Instant`, carried unopened: it only dates the message bar.
#[verifier::external_type_specification]
#[verifier::external_body]
pub struct ExInstant(std::time::Instant);

/// Relies on `Instant::now`: the current time; nothing is assumed of its value.
#[verifier::external_body]
fn now() -> (r: std::time::Instant) {
    std::time::Instant::now()
}

/// The text of the message bar and when it was set.
pub struct StatusMessage {
    pub text: String,
    pub time: std::time::Instant,
}

impl StatusMessage {
    /// A message set now.
    pub fn from(message: String) -> (r: StatusMessage)
        ensures
            r.text@ == message@,
    {
        StatusMessage { time: now(), text: message }
    }
}

/// The length of row `y`, or 0 past the last row.
pub open spec fn row_len(rows: Seq<Seq<char>>, y: int) -> int {
    if 0 <= y < rows.len() {
        rows[y].len() as int
    } else {
        0
    }
}

/// The column and row a movement key leads to, before clamping the column.
pub open spec fn move_target(rows: Seq<Seq<char>>, c: Position, key: Key, page: int) -> (int, int) {
    let h = rows.len() as int;
    let x = c.x as int;
    let y = c.y as int;
    let w = row_len(rows, y);
    match key {
        Key::Up | Key::Char('k') => (x, if y > 0 { y - 1 } else { 0 }),
        Key::Down | Key::Char('j') => (x, if y < h { y + 1 } else { y }),
        Key::Left | Key::Char('h') | Key::Backspace => if x > 0 {
            (x - 1, y)
        } else if y > 0 {
            (row_len(rows, y - 1), y - 1)
        } else {
            (x, y)
        },
        Key::Right | Key::Char('l') => if x < w {
            (x + 1, y)
        } else if y < h {
            (0, y + 1)
        } else {
            (x, y)
        },
        Key::PageUp => (x, if y > page { y - page } else { 0 }),
        Key::PageDown => (x, if y + page < h { y + page } else { h }),
        Key::Home | Key::Char('0') => (0, y),
        Key::End | Key::Char('$') => (w, y),
        _ => (x, y),
    }
}

/// Where the cursor at `c` goes on `key`: up and down by a row within
/// `[0, row count]`, left and right across row ends, by a page of `page` rows,
/// or to either end of the row; the column is then clamped to the row's length.
pub open spec fn moved(rows: Seq<Seq<char>>, c: Position, key: Key, page: int) -> Position {
    let (x, y) = move_target(rows, c, key, page);
    Position {
        x: (if x > row_len(rows, y) {
            row_len(rows, y)
        } else {
            x
        }) as usize,
        y: y as usize,
    }
}

/// The offset along one axis that keeps `c` within a window of `n` cells:
/// unchanged where `c` is already in view, else scrolled by just enough.
pub open spec fn scroll_axis(c: int, off: int, n: int) -> int {
    if c < off {
        c
    } else if c >= off + n {
        if c - n + 1 <= usize::MAX {
            c - n + 1
        } else {
            usize::MAX as int
        }
    } else {
        off
    }
}

/// The offset after scrolling the view at `offset` to show `cursor`.
pub open spec fn scrolled(cursor: Position, offset: Position, size: Size) -> Position {
    Position {
        x: scroll_axis(cursor.x as int, offset.x as int, size.width as int) as usize,
        y: scroll_axis(cursor.y as int, offset.y as int, size.height as int) as usize,
    }
}

/// What the editor waits for besides an ordinary key.
#[derive(Debug, Clone, Copy, PartialEq, Eq, Structural)]
pub enum Pending {
    /// Nothing: the key is read in the current mode.
    Nothing,
    /// The second key of a line deletion.
    SecondDeleteKey,
    /// A key that moves between search results.
    SearchNavigation,
}

/// What the caller does after a key: draw the screen, or read the next key
/// at once, or write the document to a file and report through `complete_save`.
pub enum Step {
    Render,
    ReadKey,
    Save(SaveRequest),
}

/// Which command asked for a save.
#[derive(Debug, Clone, Copy, PartialEq, Eq, Structural)]
pub enum SaveCommand {
    /// `w`: save and stay.
    Write,
    /// `wq`: save and quit.
    WriteQuit,
}

/// A save to carry out: write `Document::contents` to `path`, then hand the
/// result to `Editor::complete_save` with `name` and `command`.
pub struct SaveRequest {
    pub path: String,
    pub name: Option<String>,
    pub command: SaveCommand,
}

/// The keys that move the cursor in Normal mode.
pub open spec fn is_motion(key: Key) -> bool {
    match key {
        Key::Up | Key::Down | Key::Left | Key::Right | Key::PageUp | Key::PageDown | Key::Home
        | Key::End | Key::Backspace => true,
        Key::Char(c) => c == 'h' || c == 'j' || c == 'k' || c == 'l' || c == '0' || c == '$',
        _ => false,
    }
}

/// `s` without its last character, if it has one.
pub open spec fn drop_last_char(s: Seq<char>) -> Seq<char> {
    if s.len() > 0 {
        s.drop_last()
    } else {
        s
    }
}

/// The warning of a plain quit with unsaved changes.
pub open spec fn unsaved_warning() -> Seq<char> {
    "File has unsaved changes. Use :wq to save and quit, or :q! to quit without saving."@
}

/// The report of an unknown command.
pub open spec fn unrecognized(word: Seq<char>) -> Seq<char> {
    "Unrecognized command: "@ + word
}

/// The report of a search term that has no match.
pub open spec fn no_results(q: Seq<char>) -> Seq<char> {
    "No results for search: "@ + q
}

/// The report of a step between search results that finds none.
pub open spec fn no_more_results(q: Seq<char>) -> Seq<char> {
    seq![':'] + q + " - No results for search"@
}

/// How a save command reports a failed save.
pub open spec fn save_error_text(command: SaveCommand, e: Seq<char>) -> Seq<char> {
    match command {
        SaveCommand::Write => "Error writing file: "@ + e,
        SaveCommand::WriteQuit => e,
    }
}

/// How a save command reports the result of a save.
pub open spec fn save_report(command: SaveCommand, r: Result<String, DocumentError>) -> Seq<char> {
    match r {
        Ok(m) => m@,
        Err(e) => save_error_text(command, error_text(e)),
    }
}

/// `b` holds the rows `rows`, and is changed where `a` was or where `touched`.
pub open spec fn doc_edited(a: Document, b: Document, rows: Seq<Seq<char>>, touched: bool) -> bool {
    &&& b@ == rows
    &&& b.is_dirty_spec() == (a.is_dirty_spec() || touched)
    &&& b.name_spec() == a.name_spec()
    &&& b.options() == a.options()
    &&& b.kind_spec() == a.kind_spec()
}

/// `b` is `a` with every row recoloured, marking the occurrences of `word`.
pub open spec fn recoloured(a: Document, b: Document, word: Option<Seq<char>>) -> bool {
    &&& doc_edited(a, b, a@, false)
    &&& forall|y: int| 0 <= y < b@.len() ==> #[trigger] b.row_classes(y) == highlight_of(b@[y], b.options(), word)
}

/// The command buffer, the search start and the message are as they were.
pub open spec fn keeps_text(o: Editor, n: Editor) -> bool {
    &&& n.command_buffer@ == o.command_buffer@
    &&& n.position_buffer == o.position_buffer
    &&& n.status_message == o.status_message
}

/// Nothing but the view offset may have changed.
pub open spec fn keeps_all(o: Editor, n: Editor) -> bool {
    &&& n.mode == o.mode
    &&& n.should_quit == o.should_quit
    &&& n.cursor_position == o.cursor_position
    &&& n.document == o.document
    &&& keeps_text(o, n)
}

/// Entering Normal mode empties the command buffer and the message.
pub open spec fn back_to_normal(n: Editor) -> bool {
    &&& n.mode == Mode::Normal
    &&& n.command_buffer@.len() == 0
    &&& n.status_message.text@.len() == 0
}

/// A key in Normal mode.
pub open spec fn normal_key_post(o: Editor, n: Editor, key: Key, r: Step) -> bool {
    let rows = o.document@;
    let page = o.terminal_size.height as int;
    if key == Key::Char('d') {
        &&& r is ReadKey
        &&& n.pending == Pending::SecondDeleteKey
        &&& n.offset == o.offset
        &&& keeps_all(o, n)
    } else {
        &&& r is Render
        &&& n.pending == Pending::Nothing
        &&& n.offset == scrolled(n.cursor_position, o.offset, o.terminal_size)
        &&& match key {
            Key::Char('i') => n.mode == Mode::Insert && n.cursor_position == o.cursor_position
                && n.document == o.document && n.should_quit == o.should_quit && keeps_text(o, n),
            Key::Char('a') => n.mode == Mode::Insert && n.cursor_position == moved(rows, o.cursor_position, Key::Right, page)
                && n.document == o.document && n.should_quit == o.should_quit && keeps_text(o, n),
            Key::Char(':') => n.mode == Mode::Command && n.command_buffer@.len() == 0
                && n.status_message.text@ == seq![':'] && n.position_buffer == o.position_buffer
                && n.cursor_position == o.cursor_position && n.document == o.document && n.should_quit == o.should_quit,
            Key::Char('/') => n.mode == Mode::Search && n.command_buffer@.len() == 0
                && n.status_message.text@ == seq!['/'] && n.position_buffer == o.cursor_position
                && n.cursor_position == o.cursor_position && n.document == o.document && n.should_quit == o.should_quit,
            Key::Char('o') => {
                let c1 = moved(rows, o.cursor_position, Key::End, page);
                &&& n.mode == Mode::Insert
                &&& doc_edited(o.document, n.document, doc_insert(rows, c1, '\n'), c1.y <= rows.len())
                &&& n.cursor_position == moved(n.document@, c1, Key::Down, page)
                &&& n.should_quit == o.should_quit
                &&& keeps_text(o, n)
            },
            Key::Char('O') => {
                let c1 = moved(rows, o.cursor_position, Key::Home, page);
                &&& n.mode == Mode::Insert
                &&& doc_edited(o.document, n.document, doc_insert(rows, c1, '\n'), c1.y <= rows.len())
                &&& n.cursor_position == c1
                &&& n.should_quit == o.should_quit
                &&& keeps_text(o, n)
            },
            Key::Ctrl('q') => n.should_quit && n.mode == o.mode && n.cursor_position == o.cursor_position
                && n.document == o.document && keeps_text(o, n),
            _ => n.mode == o.mode && n.should_quit == o.should_quit && n.document == o.document
                && keeps_text(o, n) && n.cursor_position == if is_motion(key) {
                    moved(rows, o.cursor_position, key, page)
                } else {
                    o.cursor_position
                },
        }
    }
}

/// A key in Insert mode.
pub open spec fn insert_key_post(o: Editor, n: Editor, key: Key, r: Step) -> bool {
    let rows = o.document@;
    let page = o.terminal_size.height as int;
    let c0 = o.cursor_position;
    &&& r is Render
    &&& n.pending == Pending::Nothing
    &&& n.offset == scrolled(n.cursor_position, o.offset, o.terminal_size)
    &&& n.should_quit == o.should_quit
    &&& n.position_buffer == o.position_buffer
    &&& match key {
        Key::Esc => back_to_normal(n) && n.cursor_position == moved(rows, c0, Key::Left, page)
            && n.document == o.document,
        Key::Up | Key::Down | Key::Left | Key::Right => n.mode == o.mode && n.cursor_position == moved(rows, c0, key, page)
            && n.document == o.document && keeps_text(o, n),
        Key::Char(c) => n.mode == o.mode && keeps_text(o, n)
            && doc_edited(o.document, n.document, doc_insert(rows, c0, c), c0.y <= rows.len())
            && n.cursor_position == moved(n.document@, c0, Key::Right, page),
        Key::Delete => n.mode == o.mode && keeps_text(o, n) && n.cursor_position == c0
            && doc_edited(o.document, n.document, doc_delete(rows, c0), c0.y < rows.len()),
        Key::Backspace => n.mode == o.mode && keeps_text(o, n) && if c0.x > 0 || c0.y > 0 {
            let c1 = moved(rows, c0, Key::Left, page);
            n.cursor_position == c1 && doc_edited(o.document, n.document, doc_delete(rows, c1), c1.y < rows.len())
        } else {
            n.cursor_position == c0 && n.document == o.document
        },
        _ => keeps_all(o, n),
    }
}

/// The first word of the command line in `buffer`, or nothing.
pub open spec fn command_head(buffer: Seq<char>) -> Seq<char> {
    let w = words(buffer);
    if w.len() > 0 {
        w[0]
    } else {
        Seq::empty()
    }
}

/// The first word ends in `!`, which forces a quit.
pub open spec fn is_forced(buffer: Seq<char>) -> bool {
    let h = command_head(buffer);
    h.len() > 0 && h.last() == '!'
}

/// The first word without a trailing `!`: the command to run.
pub open spec fn command_name(buffer: Seq<char>) -> Seq<char> {
    if is_forced(buffer) {
        command_head(buffer).drop_last()
    } else {
        command_head(buffer)
    }
}

/// The second word, if any: the file to save to.
pub open spec fn command_arg(buffer: Seq<char>) -> Option<Seq<char>> {
    let w = words(buffer);
    if w.len() > 1 {
        Some(w[1])
    } else {
        None
    }
}

/// The effect of running the command line of `o` (the buffer, the mode and the
/// view are dealt with by `command_key_post`).
pub open spec fn command_post(o: Editor, n: Editor, r: Step) -> bool {
    let buffer = o.command_buffer@;
    let name = command_name(buffer);
    let arg = command_arg(buffer);
    if name == seq!['q'] {
        &&& r is Render
        &&& n.document == o.document
        &&& if o.document.is_dirty_spec() && !is_forced(buffer) {
            n.should_quit == o.should_quit && n.status_message.text@ == unsaved_warning()
        } else {
            n.should_quit && n.status_message == o.status_message
        }
    } else if name == seq!['w'] || name == seq!['w', 'q'] {
        let command = if name == seq!['w'] {
            SaveCommand::Write
        } else {
            SaveCommand::WriteQuit
        };
        &&& n.document == o.document
        &&& n.should_quit == (o.should_quit || command == SaveCommand::WriteQuit)
        &&& if o.document.nothing_to_save() {
            r is Render && n.status_message.text@ == save_error_text(command, error_text(DocumentError::EmptyDocument))
        } else if o.document.target_spec(arg) is None {
            r is Render && n.status_message.text@ == save_error_text(command, error_text(DocumentError::NoFileName))
        } else {
            &&& r is Save
            &&& Some(r->Save_0.path@) == o.document.target_spec(arg)
            &&& name_view(r->Save_0.name) == arg
            &&& r->Save_0.command == command
            &&& n.status_message == o.status_message
        }
    } else {
        &&& r is Render
        &&& n.document == o.document
        &&& n.should_quit == o.should_quit
        &&& n.status_message.text@ == unrecognized(command_head(buffer))
    }
}

/// A key in Command mode.
pub open spec fn command_key_post(o: Editor, n: Editor, key: Key, r: Step) -> bool {
    &&& n.pending == Pending::Nothing
    &&& n.position_buffer == o.position_buffer
    &&& n.cursor_position == o.cursor_position
    &&& n.offset == scrolled(o.cursor_position, o.offset, o.terminal_size)
    &&& match key {
        Key::Backspace => r is Render && n.mode == o.mode && n.command_buffer@ == drop_last_char(o.command_buffer@)
            && n.status_message.text@ == seq![':'] + n.command_buffer@ && n.document == o.document
            && n.should_quit == o.should_quit,
        Key::Esc => r is Render && back_to_normal(n) && n.document == o.document && n.should_quit == o.should_quit,
        Key::Char('\n') => n.mode == Mode::Normal && n.command_buffer@.len() == 0 && command_post(o, n, r),
        Key::Char(c) => r is Render && n.mode == o.mode && n.command_buffer@ == o.command_buffer@.push(c)
            && n.status_message.text@ == seq![':'] + n.command_buffer@ && n.document == o.document
            && n.should_quit == o.should_quit,
        _ => r is Render && keeps_all(o, n),
    }
}

/// A key in Search mode.
pub open spec fn search_key_post(o: Editor, n: Editor, key: Key, r: Step) -> bool {
    let rows = o.document@;
    &&& n.should_quit == o.should_quit
    &&& n.position_buffer == o.position_buffer
    &&& if key == Key::Char('\n') {
        &&& r is ReadKey
        &&& n.pending == Pending::SearchNavigation
        &&& n.offset == o.offset
        &&& keeps_all(o, n)
    } else {
        &&& r is Render
        &&& n.pending == Pending::Nothing
        &&& n.offset == scrolled(n.cursor_position, o.offset, o.terminal_size)
        &&& match key {
            Key::Backspace => {
                let q = drop_last_char(o.command_buffer@);
                &&& n.mode == o.mode
                &&& n.command_buffer@ == q
                &&& n.document == o.document
                &&& n.status_message.text@ == seq!['/'] + q
                &&& if doc_has_match(rows, q, o.cursor_position, SearchDirection::Forward) {
                    is_doc_match(rows, q, o.cursor_position, SearchDirection::Forward, n.cursor_position)
                } else {
                    n.cursor_position == o.cursor_position
                }
            },
            Key::Esc => back_to_normal(n) && n.cursor_position == o.position_buffer
                && recoloured(o.document, n.document, None),
            Key::Char(c) => {
                let q = o.command_buffer@.push(c);
                &&& n.mode == o.mode
                &&& n.command_buffer@ == q
                &&& if doc_has_match(rows, q, o.position_buffer, SearchDirection::Forward) {
                    &&& is_doc_match(rows, q, o.position_buffer, SearchDirection::Forward, n.cursor_position)
                    &&& n.status_message.text@ == seq!['/'] + q
                    &&& recoloured(o.document, n.document, Some(q))
                } else {
                    &&& n.cursor_position == o.cursor_position
                    &&& n.status_message.text@ == no_results(q)
                    &&& n.document == o.document
                }
            },
            _ => keeps_all(o, n),
        }
    }
}

/// The second key of a line deletion.
pub open spec fn delete_key_post(o: Editor, n: Editor, key: Key, r: Step) -> bool {
    &&& n.mode == o.mode
    &&& n.should_quit == o.should_quit
    &&& n.cursor_position == o.cursor_position
    &&& keeps_text(o, n)
    &&& match key {
        Key::Char('d') => r is Render && n.pending == Pending::Nothing
            && n.offset == scrolled(o.cursor_position, o.offset, o.terminal_size)
            && doc_edited(o.document, n.document, doc_delete_line(o.document@, o.cursor_position), o.cursor_position.y < o.document@.len()),
        Key::Char('w') | Key::Esc => r is Render && n.pending == Pending::Nothing
            && n.offset == scrolled(o.cursor_position, o.offset, o.terminal_size) && n.document == o.document,
        _ => r is ReadKey && n.pending == Pending::SecondDeleteKey && n.offset == o.offset && n.document == o.document,
    }
}

/// A key while moving between search results: `n` to the next match, `N` to
/// the previous one, escape back to where the search started.
pub open spec fn navigation_key_post(o: Editor, n: Editor, key: Key, r: Step) -> bool {
    let rows = o.document@;
    let page = o.terminal_size.height as int;
    &&& r is Render
    &&& n.should_quit == o.should_quit
    &&& n.position_buffer == o.position_buffer
    &&& match key {
        Key::Esc => n.pending == Pending::Nothing && back_to_normal(n) && n.cursor_position == o.position_buffer
            && n.offset == scrolled(o.position_buffer, o.offset, o.terminal_size)
            && recoloured(o.document, n.document, None),
        Key::Char('n') | Key::Char('N') => {
            let back = key == Key::Char('N');
            let direction = if back {
                SearchDirection::Backward
            } else {
                SearchDirection::Forward
            };
            let start = moved(rows, o.cursor_position, if back { Key::Left } else { Key::Right }, page);
            let q = o.command_buffer@;
            &&& n.pending == Pending::SearchNavigation
            &&& n.mode == o.mode
            &&& n.command_buffer@ == q
            &&& n.document == o.document
            &&& if doc_has_match(rows, q, start, direction) {
                &&& is_doc_match(rows, q, start, direction, n.cursor_position)
                &&& n.offset == scrolled(n.cursor_position, o.offset, o.terminal_size)
                &&& n.status_message.text@ == seq!['/'] + q
            } else {
                &&& n.cursor_position == o.cursor_position
                &&& n.offset == o.offset
                &&& n.status_message.text@ == no_more_results(q)
            }
        },
        _ => n.pending == Pending::SearchNavigation && n.offset == o.offset && keeps_all(o, n),
    }
}

/// The cursor's cell lies within the view, on each axis where the view has cells.
pub open spec fn cursor_in_view(e: Editor) -> bool {
    &&& e.terminal_size.height > 0 ==> e.offset.y <= e.cursor_position.y < e.offset.y
        + e.terminal_size.height
    &&& e.terminal_size.width > 0 ==> e.offset.x <= e.cursor_position.x < e.offset.x
        + e.terminal_size.width
}

/// What a key does, by what the editor waits for and its mode. A cursor in
/// view stays in view.
pub open spec fn key_post(o: Editor, n: Editor, key: Key, r: Step) -> bool {
    &&& n.terminal_size == o.terminal_size
    &&& cursor_in_view(o) ==> cursor_in_view(n)
    &&& o.document.wf() ==> n.document.wf()
    &&& match o.pending {
        Pending::SecondDeleteKey => delete_key_post(o, n, key, r),
        Pending::SearchNavigation => navigation_key_post(o, n, key, r),
        Pending::Nothing => match o.mode {
            Mode::Normal => normal_key_post(o, n, key, r),
            Mode::Insert => insert_key_post(o, n, key, r),
            Mode::Command => command_key_post(o, n, key, r),
            Mode::Search => search_key_post(o, n, key, r),
        },
    }
}

/// The editor: the document, the cursor and view, the mode and its buffers.
pub struct Editor {
    pub should_quit: bool,
    pub terminal_size: Size,
    pub cursor_position: Position,
    pub offset: Position,
    pub document: Document,
    pub status_message: StatusMessage,
    pub mode: Mode,
    pub command_buffer: Vec<char>,
    pub position_buffer: Position,
    pub pending: Pending,
}

impl Editor {
    /// An editor on `document` in Normal mode, cursor and view at the origin.
    pub fn new(document: Document, terminal_size: Size, initial_status: String) -> (r: Editor)
        ensures
            !r.should_quit,
            r.terminal_size == terminal_size,
            r.cursor_position == (Position { x: 0, y: 0 }),
            r.offset == (Position { x: 0, y: 0 }),
            r.document == document,
            r.status_message.text@ == initial_status@,
            r.mode == Mode::Normal,
            r.command_buffer@.len() == 0,
            r.position_buffer == (Position { x: 0, y: 0 }),
            document.wf() ==> r.document.wf(),
            cursor_in_view(r),
            r.pending == Pending::Nothing,
    {
        Editor {
            should_quit: false,
            terminal_size,
            cursor_position: Position { x: 0, y: 0 },
            offset: Position { x: 0, y: 0 },
            document,
            status_message: StatusMessage::from(initial_status),
            mode: Mode::Normal,
            command_buffer: Vec::new(),
            position_buffer: Position { x: 0, y: 0 },
            pending: Pending::Nothing,
        }
    }

    /// Scrolls the view just enough to show the cursor.
    pub fn scroll(&mut self)
        ensures
            final(self).offset == scrolled(old(self).cursor_position, old(self).offset, old(self).terminal_size),
            final(self).cursor_position == old(self).cursor_position,
            final(self).terminal_size == old(self).terminal_size,
            old(self).terminal_size.height > 0 ==> final(self).offset.y <= final(self).cursor_position.y
                < final(self).offset.y + final(self).terminal_size.height,
            old(self).terminal_size.width > 0 ==> final(self).offset.x <= final(self).cursor_position.x
                < final(self).offset.x + final(self).terminal_size.width,
            final(self).document == old(self).document,
            final(self).mode == old(self).mode,
            final(self).pending == old(self).pending,
            final(self).should_quit == old(self).should_quit,
            final(self).command_buffer == old(self).command_buffer,
            final(self).position_buffer == old(self).position_buffer,
            final(self).status_message == old(self).status_message,
    {
        let x = self.cursor_position.x;
        let y = self.cursor_position.y;
        let width = self.terminal_size.width as usize;
        let height = self.terminal_size.height as usize;
        if y < self.offset.y {
            self.offset.y = y;
        } else if y - self.offset.y >= height {
            self.offset.y = (y - height).saturating_add(1);
        }
        if x < self.offset.x {
            self.offset.x = x;
        } else if x - self.offset.x >= width {
            self.offset.x = (x - width).saturating_add(1);
        }
    }

    /// Shows `text` in the message bar.
    fn set_status(&mut self, text: &Vec<char>)
        ensures
            final(self).status_message.text@ == text@,
            final(self).should_quit == old(self).should_quit,
            final(self).terminal_size == old(self).terminal_size,
            final(self).cursor_position == old(self).cursor_position,
            final(self).offset == old(self).offset,
            final(self).document == old(self).document,
            final(self).mode == old(self).mode,
            final(self).command_buffer == old(self).command_buffer,
            final(self).position_buffer == old(self).position_buffer,
            final(self).pending == old(self).pending,
    {
        self.status_message = StatusMessage::from(string_of(text));
    }

    /// Enters Normal mode: empties the command buffer and the message.
    fn enter_normal(&mut self)
        ensures
            back_to_normal(*final(self)),
            final(self).should_quit == old(self).should_quit,
            final(self).terminal_size == old(self).terminal_size,
            final(self).cursor_position == old(self).cursor_position,
            final(self).offset == old(self).offset,
            final(self).document == old(self).document,
            final(self).position_buffer == old(self).position_buffer,
            final(self).pending == old(self).pending,
    {
        self.command_buffer = Vec::new();
        self.set_status(&Vec::new());
        self.mode = Mode::Normal;
    }

    /// The second key of a line deletion.
    fn delete_key(&mut self, key: Key) -> (r: Step)
        requires
            old(self).pending == Pending::SecondDeleteKey,
        ensures
            key_post(*old(self), *final(self), key, r),
    {
        match key {
            Key::Char('d') => {
                self.document.delete_line(&self.cursor_position);
                self.pending = Pending::Nothing;
                self.scroll();
                Step::Render
            },
            Key::Char('w') | Key::Esc => {
                self.pending = Pending::Nothing;
                self.scroll();
                Step::Render
            },
            _ => Step::ReadKey,
        }
    }

    /// A key in Normal mode.
    fn normal_key(&mut self, key: Key) -> (r: Step)
        requires
            old(self).pending == Pending::Nothing,
            old(self).mode == Mode::Normal,
        ensures
            key_post(*old(self), *final(self), key, r),
    {
        match key {
            Key::Char('d') => {
                self.pending = Pending::SecondDeleteKey;
                return Step::ReadKey;
            },
            Key::Char('i') => {
                self.mode = Mode::Insert;
            },
            Key::Char('a') => {
                self.move_cursor(Key::Right);
                self.mode = Mode::Insert;
            },
            Key::Char(':') => {
                self.command_buffer = Vec::new();
                let mut t: Vec<char> = Vec::new();
                t.push(':');
                self.set_status(&t);
                self.mode = Mode::Command;
            },
            Key::Char('/') => {
                self.command_buffer = Vec::new();
                self.position_buffer = self.cursor_position;
                let mut t: Vec<char> = Vec::new();
                t.push('/');
                self.set_status(&t);
                self.mode = Mode::Search;
            },
            Key::Char('o') => {
                self.move_cursor(Key::End);
                self.document.insert(&self.cursor_position, '\n');
                self.mode = Mode::Insert;
                self.move_cursor(Key::Down);
            },
            Key::Char('O') => {
                self.move_cursor(Key::Home);
                self.document.insert(&self.cursor_position, '\n');
                self.mode = Mode::Insert;
            },
            Key::Ctrl('q') => {
                self.should_quit = true;
            },
            _ => {
                if Self::is_motion_key(key) {
                    self.move_cursor(key);
                }
            },
        }
        self.scroll();
        Step::Render
    }

    /// A key in Insert mode.
    fn insert_key(&mut self, key: Key) -> (r: Step)
        requires
            old(self).pending == Pending::Nothing,
            old(self).mode == Mode::Insert,
        ensures
            key_post(*old(self), *final(self), key, r),
    {
        match key {
            Key::Esc => {
                self.move_cursor(Key::Left);
                self.enter_normal();
            },
            Key::Up | Key::Down | Key::Left | Key::Right => {
                self.move_cursor(key);
            },
            Key::Char(c) => {
                self.document.insert(&self.cursor_position, c);
                self.move_cursor(Key::Right);
            },
            Key::Delete => {
                self.document.delete(&self.cursor_position);
            },
            Key::Backspace => {
                if self.cursor_position.x > 0 || self.cursor_position.y > 0 {
                    self.move_cursor(Key::Left);
                    self.document.delete(&self.cursor_position);
                }
            },
            _ => {},
        }
        self.scroll();
        Step::Render
    }

    /// The message `prefix` followed by the command buffer.
    fn prefixed_buffer(&self, prefix: char) -> (r: Vec<char>)
        ensures
            r@ == seq![prefix] + self.command_buffer@,
    {
        let mut t: Vec<char> = Vec::new();
        t.push(prefix);
        extend_chars(&mut t, &self.command_buffer);
        t
    }

    /// Reports an error of a save command.
    fn report_save_error(&mut self, command: SaveCommand, e: DocumentError)
        ensures
            final(self).status_message.text@ == save_error_text(command, error_text(e)),
            final(self).should_quit == old(self).should_quit,
            final(self).terminal_size == old(self).terminal_size,
            final(self).cursor_position == old(self).cursor_position,
            final(self).offset == old(self).offset,
            final(self).document == old(self).document,
            final(self).mode == old(self).mode,
            final(self).command_buffer == old(self).command_buffer,
            final(self).position_buffer == old(self).position_buffer,
            final(self).pending == old(self).pending,
    {
        let mut t: Vec<char> = Vec::new();
        if command == SaveCommand::Write {
            push_str(&mut t, "Error writing file: ");
        }
        let m = e.message();
        push_str(&mut t, m.as_str());
        self.set_status(&t);
    }

    /// Runs the command line in the buffer.
    fn run_command(&mut self) -> (r: Step)
        ensures
            command_post(*old(self), *final(self), r),
            final(self).terminal_size == old(self).terminal_size,
            final(self).cursor_position == old(self).cursor_position,
            final(self).offset == old(self).offset,
            final(self).mode == old(self).mode,
            final(self).command_buffer == old(self).command_buffer,
            final(self).position_buffer == old(self).position_buffer,
            final(self).pending == old(self).pending,
    {
        let toks = split_words(&self.command_buffer);
        let ghost w = toks@.map_values(|t: Vec<char>| t@);
        assert(w == words(self.command_buffer@));
        let empty: Vec<char> = Vec::new();
        let head: &Vec<char> = if toks.len() > 0 {
            assert(w[0] == toks@[0]@);
            &toks[0]
        } else {
            &empty
        };
        assert(head@ == command_head(self.command_buffer@));
        let hl = head.len();
        let force = hl > 0 && head[hl - 1] == '!';
        let nl = if force {
            hl - 1
        } else {
            hl
        };
        assert(force == is_forced(self.command_buffer@));
        let ghost name = command_name(self.command_buffer@);
        assert(name == head@.take(nl as int));
        let is_q = nl == 1 && head[0] == 'q';
        let is_w = nl == 1 && head[0] == 'w';
        let is_wq = nl == 2 && head[0] == 'w' && head[1] == 'q';
        assert(name.len() == nl);
        assert(nl >= 1 ==> name[0] == head@[0]);
        assert(nl >= 2 ==> name[1] == head@[1]);
        assert(is_q == (name == seq!['q'])) by {
            if is_q {
                assert(name =~= seq!['q']);
            }
            if name == seq!['q'] {
                assert(name[0] == 'q');
            }
        }
        assert(is_w == (name == seq!['w'])) by {
            if is_w {
                assert(name =~= seq!['w']);
            }
            if name == seq!['w'] {
                assert(name[0] == 'w');
            }
        }
        assert(is_wq == (name == seq!['w', 'q'])) by {
            if is_wq {
                assert(name =~= seq!['w', 'q']);
            }
            if name == seq!['w', 'q'] {
                assert(name[0] == 'w' && name[1] == 'q');
            }
        }
        if is_q {
            if self.document.is_dirty() && !force {
                let t = String::from_str(
                    "File has unsaved changes. Use :wq to save and quit, or :q! to quit without saving.",
                );
                self.status_message = StatusMessage::from(t);
            } else {
                self.should_quit = true;
            }
            Step::Render
        } else if is_w || is_wq {
            let command = if is_w {
                SaveCommand::Write
            } else {
                SaveCommand::WriteQuit
            };
            if is_wq {
                self.should_quit = true;
            }
            let arg: Option<String> = if toks.len() > 1 {
                assert(w[1] == toks@[1]@);
                Some(string_of(&toks[1]))
            } else {
                None
            };
            assert(name_view(arg) == command_arg(self.command_buffer@));
            let target = match &arg {
                Some(a) => self.document.save_target(Some(a.as_str())),
                None => self.document.save_target(None),
            };
            match target {
                Ok(path) => Step::Save(SaveRequest { path, name: arg, command }),
                Err(e) => {
                    self.report_save_error(command, e);
                    Step::Render
                },
            }
        } else {
            let mut t: Vec<char> = Vec::new();
            push_str(&mut t, "Unrecognized command: ");
            extend_chars(&mut t, head);
            self.set_status(&t);
            Step::Render
        }
    }

    /// A key in Command mode.
    fn command_key(&mut self, key: Key) -> (r: Step)
        requires
            old(self).pending == Pending::Nothing,
            old(self).mode == Mode::Command,
        ensures
            key_post(*old(self), *final(self), key, r),
    {
        let r = match key {
            Key::Backspace => {
                self.command_buffer.pop();
                let t = self.prefixed_buffer(':');
                self.set_status(&t);
                Step::Render
            },
            Key::Esc => {
                self.enter_normal();
                Step::Render
            },
            Key::Char('\n') => {
                let r = self.run_command();
                self.command_buffer = Vec::new();
                self.mode = Mode::Normal;
                r
            },
            Key::Char(c) => {
                self.command_buffer.push(c);
                let t = self.prefixed_buffer(':');
                self.set_status(&t);
                Step::Render
            },
            _ => Step::Render,
        };
        self.scroll();
        r
    }

    /// A key in Search mode.
    fn search_key(&mut self, key: Key) -> (r: Step)
        requires
            old(self).pending == Pending::Nothing,
            old(self).mode == Mode::Search,
        ensures
            key_post(*old(self), *final(self), key, r),
    {
        match key {
            Key::Backspace => {
                self.command_buffer.pop();
                let q = string_of(&self.command_buffer);
                if let Some(p) = self.document.find(q.as_str(), &self.cursor_position, SearchDirection::Forward) {
                    self.cursor_position = p;
                }
                let t = self.prefixed_buffer('/');
                self.set_status(&t);
            },
            Key::Esc => {
                self.enter_normal();
                self.cursor_position = self.position_buffer;
                self.document.highlight(None);
            },
            Key::Char('\n') => {
                self.pending = Pending::SearchNavigation;
                return Step::ReadKey;
            },
            Key::Char(c) => {
                self.command_buffer.push(c);
                let q = string_of(&self.command_buffer);
                match self.document.find(q.as_str(), &self.position_buffer, SearchDirection::Forward) {
                    Some(p) => {
                        self.cursor_position = p;
                        self.document.highlight(Some(q.as_str()));
                        let t = self.prefixed_buffer('/');
                        self.set_status(&t);
                    },
                    None => {
                        let mut t: Vec<char> = Vec::new();
                        push_str(&mut t, "No results for search: ");
                        extend_chars(&mut t, &self.command_buffer);
                        self.set_status(&t);
                    },
                }
            },
            _ => {},
        }
        self.scroll();
        Step::Render
    }

    /// A key while moving between search results.
    fn navigation_key(&mut self, key: Key) -> (r: Step)
        requires
            old(self).pending == Pending::SearchNavigation,
        ensures
            key_post(*old(self), *final(self), key, r),
    {
        match key {
            Key::Esc => {
                self.cursor_position = self.position_buffer;
                self.enter_normal();
                self.document.highlight(None);
                self.pending = Pending::Nothing;
                self.scroll();
            },
            Key::Char('n') | Key::Char('N') => {
                let back = key == Key::Char('N');
                let saved = self.cursor_position;
                let direction = if back {
                    self.move_cursor(Key::Left);
                    SearchDirection::Backward
                } else {
                    self.move_cursor(Key::Right);
                    SearchDirection::Forward
                };
                let q = string_of(&self.command_buffer);
                match self.document.find(q.as_str(), &self.cursor_position, direction) {
                    Some(p) => {
                        self.cursor_position = p;
                        self.scroll();
                        let t = self.prefixed_buffer('/');
                        self.set_status(&t);
                    },
                    None => {
                        self.cursor_position = saved;
                        let mut t: Vec<char> = Vec::new();
                        t.push(':');
                        extend_chars(&mut t, &self.command_buffer);
                        push_str(&mut t, " - No results for search");
                        self.set_status(&t);
                    },
                }
            },
            _ => {},
        }
        Step::Render
    }

    /// Handles one key: see `key_post`.
    pub fn process_key(&mut self, key: Key) -> (r: Step)
        ensures
            key_post(*old(self), *final(self), key, r),
    {
        match self.pending {
            Pending::SecondDeleteKey => self.delete_key(key),
            Pending::SearchNavigation => self.navigation_key(key),
            Pending::Nothing => match self.mode {
                Mode::Normal => self.normal_key(key),
                Mode::Insert => self.insert_key(key),
                Mode::Command => self.command_key(key),
                Mode::Search => self.search_key(key),
            },
        }
    }

    /// Completes the save that `process_key` asked for: `outcome` is what
    /// writing the document's contents to the requested path gave, `name` the
    /// name the command gave. The document is saved as `Document::save_as`
    /// says and the result is reported in the message bar.
    pub fn complete_save(&mut self, command: SaveCommand, name: Option<&str>, outcome: Result<(), String>)
        ensures
            exists|r: Result<String, DocumentError>|
                #[trigger] save_as_post(old(self).document, final(self).document, str_view(name), outcome, r)
                && final(self).status_message.text@ == save_report(command, r),
            old(self).document.wf() ==> final(self).document.wf(),
            final(self).should_quit == old(self).should_quit,
            final(self).terminal_size == old(self).terminal_size,
            final(self).cursor_position == old(self).cursor_position,
            final(self).offset == old(self).offset,
            final(self).mode == old(self).mode,
            final(self).command_buffer == old(self).command_buffer,
            final(self).position_buffer == old(self).position_buffer,
            final(self).pending == old(self).pending,
    {
        let r = self.document.save_as(name, outcome);
        let ghost rg = r;
        match r {
            Ok(m) => {
                self.status_message = StatusMessage::from(m);
            },
            Err(e) => {
                self.report_save_error(command, e);
            },
        }
        assert(save_as_post(old(self).document, self.document, str_view(name), outcome, rg));
    }

    fn is_motion_key(key: Key) -> (r: bool)
        ensures
            r == is_motion(key),
    {
        match key {
            Key::Up | Key::Down | Key::Left | Key::Right | Key::PageUp | Key::PageDown | Key::Home
            | Key::End | Key::Backspace => true,
            Key::Char(c) => c == 'h' || c == 'j' || c == 'k' || c == 'l' || c == '0' || c == '$',
            _ => false,
        }
    }

    /// The length of row `y`, or 0 past the last row.
    fn row_length(&self, y: usize) -> (r: usize)
        ensures
            r == row_len(self.document@, y as int),
    {
        match self.document.row(y) {
            Some(row) => row.len(),
            None => 0,
        }
    }

    /// Moves the cursor as `key` says: see `moved`; a page is the height of
    /// the text area.
    pub fn move_cursor(&mut self, key: Key)
        ensures
            final(self).cursor_position == moved(old(self).document@, old(self).cursor_position, key, old(self).terminal_size.height as int),
            final(self).offset == old(self).offset,
            final(self).terminal_size == old(self).terminal_size,
            final(self).document == old(self).document,
            final(self).mode == old(self).mode,
            final(self).pending == old(self).pending,
            final(self).should_quit == old(self).should_quit,
            final(self).command_buffer == old(self).command_buffer,
            final(self).position_buffer == old(self).position_buffer,
            final(self).status_message == old(self).status_message,
    {
        let mut x = self.cursor_position.x;
        let mut y = self.cursor_position.y;
        let height = self.document.len();
        let page = self.terminal_size.height as usize;
        let width = self.row_length(y);
        match key {
            Key::Up | Key::Char('k') => {
                if y > 0 {
                    y = y - 1;
                }
            },
            Key::Down | Key::Char('j') => {
                if y < height {
                    y = y + 1;
                }
            },
            Key::Left | Key::Char('h') | Key::Backspace => {
                if x > 0 {
                    x = x - 1;
                } else if y > 0 {
                    y = y - 1;
                    x = self.row_length(y);
                }
            },
            Key::Right | Key::Char('l') => {
                if x < width {
                    x = x + 1;
                } else if y < height {
                    y = y + 1;
                    x = 0;
                }
            },
            Key::PageUp => {
                y = if y > page {
                    y - page
                } else {
                    0
                };
            },
            Key::PageDown => {
                y = if y < height && height - y > page {
                    y + page
                } else {
                    height
                };
            },
            Key::Home | Key::Char('0') => {
                x = 0;
            },
            Key::End | Key::Char('$') => {
                x = width;
            },
            _ => {},
        }
        let width = self.row_length(y);
        if x > width {
            x = width;
        }
        self.cursor_position = Position { x, y };
    }
}


} // verus!
