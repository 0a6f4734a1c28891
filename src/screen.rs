use vstd::prelude::*;
use crate::editor::{mode_name, Editor, Mode};
use crate::position::Position;
use crate::row::{render_spec, Row};
use crate::terminal::CursorStyle;
use crate::text::{chars_of, decimal, decimal_chars, extend_chars, push_str, string_of};

verus! {

/// `n` spaces.
pub open spec fn spaces(n: int) -> Seq<char> {
    Seq::new(if n > 0 { n as nat } else { 0 }, |_i: int| ' ')
}

/// The first `n` characters of `s`, or all of it.
pub open spec fn clip(s: Seq<char>, n: int) -> Seq<char> {
    if n < s.len() {
        s.take(n)
    } else {
        s
    }
}

/// The one-based number of row `y`, saturating.
pub open spec fn line_number(y: usize) -> nat {
    if y < usize::MAX {
        (y + 1) as nat
    } else {
        usize::MAX as nat
    }
}

/// The status bar: the file name (at most 20 characters, or `[No Name]`),
/// ` [+]` for unsaved changes, padding, ` [ <mode> ] `, then `<row>/<rows>`;
/// cut to `width`.
pub open spec fn status_line(
    name: Option<Seq<char>>,
    dirty: bool,
    mode: Mode,
    y: usize,
    rows: nat,
    width: int,
) -> Seq<char> {
    let f = match name {
        Some(n) => clip(n, 20),
        None => "[No Name]"@,
    };
    let st = f + (if dirty {
        " [+]"@
    } else {
        Seq::empty()
    });
    let mi = " [ "@ + mode_name(mode) + " ] "@;
    let li = decimal(line_number(y)) + seq!['/'] + decimal(rows);
    let len = st.len() + li.len();
    let pad = if width > len {
        width - len - mi.len()
    } else {
        0
    };
    clip(st + spaces(pad) + mi + li, width)
}

/// The welcome line: `~`, then spaces that centre `ggedit v<version>` in
/// `width` columns, then that title; cut to `width`.
pub open spec fn welcome_line(version: Seq<char>, width: int) -> Seq<char> {
    let title = "ggedit v"@ + version;
    let padding = if width > title.len() {
        (width - title.len()) / 2
    } else {
        0
    };
    clip(seq!['~'] + spaces(padding - 1) + title, width)
}

/// How long a message stays on the message bar, in milliseconds.
pub const MESSAGE_LIFETIME_MS: u64 = 5000;

/// What one line of the text area shows.
pub enum ScreenLine {
    /// A row of the document, drawn.
    Text(String),
    /// The welcome line of an empty document.
    Welcome,
    /// The marker of a line past the end of the document.
    Filler,
    /// Nothing.
    Blank,
}

impl Editor {
    /// The cursor shape of the current mode: a bar while inserting, else a block.
    pub fn cursor_style(&self) -> (r: CursorStyle)
        ensures
            r == if self.mode == Mode::Insert {
                CursorStyle::Bar
            } else {
                CursorStyle::Block
            },
    {
        match self.mode {
            Mode::Insert => CursorStyle::Bar,
            _ => CursorStyle::Block,
        }
    }

    /// The cell of the text area that shows the cursor; none in Command mode,
    /// where the cursor stays on the message bar.
    pub fn cursor_on_screen(&self) -> (r: Option<Position>)
        ensures
            self.mode == Mode::Command ==> r is None,
            self.mode != Mode::Command ==> r == Some(Position {
                x: if self.cursor_position.x >= self.offset.x { (self.cursor_position.x - self.offset.x) as usize } else { 0 },
                y: if self.cursor_position.y >= self.offset.y { (self.cursor_position.y - self.offset.y) as usize } else { 0 },
            }),
    {
        if self.mode == Mode::Command {
            None
        } else {
            Some(Position {
                x: self.cursor_position.x.saturating_sub(self.offset.x),
                y: self.cursor_position.y.saturating_sub(self.offset.y),
            })
        }
    }

    /// The visible columns of `row`, drawn: from the view's left edge across
    /// the width of the terminal.
    pub fn draw_row(&self, row: &Row) -> (r: String)
        ensures
            r@ == render_spec(
                row@,
                row.hl(),
                self.offset.x as int,
                if self.offset.x + self.terminal_size.width <= usize::MAX {
                    self.offset.x + self.terminal_size.width
                } else {
                    usize::MAX as int
                },
            ),
    {
        let width = self.terminal_size.width as usize;
        row.render(self.offset.x, self.offset.x.saturating_add(width))
    }

    /// What line `terminal_row` of the text area shows: the document row in
    /// view there, drawn across the visible columns; else, for an empty
    /// document, the welcome line a third of the way down; else a filler
    /// marker, except on the first line.
    pub fn screen_line(&self, terminal_row: u16) -> (r: ScreenLine)
        ensures
            ({
                let y = self.offset.y + terminal_row;
                let rows = self.document@;
                if y < rows.len() {
                    let end = if self.offset.x + self.terminal_size.width <= usize::MAX {
                        self.offset.x + self.terminal_size.width
                    } else {
                        usize::MAX as int
                    };
                    r is Text && r->Text_0@ == render_spec(rows[y], self.document.row_classes(y), self.offset.x as int, end)
                } else if rows.len() == 0 && terminal_row == self.terminal_size.height / 3 {
                    r is Welcome
                } else if terminal_row != 0 {
                    r is Filler
                } else {
                    r is Blank
                }
            }),
    {
        let rows = self.document.len();
        let y = self.offset.y.saturating_add(terminal_row as usize);
        match self.document.row(y) {
            Some(row) => ScreenLine::Text(self.draw_row(row)),
            None => {
                if rows == 0 && terminal_row == self.terminal_size.height / 3 {
                    ScreenLine::Welcome
                } else if terminal_row != 0 {
                    ScreenLine::Filler
                } else {
                    ScreenLine::Blank
                }
            },
        }
    }

    /// The file name and changed marker of the status bar.
    fn status_name(&self) -> (r: Vec<char>)
        ensures
            r@ == (match self.document.name_spec() {
                Some(n) => clip(n, 20),
                None => "[No Name]"@,
            }) + (if self.document.is_dirty_spec() {
                " [+]"@
            } else {
                Seq::empty()
            }),
    {
        let mut st: Vec<char> = Vec::new();
        match self.document.name() {
            Some(n) => {
                let cs = chars_of(n.as_str());
                let k = if cs.len() < 20 {
                    cs.len()
                } else {
                    20
                };
                take_into(&mut st, &cs, k);
                assert(st@ =~= clip(n@, 20));
            },
            None => {
                push_str(&mut st, "[No Name]");
                assert(st@ =~= "[No Name]"@);
            },
        }
        let ghost f = st@;
        if self.document.is_dirty() {
            push_str(&mut st, " [+]");
        } else {
            assert(st@ =~= f + Seq::<char>::empty());
        }
        st
    }

    /// The mode and position parts of the status bar.
    fn status_indicators(&self) -> (r: (Vec<char>, Vec<char>))
        ensures
            r.0@ == " [ "@ + mode_name(self.mode) + " ] "@,
            r.1@ == decimal(line_number(self.cursor_position.y)) + seq!['/'] + decimal(self.document@.len()),
    {
        let mut mi: Vec<char> = Vec::new();
        push_str(&mut mi, " [ ");
        let mode = self.mode.to_string();
        push_str(&mut mi, mode.as_str());
        push_str(&mut mi, " ] ");
        let mut li: Vec<char> = Vec::new();
        let line = decimal_chars(self.cursor_position.y.saturating_add(1));
        extend_chars(&mut li, &line);
        li.push('/');
        let total = decimal_chars(self.document.len());
        extend_chars(&mut li, &total);
        (mi, li)
    }

    /// The status bar, cut to the terminal width: see `status_line`.
    pub fn status_bar(&self) -> (r: String)
        ensures
            r@ == status_line(
                self.document.name_spec(),
                self.document.is_dirty_spec(),
                self.mode,
                self.cursor_position.y,
                self.document@.len(),
                self.terminal_size.width as int,
            ),
    {
        let width = self.terminal_size.width as usize;
        let st = self.status_name();
        let (mi, li) = self.status_indicators();
        let mut full: Vec<char> = Vec::new();
        extend_chars(&mut full, &st);
        let ghost pad: int = if width > st@.len() + li@.len() {
            width - (st@.len() + li@.len()) - mi@.len()
        } else {
            0
        };
        let count = if st.len() < width && li.len() < width - st.len() && width - st.len() - li.len() > mi.len() {
            width - st.len() - li.len() - mi.len()
        } else {
            0
        };
        assert(spaces(count as int) =~= spaces(pad));
        let mut k: usize = 0;
        while k < count
            invariant
                k <= count,
                full@ == st@ + spaces(k as int),
            decreases count - k,
        {
            full.push(' ');
            k += 1;
            assert(full@ =~= st@ + spaces(k as int));
        }
        extend_chars(&mut full, &mi);
        extend_chars(&mut full, &li);
        let mut out: Vec<char> = Vec::new();
        let n = if full.len() < width {
            full.len()
        } else {
            width
        };
        take_into(&mut out, &full, n);
        assert(out@ =~= clip(full@, width as int));
        string_of(&out)
    }

    /// The message bar `elapsed_ms` milliseconds after the message was set:
    /// the message cut to the terminal width while it is younger than
    /// `MESSAGE_LIFETIME_MS`, then nothing.
    pub fn message_bar(&self, elapsed_ms: u64) -> (r: String)
        ensures
            r@ == if elapsed_ms < MESSAGE_LIFETIME_MS {
                clip(self.status_message.text@, self.terminal_size.width as int)
            } else {
                Seq::<char>::empty()
            },
    {
        if elapsed_ms < MESSAGE_LIFETIME_MS {
            self.message_line()
        } else {
            string_of(&Vec::new())
        }
    }

    /// The message bar text, cut to the terminal width.
    pub fn message_line(&self) -> (r: String)
        ensures
            r@ == clip(self.status_message.text@, self.terminal_size.width as int),
    {
        let cs = chars_of(self.status_message.text.as_str());
        let width = self.terminal_size.width as usize;
        let k = if cs.len() < width {
            cs.len()
        } else {
            width
        };
        let mut out: Vec<char> = Vec::new();
        take_into(&mut out, &cs, k);
        assert(out@ =~= clip(cs@, width as int));
        string_of(&out)
    }
}

/// Appends the first `k` characters of `w` to `v`.
fn take_into(v: &mut Vec<char>, w: &Vec<char>, k: usize)
    requires
        k <= w@.len(),
    ensures
        final(v)@ == old(v)@ + w@.take(k as int),
{
    let mut i: usize = 0;
    while i < k
        invariant
            i <= k <= w@.len(),
            v@ == old(v)@ + w@.take(i as int),
        decreases k - i,
    {
        v.push(w[i]);
        i += 1;
        assert(w@.take(i as int) == w@.take(i - 1 as int).push(w@[i - 1]));
    }
}

/// The welcome line for `version` in a terminal `width` columns wide: see
/// `welcome_line`.
pub fn welcome_message(version: &str, width: usize) -> (r: String)
    ensures
        r@ == welcome_line(version@, width as int),
{
    let mut title: Vec<char> = Vec::new();
    push_str(&mut title, "ggedit v");
    push_str(&mut title, version);
    let padding = if width > title.len() {
        (width - title.len()) / 2
    } else {
        0
    };
    let mut line: Vec<char> = Vec::new();
    line.push('~');
    let count = if padding > 0 {
        padding - 1
    } else {
        0
    };
    let mut k: usize = 0;
    while k < count
        invariant
            k <= count,
            line@ == seq!['~'] + spaces(k as int),
        decreases count - k,
    {
        line.push(' ');
        k += 1;
        assert(line@ =~= seq!['~'] + spaces(k as int));
    }
    assert(spaces(count as int) =~= spaces(padding - 1));
    extend_chars(&mut line, &title);
    let n = if line.len() < width {
        line.len()
    } else {
        width
    };
    let mut out: Vec<char> = Vec::new();
    take_into(&mut out, &line, n);
    assert(out@ =~= clip(line@, width as int));
    string_of(&out)
}

} // verus!
