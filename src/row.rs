use vstd::prelude::*;
use crate::filetype::HighlightingOptions;
use crate::highlighting::Type;
use crate::position::SearchDirection;
use crate::text::{chars_of, push_str, string_of};

verus! {

/// The text of `s` with `c` placed before column `at`, or at the end where `at`
/// is past the last character.
pub open spec fn insert_char(s: Seq<char>, at: int, c: char) -> Seq<char> {
    if 0 <= at < s.len() {
        s.insert(at, c)
    } else {
        s.push(c)
    }
}

/// The text of `s` without the character at column `at`; unchanged where there is none.
pub open spec fn delete_char(s: Seq<char>, at: int) -> Seq<char> {
    if 0 <= at < s.len() {
        s.remove(at)
    } else {
        s
    }
}

/// The column at which `s` is cut by a split at `at`: `at`, or the length where
/// `at` is past the end.
pub open spec fn split_point(s: Seq<char>, at: int) -> int {
    if at < s.len() {
        at
    } else {
        s.len() as int
    }
}

/// What stays in a row split at `at`.
pub open spec fn split_head(s: Seq<char>, at: int) -> Seq<char> {
    s.take(split_point(s, at))
}

/// What a split at `at` moves into the new row.
pub open spec fn split_tail(s: Seq<char>, at: int) -> Seq<char> {
    s.skip(split_point(s, at))
}

/// `q` occurs in `s` starting at column `j`.
pub open spec fn occurs_at(s: Seq<char>, q: Seq<char>, j: int) -> bool {
    0 <= j && j + q.len() <= s.len() && s.subrange(j, j + q.len()) == q
}

/// Column `j` lies on the side of `from` that a search in `direction` covers.
pub open spec fn in_scope(j: int, from: int, direction: SearchDirection) -> bool {
    match direction {
        SearchDirection::Forward => from <= j,
        SearchDirection::Backward => j <= from,
    }
}

/// Column `k` is nearer to `from` than `j`, within the scope of the search.
pub open spec fn nearer(k: int, j: int, from: int, direction: SearchDirection) -> bool {
    match direction {
        SearchDirection::Forward => from <= k < j,
        SearchDirection::Backward => j < k <= from,
    }
}

/// Some occurrence of `q` in `s` starts within the scope of a search from `from`.
pub open spec fn has_match(s: Seq<char>, q: Seq<char>, from: int, direction: SearchDirection) -> bool {
    exists|j: int| in_scope(j, from, direction) && #[trigger] occurs_at(s, q, j)
}

/// `j` is where a search from `from` stops: the occurrence of `q` nearest to
/// `from` in the direction of the search.
pub open spec fn is_nearest_match(
    s: Seq<char>,
    q: Seq<char>,
    from: int,
    direction: SearchDirection,
    j: int,
) -> bool {
    &&& in_scope(j, from, direction)
    &&& occurs_at(s, q, j)
    &&& forall|k: int| nearer(k, j, from, direction) ==> !#[trigger] occurs_at(s, q, k)
}

/// A decimal digit.
pub open spec fn is_digit(c: char) -> bool {
    48 <= c as u32 <= 57
}

/// An ASCII punctuation or whitespace character: what may stand before a number.
pub open spec fn is_separator(c: char) -> bool {
    let u = c as u32;
    (33 <= u <= 47) || (58 <= u <= 64) || (91 <= u <= 96) || (123 <= u <= 126) || u == 32 || u
        == 9 || u == 10 || u == 12 || u == 13
}

/// The length of the character literal that starts at column `i` (`'x'` or
/// `'\x'`), or 0 where none does.
pub open spec fn char_literal_len(s: Seq<char>, i: int) -> int {
    if i + 2 < s.len() && s[i + 1] != '\\' && s[i + 2] == '\'' {
        3
    } else if i + 3 < s.len() && s[i + 1] == '\\' && s[i + 3] == '\'' {
        4
    } else {
        0
    }
}

/// The number of spaces a tab is drawn as.
pub const TAB_WIDTH: usize = 4;

/// How a character is drawn: a tab as `TAB_WIDTH` spaces, a control character
/// as `?`, any other character as itself.
pub open spec fn glyph(c: char) -> Seq<char> {
    if c == '\t' {
        Seq::new(TAB_WIDTH as nat, |_i: int| ' ')
    } else if (c as u32) < 32 || c as u32 == 127 {
        seq!['?']
    } else {
        seq![c]
    }
}

/// The colour class of column `i`, plain where none was computed.
pub open spec fn class_at(hl: Seq<Type>, i: int) -> Type {
    if 0 <= i < hl.len() {
        hl[i]
    } else {
        Type::Plain
    }
}

/// The drawing of columns `i` up to `end`, when the terminal is in the colours
/// of `cur`: a colour switch wherever the class changes, then the glyph.
pub open spec fn render_from(s: Seq<char>, hl: Seq<Type>, i: int, end: int, cur: Type) -> Seq<char>
    decreases end - i,
{
    if i < 0 || i >= end {
        Seq::empty()
    } else {
        let t = class_at(hl, i);
        (if t != cur {
            t.escape()
        } else {
            Seq::empty()
        }) + glyph(s[i]) + render_from(s, hl, i + 1, end, t)
    }
}

/// The drawing of the columns `[start, end)` of a row, clipped to the row,
/// ending with the default colours.
pub open spec fn render_spec(s: Seq<char>, hl: Seq<Type>, start: int, end: int) -> Seq<char> {
    let e = if end < s.len() {
        end
    } else {
        s.len() as int
    };
    let b = if start < e {
        start
    } else {
        e
    };
    render_from(s, hl, b, e, Type::Plain) + Type::Plain.escape()
}

/// Where the highlighter stands between two characters.
#[derive(Debug, Clone, Copy, PartialEq, Eq, Structural)]
pub enum Scan {
    /// Between tokens.
    Normal,
    /// Inside a number.
    Number,
    /// Inside a string literal.
    Text,
    /// Right after a backslash inside a string literal.
    TextEscape,
    /// Inside a character literal, with this many characters of it still to come.
    Character(usize),
    /// Inside a line comment.
    Comment,
}

pub open spec fn scan_rank(st: Scan) -> int {
    if st is Normal {
        0
    } else {
        1
    }
}

/// The colour classes of the characters of `s` from column `i` on, when the
/// highlighter reaches column `i` in state `st`.
pub open spec fn classify(s: Seq<char>, opts: HighlightingOptions, i: int, st: Scan) -> Seq<Type>
    decreases s.len() - i, scan_rank(st),
{
    if i < 0 || i >= s.len() {
        Seq::empty()
    } else {
        match st {
            Scan::Comment => seq![Type::Comment] + classify(s, opts, i + 1, Scan::Comment),
            Scan::Text => if s[i] == '\\' {
                seq![Type::String] + classify(s, opts, i + 1, Scan::TextEscape)
            } else if s[i] == '"' {
                seq![Type::String] + classify(s, opts, i + 1, Scan::Normal)
            } else {
                seq![Type::String] + classify(s, opts, i + 1, Scan::Text)
            },
            Scan::TextEscape => seq![Type::String] + classify(s, opts, i + 1, Scan::Text),
            Scan::Character(k) => seq![Type::Character] + classify(
                s,
                opts,
                i + 1,
                if k <= 1 {
                    Scan::Normal
                } else {
                    Scan::Character((k - 1) as usize)
                },
            ),
            Scan::Number => if is_digit(s[i]) || s[i] == '.' {
                seq![Type::Number] + classify(s, opts, i + 1, Scan::Number)
            } else {
                classify(s, opts, i, Scan::Normal)
            },
            Scan::Normal => if opts.comments && s[i] == '/' && i + 1 < s.len() && s[i + 1] == '/' {
                seq![Type::Comment] + classify(s, opts, i + 1, Scan::Comment)
            } else if opts.strings && s[i] == '"' {
                seq![Type::String] + classify(s, opts, i + 1, Scan::Text)
            } else if opts.characters && s[i] == '\'' && char_literal_len(s, i) > 0 {
                seq![Type::Character] + classify(
                    s,
                    opts,
                    i + 1,
                    Scan::Character((char_literal_len(s, i) - 1) as usize),
                )
            } else if opts.numbers && is_digit(s[i]) && (i == 0 || is_separator(s[i - 1])) {
                seq![Type::Number] + classify(s, opts, i + 1, Scan::Number)
            } else {
                seq![Type::Plain] + classify(s, opts, i + 1, Scan::Normal)
            },
        }
    }
}

/// Column `k` lies inside some occurrence of `q` in `s`.
pub open spec fn covered(s: Seq<char>, q: Seq<char>, k: int) -> bool {
    exists|j: int| #[trigger] occurs_at(s, q, j) && j <= k < j + q.len()
}

/// Column `k` lies inside an occurrence of `q` that starts before column `upto`.
pub open spec fn covered_before(s: Seq<char>, q: Seq<char>, k: int, upto: int) -> bool {
    exists|j: int| j < upto && #[trigger] occurs_at(s, q, j) && j <= k < j + q.len()
}

/// `base` with every column inside an occurrence of `q` marked as a search match.
pub open spec fn with_matches(base: Seq<Type>, s: Seq<char>, q: Seq<char>) -> Seq<Type> {
    Seq::new(base.len(), |k: int| if covered(s, q, k) { Type::SearchMatch } else { base[k] })
}

/// The colour classes of `s` under the policy `opts`, with the occurrences of the
/// active search term, if any, marked over all other classes.
pub open spec fn highlight_of(s: Seq<char>, opts: HighlightingOptions, word: Option<Seq<char>>) -> Seq<Type> {
    match word {
        None => classify(s, opts, 0, Scan::Normal),
        Some(w) => with_matches(classify(s, opts, 0, Scan::Normal), s, w),
    }
}

/// The characters of an optional search term.
pub open spec fn word_view(word: Option<&str>) -> Option<Seq<char>> {
    match word {
        None => None,
        Some(w) => Some(w@),
    }
}

proof fn lemma_classify_len(s: Seq<char>, opts: HighlightingOptions, i: int, st: Scan)
    requires
        0 <= i <= s.len(),
    ensures
        classify(s, opts, i, st).len() == s.len() - i,
    decreases s.len() - i, scan_rank(st),
{
    if i < s.len() {
        match st {
            Scan::Comment => lemma_classify_len(s, opts, i + 1, Scan::Comment),
            Scan::Text => {
                lemma_classify_len(s, opts, i + 1, Scan::TextEscape);
                lemma_classify_len(s, opts, i + 1, Scan::Normal);
                lemma_classify_len(s, opts, i + 1, Scan::Text);
            },
            Scan::TextEscape => lemma_classify_len(s, opts, i + 1, Scan::Text),
            Scan::Character(k) => {
                lemma_classify_len(s, opts, i + 1, Scan::Normal);
                lemma_classify_len(s, opts, i + 1, Scan::Character((k - 1) as usize));
            },
            Scan::Number => {
                lemma_classify_len(s, opts, i + 1, Scan::Number);
                lemma_classify_len(s, opts, i, Scan::Normal);
            },
            Scan::Normal => {
                lemma_classify_len(s, opts, i + 1, Scan::Comment);
                lemma_classify_len(s, opts, i + 1, Scan::Text);
                lemma_classify_len(s, opts, i + 1, Scan::Number);
                lemma_classify_len(s, opts, i + 1, Scan::Normal);
                lemma_classify_len(
                    s,
                    opts,
                    i + 1,
                    Scan::Character((char_literal_len(s, i) - 1) as usize),
                );
            },
        }
    }
}

fn is_digit_exec(c: char) -> (r: bool)
    ensures
        r == is_digit(c),
{
    let u = c as u32;
    48 <= u && u <= 57
}

fn is_separator_exec(c: char) -> (r: bool)
    ensures
        r == is_separator(c),
{
    let u = c as u32;
    (33 <= u && u <= 47) || (58 <= u && u <= 64) || (91 <= u && u <= 96) || (123 <= u && u <= 126)
        || u == 32 || u == 9 || u == 10 || u == 12 || u == 13
}

/// One line of text, addressed by character, with the colour class of each character.
#[derive(Debug)]
pub struct Row {
    string: Vec<char>,
    highlighting: Vec<Type>,
}

impl View for Row {
    type V = Seq<char>;

    closed spec fn view(&self) -> Seq<char> {
        self.string@
    }
}

impl Default for Row {
    /// An empty row.
    fn default() -> (r: Row)
        ensures
            r@ == Seq::<char>::empty(),
            r.hl() == Seq::<Type>::empty(),
    {
        Row { string: Vec::new(), highlighting: Vec::new() }
    }
}

impl Row {
    /// The row holding the characters of `slice`.
    pub fn from(slice: &str) -> (r: Row)
        ensures
            r@ == slice@,
            r.hl() == Seq::<Type>::empty(),
    {
        Row { string: chars_of(slice), highlighting: Vec::new() }
    }

    /// A row's length fits in `usize`.
    pub proof fn lemma_len_fits(&self)
        ensures
            self@.len() <= usize::MAX,
    {
        assert(self.string.len() == self.string@.len());
    }

    /// The number of characters.
    pub fn len(&self) -> (r: usize)
        ensures
            r == self@.len(),
    {
        self.string.len()
    }

    pub fn is_empty(&self) -> (r: bool)
        ensures
            r == (self@.len() == 0),
    {
        self.string.len() == 0
    }

    /// The characters of the row.
    pub fn chars(&self) -> (r: &Vec<char>)
        ensures
            r@ == self@,
    {
        &self.string
    }

    /// The colour class of each character, as last computed.
    pub closed spec fn hl(&self) -> Seq<Type> {
        self.highlighting@
    }

    /// The colour classes of the characters, as last computed.
    pub fn highlighting(&self) -> (r: &Vec<Type>)
        ensures
            r@ == self.hl(),
    {
        &self.highlighting
    }

    /// The length of the character literal at column `i`, or 0.
    fn char_literal_len_at(&self, i: usize) -> (r: usize)
        requires
            i < self@.len(),
        ensures
            r == char_literal_len(self@, i as int),
    {
        let n = self.string.len();
        if n - i > 2 && self.string[i + 1] != '\\' && self.string[i + 2] == '\'' {
            3
        } else if n - i > 3 && self.string[i + 1] == '\\' && self.string[i + 3] == '\'' {
            4
        } else {
            0
        }
    }

    /// The colour classes of the row under `opts`, without search matches.
    fn classes(&self, opts: &HighlightingOptions) -> (r: Vec<Type>)
        ensures
            r@ == classify(self@, *opts, 0, Scan::Normal),
    {
        let s = &self.string;
        let n = s.len();
        let mut hl: Vec<Type> = Vec::new();
        let mut st = Scan::Normal;
        let mut i: usize = 0;
        while i < n
            invariant
                n == s@.len(),
                s@ == self@,
                i <= n,
                hl@ + classify(s@, *opts, i as int, st) == classify(s@, *opts, 0, Scan::Normal),
            decreases n - i,
        {
            let c = s[i];
            if st == Scan::Number && !(is_digit_exec(c) || c == '.') {
                st = Scan::Normal;
            }
            let ghost before = classify(s@, *opts, i as int, st);
            let (t, next) = match st {
                Scan::Comment => (Type::Comment, Scan::Comment),
                Scan::Text => if c == '\\' {
                    (Type::String, Scan::TextEscape)
                } else if c == '"' {
                    (Type::String, Scan::Normal)
                } else {
                    (Type::String, Scan::Text)
                },
                Scan::TextEscape => (Type::String, Scan::Text),
                Scan::Character(k) => (
                    Type::Character,
                    if k <= 1 {
                        Scan::Normal
                    } else {
                        Scan::Character(k - 1)
                    },
                ),
                Scan::Number => (Type::Number, Scan::Number),
                Scan::Normal => {
                    if opts.comments && c == '/' && i + 1 < n && s[i + 1] == '/' {
                        (Type::Comment, Scan::Comment)
                    } else if opts.strings && c == '"' {
                        (Type::String, Scan::Text)
                    } else if opts.characters && c == '\'' && self.char_literal_len_at(i) > 0 {
                        (Type::Character, Scan::Character(self.char_literal_len_at(i) - 1))
                    } else if opts.numbers && is_digit_exec(c) && (i == 0 || is_separator_exec(
                        s[i - 1],
                    )) {
                        (Type::Number, Scan::Number)
                    } else {
                        (Type::Plain, Scan::Normal)
                    }
                },
            };
            assert(before == seq![t] + classify(s@, *opts, i + 1, next));
            hl.push(t);
            assert(hl@ + classify(s@, *opts, i + 1, next) =~= (hl@.drop_last() + seq![t])
                + classify(s@, *opts, i + 1, next));
            st = next;
            i += 1;
        }
        assert(hl@ == classify(s@, *opts, 0, Scan::Normal));
        hl
    }

    /// Marks as search matches the columns of `base` inside an occurrence of `q`.
    fn mark_matches(&self, base: Vec<Type>, q: &Vec<char>) -> (r: Vec<Type>)
        requires
            base@.len() == self@.len(),
        ensures
            r@ == with_matches(base@, self@, q@),
    {
        let n = self.string.len();
        let m = q.len();
        let mut out = base;
        if m == 0 || m > n {
            assert(out@ =~= with_matches(base@, self@, q@)) by {
                assert forall|k: int| 0 <= k < out@.len() implies !covered(self@, q@, k) by {
                    if covered(self@, q@, k) {
                        let j = choose|j: int| #[trigger] occurs_at(self@, q@, j) && j <= k < j
                            + q@.len();
                    }
                }
            }
            return out;
        }
        let mut j: usize = 0;
        while j <= n - m
            invariant
                n == self@.len(),
                m == q@.len(),
                0 < m <= n,
                out@.len() == n,
                base@.len() == n,
                forall|k: int|
                    0 <= k < n ==> #[trigger] out@[k] == if covered_before(self@, q@, k, j as int) {
                        Type::SearchMatch
                    } else {
                        base@[k]
                    },
            decreases n + 1 - j,
        {
            if self.matches_at(q, j) {
                let mut t: usize = 0;
                while t < m
                    invariant
                        n == self@.len(),
                        m == q@.len(),
                        j + m <= n,
                        t <= m,
                        out@.len() == n,
                        occurs_at(self@, q@, j as int),
                        forall|k: int|
                            0 <= k < n ==> #[trigger] out@[k] == if covered_before(
                                self@,
                                q@,
                                k,
                                j as int,
                            ) || (j <= k < j + t) {
                                Type::SearchMatch
                            } else {
                                base@[k]
                            },
                    decreases m - t,
                {
                    out.set(j + t, Type::SearchMatch);
                    t += 1;
                }
                assert forall|k: int| 0 <= k < n implies #[trigger] covered_before(
                    self@,
                    q@,
                    k,
                    j + 1,
                ) == (covered_before(self@, q@, k, j as int) || (j <= k < j + m)) by {
                    if covered_before(self@, q@, k, j + 1) && !covered_before(self@, q@, k, j as int) {
                        let jj = choose|jj: int| jj < j + 1 && #[trigger] occurs_at(self@, q@, jj)
                            && jj <= k < jj + q@.len();
                        assert(jj == j);
                    }
                }
            } else {
                assert forall|k: int| 0 <= k < n implies #[trigger] covered_before(
                    self@,
                    q@,
                    k,
                    j + 1,
                ) == covered_before(self@, q@, k, j as int) by {
                    if covered_before(self@, q@, k, j + 1) && !covered_before(self@, q@, k, j as int) {
                        let jj = choose|jj: int| jj < j + 1 && #[trigger] occurs_at(self@, q@, jj)
                            && jj <= k < jj + q@.len();
                        assert(jj == j);
                    }
                }
            }
            j += 1;
        }
        assert forall|k: int| 0 <= k < n implies #[trigger] covered_before(self@, q@, k, j as int)
            == covered(self@, q@, k) by {
            if covered(self@, q@, k) {
                let jj = choose|jj: int| #[trigger] occurs_at(self@, q@, jj) && jj <= k < jj
                    + q@.len();
                assert(jj < j);
            }
        }
        assert(out@ =~= with_matches(base@, self@, q@));
        out
    }

    /// Recomputes the colour classes under `opts`, marking every occurrence of
    /// `word`, when given, as a search match.
    pub fn highlight(&mut self, opts: &HighlightingOptions, word: Option<&str>)
        ensures
            final(self)@ == old(self)@,
            final(self).hl() == highlight_of(old(self)@, *opts, word_view(word)),
            final(self).hl().len() == final(self)@.len(),
    {
        let base = self.classes(opts);
        proof {
            lemma_classify_len(self@, *opts, 0, Scan::Normal);
        }
        let hl = match word {
            None => base,
            Some(w) => {
                let q = chars_of(w);
                self.mark_matches(base, &q)
            },
        };
        self.highlighting = hl;
    }

    /// The columns `[start, end)` as drawn on the terminal: see `render_spec`.
    pub fn render(&self, start: usize, end: usize) -> (r: String)
        ensures
            r@ == render_spec(self@, self.hl(), start as int, end as int),
    {
        let n = self.string.len();
        let e = if end < n {
            end
        } else {
            n
        };
        let b = if start < e {
            start
        } else {
            e
        };
        let mut v: Vec<char> = Vec::new();
        let mut cur = Type::Plain;
        let mut i = b;
        while i < e
            invariant
                b <= i <= e,
                e <= self@.len(),
                v@ + render_from(self@, self.hl(), i as int, e as int, cur) == render_from(
                    self@,
                    self.hl(),
                    b as int,
                    e as int,
                    Type::Plain,
                ),
            decreases e - i,
        {
            let t = if i < self.highlighting.len() {
                self.highlighting[i]
            } else {
                Type::Plain
            };
            let ghost before = v@;
            if t != cur {
                let esc = t.to_string();
                push_str(&mut v, esc.as_str());
            }
            let c = self.string[i];
            if c == '\t' {
                let mut k: usize = 0;
                while k < TAB_WIDTH
                    invariant
                        k <= TAB_WIDTH,
                        v@ == before + (if t != cur { t.escape() } else { Seq::empty() }) + Seq::new(k as nat, |_i: int| ' '),
                    decreases TAB_WIDTH - k,
                {
                    v.push(' ');
                    k += 1;
                    assert(v@ =~= before + (if t != cur { t.escape() } else { Seq::empty() }) + Seq::new(k as nat, |_i: int| ' '));
                }
            } else if (c as u32) < 32 || c as u32 == 127 {
                v.push('?');
            } else {
                v.push(c);
            }
            assert(v@ =~= before + (if t != cur { t.escape() } else { Seq::empty() }) + glyph(c));
            assert(v@ + render_from(self@, self.hl(), i + 1, e as int, t) =~= before + render_from(self@, self.hl(), i as int, e as int, cur));
            cur = t;
            i += 1;
        }
        let tail = Type::Plain.to_string();
        push_str(&mut v, tail.as_str());
        string_of(&v)
    }

    /// Places `c` before column `at`, or at the end where `at` is past it.
    pub fn insert(&mut self, at: usize, c: char)
        ensures
            final(self)@ == insert_char(old(self)@, at as int, c),
    {
        if at < self.string.len() {
            self.string.insert(at, c);
        } else {
            self.string.push(c);
        }
    }

    /// Removes the character at column `at`, if there is one.
    pub fn delete(&mut self, at: usize)
        ensures
            final(self)@ == delete_char(old(self)@, at as int),
    {
        if at < self.string.len() {
            self.string.remove(at);
        }
    }

    /// Keeps the columns before `at` and returns a row of the rest.
    pub fn split(&mut self, at: usize) -> (r: Row)
        ensures
            final(self)@ == split_head(old(self)@, at as int),
            r@ == split_tail(old(self)@, at as int),
    {
        let cut = if at < self.string.len() {
            at
        } else {
            self.string.len()
        };
        let tail = self.string.split_off(cut);
        proof {
            assert(self.string@ =~= split_head(old(self)@, at as int));
            assert(tail@ =~= split_tail(old(self)@, at as int));
        }
        Row { string: tail, highlighting: Vec::new() }
    }

    /// Appends the characters of `new` to the end of the row.
    pub fn append(&mut self, new: &Row)
        ensures
            final(self)@ == old(self)@ + new@,
    {
        let mut i: usize = 0;
        while i < new.string.len()
            invariant
                i <= new@.len(),
                self@ == old(self)@ + new@.take(i as int),
            decreases new@.len() - i,
        {
            self.string.push(new.string[i]);
            i += 1;
            assert(new@.take(i as int) == new@.take(i - 1 as int).push(new@[i - 1]));
        }
        assert(new@.take(new@.len() as int) == new@);
    }

    /// Whether `q` occurs starting at column `j`.
    fn matches_at(&self, q: &Vec<char>, j: usize) -> (r: bool)
        requires
            j + q@.len() <= self@.len(),
        ensures
            r == occurs_at(self@, q@, j as int),
    {
        let n = self.string.len();
        let mut k: usize = 0;
        while k < q.len()
            invariant
                n == self@.len(),
                k <= q@.len(),
                j + q@.len() <= self@.len(),
                forall|t: int| 0 <= t < k ==> self@[j + t] == q@[t],
            decreases q@.len() - k,
        {
            if self.string[j + k] != q[k] {
                assert(self@.subrange(j as int, j + q@.len())[k as int] != q@[k as int]);
                return false;
            }
            k += 1;
        }
        assert(self@.subrange(j as int, j + q@.len()) =~= q@);
        true
    }

    /// The occurrence of `query` nearest to column `at` in `direction`: the first
    /// that starts at or after `at` (forward), or the last that starts at or before
    /// it (backward). Matching is exact, character by character.
    pub fn find(&self, query: &str, at: usize, direction: SearchDirection) -> (r: Option<usize>)
        ensures
            match r {
                Some(j) => is_nearest_match(self@, query@, at as int, direction, j as int),
                None => !has_match(self@, query@, at as int, direction),
            },
    {
        let q = chars_of(query);
        let n = self.string.len();
        let m = q.len();
        if m > n {
            assert forall|j: int| !#[trigger] occurs_at(self@, query@, j) by {}
            return None;
        }
        let last = n - m;
        match direction {
            SearchDirection::Forward => {
                if at > last {
                    assert forall|k: int| in_scope(k, at as int, direction) implies !#[trigger] occurs_at(self@, query@, k) by {}
                    return None;
                }
                let mut j = at;
                loop
                    invariant
                        q@ == query@,
                        direction == SearchDirection::Forward,
                        last == self@.len() - q@.len(),
                        at <= j <= last,
                        forall|k: int| at <= k < j ==> !#[trigger] occurs_at(self@, query@, k),
                    decreases last - j,
                {
                    if self.matches_at(&q, j) {
                        return Some(j);
                    }
                    if j == last {
                        assert forall|k: int| in_scope(k, at as int, direction) implies !#[trigger] occurs_at(self@, query@, k) by {}
                        return None;
                    }
                    j += 1;
                }
            },
            SearchDirection::Backward => {
                let mut j = if at < last {
                    at
                } else {
                    last
                };
                loop
                    invariant
                        q@ == query@,
                        direction == SearchDirection::Backward,
                        last == self@.len() - q@.len(),
                        j <= at,
                        j <= last,
                        forall|k: int| j < k <= at ==> !#[trigger] occurs_at(self@, query@, k),
                    decreases j,
                {
                    if self.matches_at(&q, j) {
                        return Some(j);
                    }
                    if j == 0 {
                        assert forall|k: int| in_scope(k, at as int, direction) implies !#[trigger] occurs_at(self@, query@, k) by {}
                        return None;
                    }
                    j -= 1;
                }
            },
        }
    }
}

/// A split followed by an append of the cut-off part gives back the text it started from.
pub proof fn lemma_split_then_append(s: Seq<char>, at: int)
    requires
        0 <= at,
    ensures
        split_head(s, at) + split_tail(s, at) == s,
{
    assert(split_head(s, at) + split_tail(s, at) =~= s);
}

} // verus!
