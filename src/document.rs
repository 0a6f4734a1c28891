use vstd::prelude::*;
use crate::filetype::{kind_name, kind_options, FileType, HighlightingOptions};
use crate::highlighting::Type;
use crate::position::{Position, SearchDirection};
use crate::text::{decimal, decimal_chars, extend_chars, push_str, string_of};
use crate::row::{
    delete_char, has_match, highlight_of, in_scope, insert_char, is_nearest_match, nearer,
    split_head, split_tail, word_view, Row,
};

verus! {

/// The rows after typing `c` at `at`: a line break splits the row (or opens one
/// past the last row), another character goes into its row, or into a new last
/// row where `at.y` is the row count. A row index past that changes nothing.
pub open spec fn doc_insert(rows: Seq<Seq<char>>, at: Position, c: char) -> Seq<Seq<char>> {
    if at.y > rows.len() {
        rows
    } else if c == '\n' {
        doc_newline(rows, at)
    } else if at.y == rows.len() {
        rows.push(seq![c])
    } else {
        rows.update(at.y as int, insert_char(rows[at.y as int], at.x as int, c))
    }
}

/// The rows after a line break at `at`: the row is split there and its tail
/// becomes the next row; at the row count an empty row is added.
pub open spec fn doc_newline(rows: Seq<Seq<char>>, at: Position) -> Seq<Seq<char>> {
    if at.y < rows.len() {
        rows.update(at.y as int, split_head(rows[at.y as int], at.x as int)).insert(
            at.y + 1,
            split_tail(rows[at.y as int], at.x as int),
        )
    } else if at.y == rows.len() {
        rows.push(Seq::empty())
    } else {
        rows
    }
}

/// The rows after a forward delete at `at`: at the end of a row that has a
/// successor the two rows are joined, elsewhere the character there is removed.
pub open spec fn doc_delete(rows: Seq<Seq<char>>, at: Position) -> Seq<Seq<char>> {
    if at.y >= rows.len() {
        rows
    } else if at.x == rows[at.y as int].len() && at.y + 1 < rows.len() {
        rows.update(at.y as int, rows[at.y as int] + rows[at.y + 1]).remove(at.y + 1)
    } else {
        rows.update(at.y as int, delete_char(rows[at.y as int], at.x as int))
    }
}

/// The rows without row `at.y`, where there is one.
pub open spec fn doc_delete_line(rows: Seq<Seq<char>>, at: Position) -> Seq<Seq<char>> {
    if at.y < rows.len() {
        rows.remove(at.y as int)
    } else {
        rows
    }
}

/// The column from which row `y` is searched: `from.x` in the row where the
/// search starts, else the start (forward) or the end (backward) of the row.
pub open spec fn start_col(rows: Seq<Seq<char>>, from: Position, direction: SearchDirection, y: int) -> int {
    if y == from.y {
        from.x as int
    } else {
        match direction {
            SearchDirection::Forward => 0,
            SearchDirection::Backward => rows[y].len() as int,
        }
    }
}

/// Row `y` holds a match for a document search from `from`.
pub open spec fn row_has_match(
    rows: Seq<Seq<char>>,
    q: Seq<char>,
    from: Position,
    direction: SearchDirection,
    y: int,
) -> bool {
    has_match(rows[y], q, start_col(rows, from, direction, y), direction)
}

/// Some row within the scope of a document search from `from` holds a match.
/// The search does not wrap around the ends of the document.
pub open spec fn doc_has_match(rows: Seq<Seq<char>>, q: Seq<char>, from: Position, direction: SearchDirection) -> bool {
    &&& from.y < rows.len()
    &&& exists|y: int|
        0 <= y < rows.len() && in_scope(y, from.y as int, direction) && #[trigger] row_has_match(
            rows,
            q,
            from,
            direction,
            y,
        )
}

/// `p` is where a document search from `from` stops: the nearest row in the
/// direction of the search that holds a match, and the nearest match in it.
pub open spec fn is_doc_match(
    rows: Seq<Seq<char>>,
    q: Seq<char>,
    from: Position,
    direction: SearchDirection,
    p: Position,
) -> bool {
    &&& from.y < rows.len()
    &&& p.y < rows.len()
    &&& in_scope(p.y as int, from.y as int, direction)
    &&& is_nearest_match(rows[p.y as int], q, start_col(rows, from, direction, p.y as int), direction, p.x as int)
    &&& forall|y: int| nearer(y, p.y as int, from.y as int, direction) ==> !#[trigger] row_has_match(rows, q, from, direction, y)
}

/// The persisted size of the rows: each row's characters and one line terminator.
pub open spec fn total_size(rows: Seq<Seq<char>>) -> nat
    decreases rows.len(),
{
    if rows.len() == 0 {
        0
    } else {
        total_size(rows.drop_last()) + rows.last().len() + 1
    }
}

/// The characters of an optional name.
pub open spec fn name_view(name: Option<String>) -> Option<Seq<char>> {
    match name {
        None => None,
        Some(n) => Some(n@),
    }
}

/// The text as persisted: each row followed by one line terminator.
pub open spec fn persisted_text(rows: Seq<Seq<char>>) -> Seq<char>
    decreases rows.len(),
{
    if rows.len() == 0 {
        Seq::empty()
    } else {
        persisted_text(rows.drop_last()) + rows.last() + seq!['\n']
    }
}

/// The report of a successful save: `"name" <rows>L, <size>B written`.
pub open spec fn save_message(name: Seq<char>, rows: nat, size: nat) -> Seq<char> {
    seq!['"'] + name + seq!['"', ' '] + decimal(rows) + seq!['L', ',', ' '] + decimal(size)
        + seq!['B', ' ', 'w', 'r', 'i', 't', 't', 'e', 'n']
}

/// Why a document was not persisted.
#[derive(Debug)]
pub enum DocumentError {
    /// The document has no rows and no unsaved change: there is nothing to save.
    EmptyDocument,
    /// Neither the document nor the command named a file.
    NoFileName,
    /// Writing the file failed, for the reason given.
    Io(String),
}

/// The text of the message of each error.
pub open spec fn error_text(e: DocumentError) -> Seq<char> {
    match e {
        DocumentError::EmptyDocument => seq!['D', 'o', 'c', 'u', 'm', 'e', 'n', 't', ' ', 'i', 's', ' ', 'e', 'm', 'p', 't', 'y'],
        DocumentError::NoFileName => seq![
            'D', 'o', 'c', 'u', 'm', 'e', 'n', 't', ' ', 'h', 'a', 's', ' ', 'n', 'o', ' ', 'f', 'i',
            'l', 'e', ' ', 'n', 'a', 'm', 'e'
        ],
        DocumentError::Io(m) => m@,
    }
}

impl DocumentError {
    /// A sentence that says what went wrong.
    pub fn message(&self) -> (r: String)
        ensures
            r@ == error_text(*self),
    {
        match self {
            DocumentError::EmptyDocument => {
                let r = String::from_str("Document is empty");
                proof {
                    reveal_strlit("Document is empty");
                }
                assert(r@ =~= error_text(*self));
                r
            },
            DocumentError::NoFileName => {
                let r = String::from_str("Document has no file name");
                proof {
                    reveal_strlit("Document has no file name");
                }
                assert(r@ =~= error_text(*self));
                r
            },
            DocumentError::Io(m) => m.clone(),
        }
    }
}

/// The characters of an optional borrowed name.
pub open spec fn str_view(name: Option<&str>) -> Option<Seq<char>> {
    match name {
        None => None,
        Some(n) => Some(n@),
    }
}

/// How `save_as(filename, outcome)` leaves a document and what it returns: see
/// `Document::save_as`.
pub open spec fn save_as_post(
    old: Document,
    new: Document,
    filename: Option<Seq<char>>,
    outcome: Result<(), String>,
    r: Result<String, DocumentError>,
) -> bool {
    &&& new@ == old@
    &&& old.nothing_to_save() ==> (r matches Err(DocumentError::EmptyDocument))
        && new.name_spec() == old.name_spec()
        && new.is_dirty_spec() == old.is_dirty_spec()
        && new.options() == old.options()
    &&& !old.nothing_to_save() ==> {
        let target = old.target_spec(filename);
        &&& new.name_spec() == (if filename is Some && old.name_spec() is None { filename } else { old.name_spec() })
        &&& new.is_dirty_spec() == match filename {
            Some(n) => if (old.name_spec() == Some(n) || old.name_spec() is None) && outcome is Ok { false } else { old.is_dirty_spec() },
            None => if target is Some && outcome is Ok { false } else { old.is_dirty_spec() },
        }
        &&& target is None ==> (r matches Err(DocumentError::NoFileName)) && new.options() == old.options()
        &&& target is Some && outcome is Err ==> r is Err && r->Err_0 is Io && r->Err_0->Io_0@ == outcome->Err_0@ && new.options() == old.options()
        &&& target is Some && outcome is Ok ==> r is Ok
            && r->Ok_0@ == save_message(target->Some_0, old@.len(), if total_size(old@) <= usize::MAX { total_size(old@) } else { usize::MAX as nat })
            && new.options() == kind_options(target->Some_0) && new.kind_spec() == kind_name(target->Some_0)
            && forall|y: int| 0 <= y < new@.len() ==> #[trigger] new.row_highlighted(y)
    }
}

/// An ordered buffer of rows with the identity and state of its file.
#[derive(Debug)]
pub struct Document {
    rows: Vec<Row>,
    pub file_name: Option<String>,
    dirty: bool,
    file_type: FileType,
}

impl View for Document {
    type V = Seq<Seq<char>>;

    closed spec fn view(&self) -> Seq<Seq<char>> {
        self.rows@.map_values(|r: Row| r@)
    }
}

impl Default for Document {
    /// An unnamed, clean document without rows.
    fn default() -> (r: Document)
        ensures
            r@ == Seq::<Seq<char>>::empty(),
            r.name_spec() is None,
            !r.is_dirty_spec(),
            r.kind_spec() == kind_name(Seq::empty()),
            r.options() == kind_options(Seq::empty()),
            r.wf(),
    {
        let r = Document { rows: Vec::new(), file_name: None, dirty: false, file_type: FileType::default() };
        assert(r@ =~= Seq::<Seq<char>>::empty());
        r
    }
}

impl Document {
    /// The name of the document's file, if it has one.
    pub closed spec fn name_spec(&self) -> Option<Seq<char>> {
        name_view(self.file_name)
    }

    pub closed spec fn is_dirty_spec(&self) -> bool {
        self.dirty
    }

    /// The highlighting policy of the document's file type.
    pub closed spec fn options(&self) -> HighlightingOptions {
        self.file_type.options_spec()
    }

    /// The name of the document's file type.
    pub closed spec fn kind_spec(&self) -> Seq<char> {
        self.file_type.name_spec()
    }

    /// The colour classes of row `y`, as last computed.
    pub closed spec fn row_classes(&self, y: int) -> Seq<Type> {
        self.rows@[y].hl()
    }

    /// The row count and every row's length fit in `usize`.
    pub proof fn lemma_view_bounds(&self)
        ensures
            self@.len() <= usize::MAX,
            forall|y: int| 0 <= y < self@.len() ==> #[trigger] self@[y].len() <= usize::MAX,
    {
        assert(self.rows.len() == self.rows@.len());
        assert forall|y: int| 0 <= y < self@.len() implies #[trigger] self@[y].len() <= usize::MAX by {
            assert(self@[y] == self.rows@[y]@);
            self.rows@[y].lemma_len_fits();
        }
    }

    /// Every row has one colour class per character.
    pub open spec fn wf(&self) -> bool {
        forall|y: int| 0 <= y < self@.len() ==> #[trigger] self.row_classes(y).len() == self@[y].len()
    }

    /// Row `y` is coloured under the document's policy, without search matches.
    pub open spec fn row_highlighted(&self, y: int) -> bool {
        self.row_classes(y) == highlight_of(self@[y], self.options(), None)
    }

    /// A new, unsaved document without rows, named `name` (unnamed where `name`
    /// is empty); it counts as changed.
    pub fn from_empty_named(name: &str) -> (r: Document)
        ensures
            r@ == Seq::<Seq<char>>::empty(),
            name@.len() == 0 ==> r.name_spec() is None,
            name@.len() > 0 ==> r.name_spec() == Some(name@),
            r.is_dirty_spec(),
            r.kind_spec() == kind_name(name@),
            r.options() == kind_options(name@),
            r.wf(),
    {
        let file_name = if name.is_empty() {
            None
        } else {
            Some(name.to_owned())
        };
        let r = Document { rows: Vec::new(), file_name, dirty: true, file_type: FileType::from(name) };
        assert(r@ =~= Seq::<Seq<char>>::empty());
        r
    }

    /// The document read from the file `filename`, one row per line, each
    /// coloured under the file type of the name; it counts as unchanged.
    pub fn open(filename: &str, lines: &Vec<String>) -> (r: Document)
        ensures
            r@ == lines@.map_values(|l: String| l@),
            r.name_spec() == Some(filename@),
            !r.is_dirty_spec(),
            r.kind_spec() == kind_name(filename@),
            r.options() == kind_options(filename@),
            forall|y: int| 0 <= y < r@.len() ==> #[trigger] r.row_highlighted(y),
            r.wf(),
    {
        let file_type = FileType::from(filename);
        let opts = file_type.highlight_options();
        let mut rows: Vec<Row> = Vec::new();
        let mut i: usize = 0;
        while i < lines.len()
            invariant
                i <= lines@.len(),
                rows@.len() == i,
                forall|y: int| 0 <= y < i ==> #[trigger] rows@[y]@ == lines@[y]@,
                forall|y: int| 0 <= y < i ==> #[trigger] rows@[y].hl() == highlight_of(rows@[y]@, opts, None),
                forall|y: int| 0 <= y < i ==> #[trigger] rows@[y].hl().len() == rows@[y]@.len(),
            decreases lines@.len() - i,
        {
            let mut row = Row::from(lines[i].as_str());
            row.highlight(&opts, None);
            rows.push(row);
            i += 1;
        }
        let r = Document { rows, file_name: Some(filename.to_owned()), dirty: false, file_type };
        assert(r@ =~= lines@.map_values(|l: String| l@));
        proof {
            lemma_wf_rows(r);
        }
        r
    }

    /// A document with no rows and no unsaved change has nothing to save.
    pub open spec fn nothing_to_save(&self) -> bool {
        self@.len() == 0 && !self.is_dirty_spec()
    }

    /// The file a save names: the given name, else the document's own.
    pub open spec fn target_spec(&self, filename: Option<Seq<char>>) -> Option<Seq<char>> {
        match filename {
            Some(n) => Some(n),
            None => self.name_spec(),
        }
    }

    /// The file that `save_as(filename, ..)` writes: an error where there is
    /// nothing to save or no name to save under.
    pub fn save_target(&self, filename: Option<&str>) -> (r: Result<String, DocumentError>)
        ensures
            self.nothing_to_save() ==> r matches Err(DocumentError::EmptyDocument),
            !self.nothing_to_save() && self.target_spec(str_view(filename)) is None ==> r matches Err(DocumentError::NoFileName),
            !self.nothing_to_save() && self.target_spec(str_view(filename)) is Some ==> (r is Ok && Some(r->Ok_0@) == self.target_spec(str_view(filename))),
    {
        if self.rows.len() == 0 && !self.dirty {
            return Err(DocumentError::EmptyDocument);
        }
        match filename {
            Some(n) => Ok(n.to_owned()),
            None => match &self.file_name {
                Some(f) => Ok(f.clone()),
                None => Err(DocumentError::NoFileName),
            },
        }
    }

    /// The text to persist: each row followed by a line terminator.
    pub fn contents(&self) -> (r: String)
        ensures
            r@ == persisted_text(self@),
    {
        let mut v: Vec<char> = Vec::new();
        let mut i: usize = 0;
        while i < self.rows.len()
            invariant
                i <= self@.len(),
                v@ == persisted_text(self@.take(i as int)),
            decreases self@.len() - i,
        {
            let cs = self.rows[i].chars();
            let mut k: usize = 0;
            while k < cs.len()
                invariant
                    i < self@.len(),
                    cs@ == self@[i as int],
                    k <= cs@.len(),
                    v@ == persisted_text(self@.take(i as int)) + cs@.take(k as int),
                decreases cs@.len() - k,
            {
                v.push(cs[k]);
                k += 1;
                assert(cs@.take(k as int) =~= cs@.take(k - 1 as int).push(cs@[k - 1]));
            }
            v.push('\n');
            assert(self@.take(i + 1 as int).drop_last() =~= self@.take(i as int));
            assert(cs@.take(cs@.len() as int) =~= cs@);
            i += 1;
        }
        assert(self@.take(i as int) =~= self@);
        string_of(&v)
    }

    /// Persists the document under its own name, `outcome` being what writing
    /// `contents()` to that file gave: on success the document counts as
    /// unchanged, the file type follows the name, the rows are recoloured and
    /// the report is returned.
    pub fn save(&mut self, outcome: Result<(), String>) -> (r: Result<String, DocumentError>)
        ensures
            old(self).wf() ==> final(self).wf(),
            final(self)@ == old(self)@,
            final(self).name_spec() == old(self).name_spec(),
            final(self).is_dirty_spec() == if old(self).name_spec() is Some && outcome is Ok {
                false
            } else {
                old(self).is_dirty_spec()
            },
            old(self).name_spec() is None ==> (r matches Err(DocumentError::NoFileName)) && final(self).options() == old(self).options(),
            old(self).name_spec() is Some && outcome is Err ==> r is Err && r->Err_0 is Io && r->Err_0->Io_0@ == outcome->Err_0@ && final(self).options() == old(self).options(),
            old(self).name_spec() is Some && outcome is Ok ==> r is Ok
                && r->Ok_0@ == save_message(old(self).name_spec()->Some_0, old(self)@.len(), if total_size(old(self)@) <= usize::MAX { total_size(old(self)@) } else { usize::MAX as nat })
                && final(self).options() == kind_options(old(self).name_spec()->Some_0) && final(self).kind_spec() == kind_name(old(self).name_spec()->Some_0)
                && forall|y: int| 0 <= y < final(self)@.len() ==> #[trigger] final(self).row_highlighted(y),
    {
        let name = match &self.file_name {
            None => {
                return Err(DocumentError::NoFileName);
            },
            Some(n) => n.clone(),
        };
        match outcome {
            Err(e) => Err(DocumentError::Io(e)),
            Ok(()) => {
                self.dirty = false;
                self.file_type = FileType::from(name.as_str());
                self.highlight(None);
                let mut v: Vec<char> = Vec::new();
                v.push('"');
                push_str(&mut v, name.as_str());
                push_str(&mut v, "\" ");
                let rows = decimal_chars(self.rows.len());
                extend_chars(&mut v, &rows);
                push_str(&mut v, "L, ");
                let size = decimal_chars(self.size_in_bytes());
                extend_chars(&mut v, &size);
                push_str(&mut v, "B written");
                proof {
                    reveal_strlit("\" ");
                    reveal_strlit("L, ");
                    reveal_strlit("B written");
                }
                assert(v@ =~= save_message(name@, old(self)@.len(), if total_size(old(self)@) <= usize::MAX { total_size(old(self)@) } else { usize::MAX as nat }));
                Ok(string_of(&v))
            },
        }
    }

    /// Persists the document under `filename`, or under its own name.
    /// `outcome` is what writing `contents()` to the file named by
    /// `save_target(filename)` gave. A document with nothing to save is refused
    /// unchanged. Saving under a name other than the document's own keeps the
    /// document's name and its changed state; saving under its own name, under
    /// no name, or naming an unnamed document marks it unchanged once the
    /// write succeeded.
    pub fn save_as(&mut self, filename: Option<&str>, outcome: Result<(), String>) -> (r: Result<String, DocumentError>)
        ensures
            save_as_post(*old(self), *final(self), str_view(filename), outcome, r),
            old(self).wf() ==> final(self).wf(),
    {
        if self.rows.len() == 0 && !self.dirty {
            return Err(DocumentError::EmptyDocument);
        }
        proof {
            lemma_wf_rows(*old(self));
        }
        let r = match filename {
            Some(n) => {
                let given = String::from_str(n);
                match &self.file_name {
                    Some(current) => {
                        if given == *current {
                            self.save(outcome)
                        } else {
                            let prev_name = self.file_name.clone();
                            let prev_dirty = self.dirty;
                            self.file_name = Some(given);
                            proof {
                                lemma_wf_rows(*self);
                            }
                            let r = self.save(outcome);
                            proof {
                                lemma_wf_rows(*self);
                            }
                            let ghost mid = *self;
                            self.file_name = prev_name;
                            self.dirty = prev_dirty;
                            assert forall|y: int| mid.row_highlighted(y) implies #[trigger] self.row_highlighted(y) by {}
                            r
                        }
                    },
                    None => {
                        self.file_name = Some(given);
                        proof {
                            lemma_wf_rows(*self);
                        }
                        self.save(outcome)
                    },
                }
            },
            None => self.save(outcome),
        };
        proof {
            lemma_wf_rows(*self);
        }
        r
    }

    /// The row at `index`, if there is one.
    pub fn row(&self, index: usize) -> (r: Option<&Row>)
        ensures
            match r {
                Some(row) => index < self@.len() && row@ == self@[index as int] && row.hl()
                    == self.row_classes(index as int),
                None => index >= self@.len(),
            },
    {
        if index < self.rows.len() {
            Some(&self.rows[index])
        } else {
            None
        }
    }

    /// Splits the row at `at` in two, the tail becoming the next row; at the
    /// row count adds an empty row; past it does nothing. Marks the document
    /// changed unless `at.y` is past the row count.
    pub fn insert_newline(&mut self, at: &Position)
        ensures
            old(self).wf() ==> final(self).wf(),
            final(self)@ == doc_newline(old(self)@, *at),
            final(self).is_dirty_spec() == (old(self).is_dirty_spec() || at.y <= old(self)@.len()),
            final(self).name_spec() == old(self).name_spec(),
            final(self).options() == old(self).options(),
            final(self).kind_spec() == old(self).kind_spec(),
            at.y <= old(self)@.len() ==> final(self).row_highlighted(at.y as int),
            at.y < old(self)@.len() ==> final(self).row_highlighted(at.y + 1),
    {
        proof {
            lemma_wf_rows(*old(self));
        }
        let len = self.rows.len();
        if at.y <= len {
            self.dirty = true;
        }
        proof {
            lemma_wf_rows(*self);
        }
        if at.y < len {
            let opts = self.file_type.highlight_options();
            let mut new_row = self.rows[at.y].split(at.x);
            self.rows[at.y].highlight(&opts, None);
            new_row.highlight(&opts, None);
            let ghost mid = self.rows@;
            proof {
                if rows_wf(old(self).rows@) {
                    assert(mid =~= old(self).rows@.update(at.y as int, mid[at.y as int]));
                    lemma_rows_update(old(self).rows@, at.y as int, mid[at.y as int]);
                    lemma_rows_insert(mid, at.y + 1, new_row);
                }
            }
            self.rows.insert(at.y + 1, new_row);
            assert(self@ =~= doc_newline(old(self)@, *at));
        } else if at.y == len {
            self.rows.push(Row::default());
            assert(self@ =~= doc_newline(old(self)@, *at));
            assert(highlight_of(self@[at.y as int], self.options(), None) =~= Seq::<Type>::empty());
            proof {
                if rows_wf(old(self).rows@) {
                    lemma_rows_insert(old(self).rows@, len as int, self.rows@[len as int]);
                    assert(self.rows@ =~= old(self).rows@.insert(len as int, self.rows@[len as int]));
                }
            }
        } else {
        }
        proof {
            lemma_wf_rows(*self);
        }
    }

    /// Types `c` at `at`: see `doc_insert`. Marks the document changed unless
    /// `at.y` is past the row count.
    pub fn insert(&mut self, at: &Position, c: char)
        ensures
            old(self).wf() ==> final(self).wf(),
            final(self)@ == doc_insert(old(self)@, *at, c),
            final(self).is_dirty_spec() == (old(self).is_dirty_spec() || at.y <= old(self)@.len()),
            final(self).name_spec() == old(self).name_spec(),
            final(self).options() == old(self).options(),
            final(self).kind_spec() == old(self).kind_spec(),
            at.y <= old(self)@.len() ==> final(self).row_highlighted(at.y as int),
            at.y < old(self)@.len() && c == '\n' ==> final(self).row_highlighted(at.y + 1),
    {
        proof {
            lemma_wf_rows(*old(self));
        }
        let len = self.rows.len();
        if at.y > len {
            return;
        }
        self.dirty = true;
        proof {
            lemma_wf_rows(*self);
        }
        if c == '\n' {
            self.insert_newline(at);
            return;
        }
        let opts = self.file_type.highlight_options();
        if at.y == len {
            let mut row = Row::default();
            row.insert(0, c);
            row.highlight(&opts, None);
            proof {
                if rows_wf(old(self).rows@) {
                    lemma_rows_insert(old(self).rows@, len as int, row);
                }
            }
            self.rows.push(row);
            assert(self@ =~= doc_insert(old(self)@, *at, c));
            assert(self.rows@ =~= old(self).rows@.insert(len as int, self.rows@[len as int]));
        } else {
            self.rows[at.y].insert(at.x, c);
            self.rows[at.y].highlight(&opts, None);
            assert(self@ =~= doc_insert(old(self)@, *at, c));
            proof {
                if rows_wf(old(self).rows@) {
                    assert(self.rows@ =~= old(self).rows@.update(at.y as int, self.rows@[at.y as int]));
                    lemma_rows_update(old(self).rows@, at.y as int, self.rows@[at.y as int]);
                }
            }
        }
        proof {
            lemma_wf_rows(*self);
        }
    }

    /// Deletes forward at `at`: see `doc_delete`. Marks the document changed
    /// unless `at.y` is not a row.
    pub fn delete(&mut self, at: &Position)
        ensures
            old(self).wf() ==> final(self).wf(),
            final(self)@ == doc_delete(old(self)@, *at),
            final(self).is_dirty_spec() == (old(self).is_dirty_spec() || at.y < old(self)@.len()),
            final(self).name_spec() == old(self).name_spec(),
            final(self).options() == old(self).options(),
            final(self).kind_spec() == old(self).kind_spec(),
            at.y < old(self)@.len() ==> final(self).row_highlighted(at.y as int),
    {
        proof {
            lemma_wf_rows(*old(self));
        }
        let len = self.rows.len();
        if at.y >= len {
            return;
        }
        self.dirty = true;
        let opts = self.file_type.highlight_options();
        if at.x == self.rows[at.y].len() && at.y + 1 < len {
            let next_row = self.rows.remove(at.y + 1);
            let ghost mid = self.rows@;
            self.rows[at.y].append(&next_row);
            self.rows[at.y].highlight(&opts, None);
            assert(self@ =~= doc_delete(old(self)@, *at));
            proof {
                if rows_wf(old(self).rows@) {
                    lemma_rows_remove(old(self).rows@, at.y + 1);
                    assert(mid =~= old(self).rows@.remove(at.y + 1));
                    assert(self.rows@ =~= mid.update(at.y as int, self.rows@[at.y as int]));
                    lemma_rows_update(mid, at.y as int, self.rows@[at.y as int]);
                }
            }
        } else {
            self.rows[at.y].delete(at.x);
            self.rows[at.y].highlight(&opts, None);
            assert(self@ =~= doc_delete(old(self)@, *at));
            proof {
                if rows_wf(old(self).rows@) {
                    assert(self.rows@ =~= old(self).rows@.update(at.y as int, self.rows@[at.y as int]));
                    lemma_rows_update(old(self).rows@, at.y as int, self.rows@[at.y as int]);
                }
            }
        }
        proof {
            lemma_wf_rows(*self);
        }
    }

    /// Removes the row `at.y`, if there is one, and marks the document changed.
    pub fn delete_line(&mut self, at: &Position)
        ensures
            old(self).wf() ==> final(self).wf(),
            final(self)@ == doc_delete_line(old(self)@, *at),
            final(self).is_dirty_spec() == (old(self).is_dirty_spec() || at.y < old(self)@.len()),
            final(self).name_spec() == old(self).name_spec(),
            final(self).options() == old(self).options(),
            final(self).kind_spec() == old(self).kind_spec(),
    {
        proof {
            lemma_wf_rows(*old(self));
        }
        if at.y >= self.rows.len() {
            return;
        }
        self.dirty = true;
        self.rows.remove(at.y);
        assert(self@ =~= doc_delete_line(old(self)@, *at));
        proof {
            if rows_wf(old(self).rows@) {
                lemma_rows_remove(old(self).rows@, at.y as int);
                assert(self.rows@ =~= old(self).rows@.remove(at.y as int));
            }
            lemma_wf_rows(*self);
        }
    }

    /// The match of `query` nearest to `at` in `direction`, without wrapping
    /// around the ends of the document: see `is_doc_match`.
    pub fn find(&self, query: &str, at: &Position, direction: SearchDirection) -> (r: Option<Position>)
        ensures
            match r {
                Some(p) => is_doc_match(self@, query@, *at, direction, p),
                None => !doc_has_match(self@, query@, *at, direction),
            },
            r is Some ==> doc_has_match(self@, query@, *at, direction),
            r matches Some(p) ==> p.y < self@.len() && p.x <= self@[p.y as int].len(),
    {
        let len = self.rows.len();
        if at.y >= len {
            return None;
        }
        let mut y = at.y;
        let mut x = at.x;
        loop
            invariant
                len == self@.len(),
                at.y < len,
                y < len,
                in_scope(y as int, at.y as int, direction),
                x == start_col(self@, *at, direction, y as int),
                forall|yy: int| nearer(yy, y as int, at.y as int, direction) ==> !#[trigger] row_has_match(self@, query@, *at, direction, yy),
            decreases (match direction {
                SearchDirection::Forward => len - y,
                SearchDirection::Backward => y as int,
            }),
        {
            assert(self@[y as int] == self.rows@[y as int]@);
            if let Some(j) = self.rows[y].find(query, x, direction) {
                assert(row_has_match(self@, query@, *at, direction, y as int));
                return Some(Position { x: j, y });
            }
            match direction {
                SearchDirection::Forward => {
                    if y + 1 == len {
                        assert forall|yy: int| 0 <= yy < len && in_scope(yy, at.y as int, direction)
                            implies !#[trigger] row_has_match(self@, query@, *at, direction, yy) by {
                            if yy != y {
                                assert(nearer(yy, y as int, at.y as int, direction));
                            }
                        }
                        return None;
                    }
                    y += 1;
                    x = 0;
                },
                SearchDirection::Backward => {
                    if y == 0 {
                        assert forall|yy: int| 0 <= yy < len && in_scope(yy, at.y as int, direction)
                            implies !#[trigger] row_has_match(self@, query@, *at, direction, yy) by {
                            if yy != y {
                                assert(nearer(yy, y as int, at.y as int, direction));
                            }
                        }
                        return None;
                    }
                    y -= 1;
                    x = self.rows[y].len();
                },
            }
        }
    }

    /// The size of the persisted text in characters: each row's length plus one
    /// line terminator (bytes of multi-byte characters are not counted apart).
    /// Saturates at the largest `usize`.
    pub fn size_in_bytes(&self) -> (r: usize)
        ensures
            r == if total_size(self@) <= usize::MAX {
                total_size(self@)
            } else {
                usize::MAX as nat
            },
    {
        let mut size: usize = 0;
        let mut i: usize = 0;
        while i < self.rows.len()
            invariant
                i <= self@.len(),
                size == if total_size(self@.take(i as int)) <= usize::MAX {
                    total_size(self@.take(i as int))
                } else {
                    usize::MAX as nat
                },
            decreases self@.len() - i,
        {
            let n = self.rows[i].len();
            size = size.saturating_add(n).saturating_add(1);
            assert(self@.take(i + 1 as int).drop_last() =~= self@.take(i as int));
            i += 1;
        }
        assert(self@.take(i as int) =~= self@);
        size
    }

    /// Recolours every row under the document's policy, marking every
    /// occurrence of `word`, when given, as a search match.
    pub fn highlight(&mut self, word: Option<&str>)
        ensures
            final(self).wf(),
            final(self)@ == old(self)@,
            final(self).is_dirty_spec() == old(self).is_dirty_spec(),
            final(self).name_spec() == old(self).name_spec(),
            final(self).options() == old(self).options(),
            final(self).kind_spec() == old(self).kind_spec(),
            forall|y: int| 0 <= y < final(self)@.len() ==> #[trigger] final(self).row_classes(y)
                == highlight_of(final(self)@[y], final(self).options(), word_view(word)),
    {
        let opts = self.file_type.highlight_options();
        let mut i: usize = 0;
        while i < self.rows.len()
            invariant
                i <= self@.len(),
                self@ == old(self)@,
                self.dirty == old(self).dirty,
                self.file_name == old(self).file_name,
                self.file_type == old(self).file_type,
                opts == self.options(),
                forall|y: int| 0 <= y < i ==> #[trigger] self.rows@[y].hl() == highlight_of(self.rows@[y]@, opts, word_view(word)),
                forall|y: int| 0 <= y < i ==> #[trigger] self.rows@[y].hl().len() == self.rows@[y]@.len(),
            decreases self@.len() - i,
        {
            self.rows[i].highlight(&opts, word);
            assert(self@ =~= old(self)@);
            i += 1;
        }
        assert forall|y: int| 0 <= y < self@.len() implies #[trigger] self.row_classes(y)
            == highlight_of(self@[y], self.options(), word_view(word)) by {
            assert(self@[y] == self.rows@[y]@);
        }
        proof {
            lemma_wf_rows(*self);
        }
    }

    pub fn is_empty(&self) -> (r: bool)
        ensures
            r == (self@.len() == 0),
    {
        self.rows.len() == 0
    }

    /// The name of the document's file, if it has one.
    pub fn name(&self) -> (r: &Option<String>)
        ensures
            name_view(*r) == self.name_spec(),
    {
        &self.file_name
    }

    /// The number of rows.
    pub fn len(&self) -> (r: usize)
        ensures
            r == self@.len(),
    {
        self.rows.len()
    }

    /// Whether the content differs from what was last persisted.
    pub fn is_dirty(&self) -> (r: bool)
        ensures
            r == self.is_dirty_spec(),
    {
        self.dirty
    }

    /// The name of the document's file type.
    pub fn file_type(&self) -> (r: String)
        ensures
            r@ == self.kind_spec(),
    {
        self.file_type.name()
    }
}

/// Every row of `rows` has one colour class per character.
spec fn rows_wf(rows: Seq<Row>) -> bool {
    forall|i: int| 0 <= i < rows.len() ==> #[trigger] rows[i].hl().len() == rows[i]@.len()
}

proof fn lemma_wf_rows(d: Document)
    ensures
        d.wf() <==> rows_wf(d.rows@),
{
    if d.wf() {
        assert forall|i: int| 0 <= i < d.rows@.len() implies #[trigger] d.rows@[i].hl().len() == d.rows@[i]@.len() by {
            assert(d@[i] == d.rows@[i]@);
            assert(d.row_classes(i) == d.rows@[i].hl());
        }
    }
    if rows_wf(d.rows@) {
        assert forall|i: int| 0 <= i < d@.len() implies #[trigger] d.row_classes(i).len() == d@[i].len() by {
            assert(d@[i] == d.rows@[i]@);
        }
    }
}

proof fn lemma_rows_update(rows: Seq<Row>, i: int, r: Row)
    requires
        rows_wf(rows),
        0 <= i < rows.len(),
        r.hl().len() == r@.len(),
    ensures
        rows_wf(rows.update(i, r)),
{
    assert forall|k: int| 0 <= k < rows.len() implies #[trigger] rows.update(i, r)[k].hl().len() == rows.update(i, r)[k]@.len() by {
        if k != i {
            assert(rows.update(i, r)[k] == rows[k]);
        }
    }
}

proof fn lemma_rows_insert(rows: Seq<Row>, i: int, r: Row)
    requires
        rows_wf(rows),
        0 <= i <= rows.len(),
        r.hl().len() == r@.len(),
    ensures
        rows_wf(rows.insert(i, r)),
{
    rows.insert_ensures(i, r);
    assert forall|k: int| 0 <= k < rows.len() + 1 implies #[trigger] rows.insert(i, r)[k].hl().len() == rows.insert(i, r)[k]@.len() by {
        if k > i {
            assert(rows.insert(i, r)[(k - 1) + 1] == rows[k - 1]);
        }
    }
}

proof fn lemma_rows_remove(rows: Seq<Row>, i: int)
    requires
        rows_wf(rows),
        0 <= i < rows.len(),
    ensures
        rows_wf(rows.remove(i)),
{
    rows.remove_ensures(i);
    assert forall|k: int| 0 <= k < rows.len() - 1 implies #[trigger] rows.remove(i)[k].hl().len() == rows.remove(i)[k]@.len() by {
        if k >= i {
            assert(rows.remove(i)[k] == rows[k + 1]);
        }
    }
}

/// Typing a character and then deleting forward at the same cell gives back the
/// rows as they were, for any cell of an existing row up to its end.
pub proof fn lemma_insert_then_delete(rows: Seq<Seq<char>>, at: Position, c: char)
    requires
        at.y < rows.len(),
        at.x <= rows[at.y as int].len(),
    ensures
        doc_delete(doc_insert(rows, at, c), at) == rows,
{
    let y = at.y as int;
    let x = at.x as int;
    let s = rows[y];
    if c == '\n' {
        let mid = doc_insert(rows, at, c);
        assert(mid[y] == split_head(s, x));
        assert(mid[y + 1] == split_tail(s, x));
        assert(split_head(s, x) + split_tail(s, x) =~= s);
        assert(doc_delete(mid, at) =~= rows);
    } else {
        let t = insert_char(s, x, c);
        assert(delete_char(t, x) =~= s);
        assert(doc_delete(doc_insert(rows, at, c), at) =~= rows);
    }
}

} // verus!
