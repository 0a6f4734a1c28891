use vstd::prelude::*;
use crate::text::chars_of;

verus! {

/// Which constructs a file type colours.
#[derive(Debug, Clone, Copy, Default, PartialEq, Eq, Structural)]
pub struct HighlightingOptions {
    pub numbers: bool,
    pub strings: bool,
    pub characters: bool,
    pub comments: bool,
}

/// A file type: its display name and its highlighting policy.
#[derive(Debug)]
pub struct FileType {
    name: String,
    hl_opts: HighlightingOptions,
}

/// Whether a file name marks a Rust source file (it ends in `.rs`).
pub open spec fn is_rust_name(name: Seq<char>) -> bool {
    name.len() >= 3 && name.skip(name.len() - 3) == seq!['.', 'r', 's']
}

/// The name of the file type inferred from a file name.
pub open spec fn kind_name(name: Seq<char>) -> Seq<char> {
    if is_rust_name(name) {
        seq!['R', 'u', 's', 't']
    } else {
        seq!['N', 'o', ' ', 'f', 'i', 'l', 'e', 't', 'y', 'p', 'e']
    }
}

/// The highlighting policy of the file type inferred from a file name.
pub open spec fn kind_options(name: Seq<char>) -> HighlightingOptions {
    if is_rust_name(name) {
        HighlightingOptions { numbers: true, strings: true, characters: true, comments: true }
    } else {
        HighlightingOptions { numbers: false, strings: false, characters: false, comments: false }
    }
}

impl FileType {
    pub closed spec fn name_spec(&self) -> Seq<char> {
        self.name@
    }

    pub closed spec fn options_spec(&self) -> HighlightingOptions {
        self.hl_opts
    }

    /// The file type of a file with the given name.
    pub fn from(file_name: &str) -> (r: FileType)
        ensures
            r.name_spec() == kind_name(file_name@),
            r.options_spec() == kind_options(file_name@),
    {
        let cs = chars_of(file_name);
        let n = cs.len();
        let rust = n >= 3 && cs[n - 3] == '.' && cs[n - 2] == 'r' && cs[n - 1] == 's';
        assert(rust == is_rust_name(file_name@)) by {
            if n >= 3 {
                assert(cs@.skip(n - 3)[0] == cs@[n - 3]);
                assert(cs@.skip(n - 3)[1] == cs@[n - 2]);
                assert(cs@.skip(n - 3)[2] == cs@[n - 1]);
                if rust {
                    assert(cs@.skip(n - 3) =~= seq!['.', 'r', 's']);
                }
            }
        }
        if rust {
            let name = String::from_str("Rust");
            proof {
                reveal_strlit("Rust");
            }
            assert(name@ =~= seq!['R', 'u', 's', 't']);
            FileType {
                name,
                hl_opts: HighlightingOptions {
                    numbers: true,
                    strings: true,
                    characters: true,
                    comments: true,
                },
            }
        } else {
            FileType::default()
        }
    }

    /// The display name of the file type.
    pub fn name(&self) -> (r: String)
        ensures
            r@ == self.name_spec(),
    {
        self.name.clone()
    }

    /// The highlighting policy of the file type.
    pub fn highlight_options(&self) -> (r: HighlightingOptions)
        ensures
            r == self.options_spec(),
    {
        self.hl_opts
    }
}

impl Default for FileType {
    /// A file of no known type: named "No filetype", with nothing coloured.
    fn default() -> (r: FileType)
        ensures
            r.name_spec() == kind_name(Seq::empty()),
            r.options_spec() == kind_options(Seq::empty()),
    {
        let name = String::from_str("No filetype");
        proof {
            reveal_strlit("No filetype");
        }
        assert(name@ =~= seq!['N', 'o', ' ', 'f', 'i', 'l', 'e', 't', 'y', 'p', 'e']);
        FileType {
            name,
            hl_opts: HighlightingOptions {
                numbers: false,
                strings: false,
                characters: false,
                comments: false,
            },
        }
    }
}

} // verus!
