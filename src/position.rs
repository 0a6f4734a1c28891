use vstd::prelude::*;

verus! {

/// A cell of the document: `x` is the column, `y` the row, both counted from zero.
#[derive(Debug, Clone, Copy, Default, PartialEq, Eq, Structural)]
pub struct Position {
    pub x: usize,
    pub y: usize,
}

/// Which way a search walks from its starting cell.
#[derive(Debug, Clone, Copy, PartialEq, Eq, Structural)]
pub enum SearchDirection {
    Forward,
    Backward,
}

} // verus!
