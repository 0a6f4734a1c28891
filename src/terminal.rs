use vstd::prelude::*;

verus! {

/// The cells of the terminal that the editor draws text rows into.
#[derive(Debug, Clone, Copy, PartialEq, Eq, Structural)]
pub struct Size {
    pub height: u16,
    pub width: u16,
}

/// The shape of the terminal cursor.
#[derive(Debug, Clone, Copy, PartialEq, Eq, Structural)]
pub enum CursorStyle {
    Bar,
    Block,
    Underline,
}

impl Size {
    /// The text area of a terminal of `width` columns and `height` lines: two
    /// lines are kept for the status bar and the message bar.
    pub fn from_dimensions(width: u16, height: u16) -> (r: Size)
        ensures
            r.width == width,
            r.height == if height >= 2 {
                height - 2
            } else {
                0
            },
    {
        Size { width, height: height.saturating_sub(2) }
    }
}

} // verus!
