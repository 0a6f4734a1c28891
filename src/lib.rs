//! The editing core of a modal terminal text editor: rows of text with
//! highlighting, a document of rows, and the mode-driven editor state machine.

mod position;
mod document;
mod editor;
mod filetype;
mod highlighting;
mod row;
mod screen;
mod terminal;
mod text;

pub use position::{Position, SearchDirection};
pub use highlighting::{Rgb, Type};
pub use filetype::{FileType, HighlightingOptions};
pub use row::Row;
pub use document::{Document, DocumentError};
pub use editor::{Editor, Key, Mode, Pending, SaveCommand, SaveRequest, StatusMessage, Step};
pub use screen::{welcome_message, ScreenLine, MESSAGE_LIFETIME_MS};
pub use terminal::{CursorStyle, Size};
