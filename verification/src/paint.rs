//! Semantic paint instructions handed to the display sink.
//!
//! The shell core never emits raw escape sequences. Each editing operation
//! returns a list of these instructions; the surrounding event loop turns
//! them into whatever its terminal backend understands.

use vstd::prelude::*;

verus! {

/// One semantic instruction for the display sink.
///
/// Columns and rows are zero-based. `WriteLine` paints one wrapped row of
/// the current input: the prompt prefix (if `first`), then `text`, then a
/// line break (if `newline`).
#[derive(Debug, Clone, PartialEq, Eq)]
pub enum PaintOp {
    /// Hide the cursor while repainting.
    CursorHide,
    /// Show the cursor again.
    CursorShow,
    /// Remember the current cursor position as the anchor of the input area.
    SavePosition,
    /// Return the cursor to the remembered anchor position.
    RestorePosition,
    /// Erase everything from the cursor position to the end of the screen.
    EraseDown,
    /// Move the cursor to an absolute column in the current row.
    ToColumn(usize),
    /// Move the cursor down by a number of rows.
    MoveRowsDown(usize),
    /// Move the cursor up by a number of rows.
    MoveRowsUp(usize),
    /// Move the cursor right by a number of columns.
    MoveColsRight(usize),
    /// Move the cursor left by a number of columns.
    MoveColsLeft(usize),
    /// Paint one wrapped row of the input area.
    WriteLine { first: bool, text: String, newline: bool },
    /// Write literal text at the cursor position.
    Write(String),
    /// Write a line break.
    Newline,
    /// Clear the whole screen.
    ClearScreen,
}

} // verus!
