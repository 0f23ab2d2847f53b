use vstd::prelude::*;
use crate::constants::CustomRgb;

verus! {

/// One drawing instruction for the terminal renderer.  The core never writes
/// protocol bytes itself: every component renders to a sequence of these, and
/// the surrounding program turns them into terminal writes.
#[derive(Debug, Clone, PartialEq, Eq)]
pub enum DrawCmd {
    /// Move the cursor to an absolute column and row.
    MoveTo(u16, u16),
    MoveLeft(u16),
    MoveRight(u16),
    MoveDown(u16),
    /// Print text in the current colors.
    Print(String),
    /// Print text in bold.
    PrintBold(String),
    /// Print text in bold with the given foreground color.
    PrintBoldColored(String, CustomRgb),
    /// Set the foreground color.
    SetFg(CustomRgb),
    /// Set the foreground and the background color.
    SetColors(CustomRgb, CustomRgb),
    ShowCursor,
    HideCursor,
    ClearAll,
    ClearLine,
}

/// The two RGB samples one character cell shows: the upper half as the cell's
/// background, the lower half as the foreground of a lower-half-block glyph.
#[derive(Debug, Clone, Copy, PartialEq, Eq, Structural)]
pub struct CellColors {
    pub top: CustomRgb,
    pub bottom: CustomRgb,
}

} // verus!
