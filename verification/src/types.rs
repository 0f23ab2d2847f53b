use vstd::prelude::*;

verus! {

/// A keyboard event, as the session state consumes it.
#[derive(Debug, Clone, Copy, PartialEq, Eq, Structural)]
pub enum KeyCode {
    Char(char),
    Enter,
    Esc,
    Backspace,
    Other,
}

/// What kind of mouse event arrived; only left-button presses and drags move
/// the pickers.
#[derive(Debug, Clone, Copy, PartialEq, Eq, Structural)]
pub enum MouseEventKind {
    DownLeft,
    DragLeft,
    Other,
}

/// A mouse event, as the session state consumes it: a kind and an absolute
/// terminal cell.
#[derive(Debug, Clone, Copy, PartialEq, Eq, Structural)]
pub struct MouseEvent {
    pub kind: MouseEventKind,
    pub column: u16,
    pub row: u16,
}

/// A position or a size in terminal cells, measured from the top-left corner.
#[derive(Debug, Clone, Copy, PartialEq, Eq, Structural)]
pub struct Vec2 {
    pub x: u32,
    pub y: u32,
}

impl Vec2 {
    pub fn zero() -> (v: Vec2)
        ensures
            v == (Vec2 { x: 0u32, y: 0u32 }),
    {
        Vec2 { x: 0, y: 0 }
    }

    pub fn from_signed_tuple(t: (u32, u32)) -> (v: Vec2)
        ensures
            v.x == t.0,
            v.y == t.1,
    {
        Vec2 { x: t.0, y: t.1 }
    }

    /// Componentwise sum; used to shift component positions by the centering offset.
    pub fn plus(self, rhs: Vec2) -> (v: Vec2)
        requires
            self.x + rhs.x <= u32::MAX,
            self.y + rhs.y <= u32::MAX,
        ensures
            v.x == self.x + rhs.x,
            v.y == self.y + rhs.y,
    {
        Vec2 { x: self.x + rhs.x, y: self.y + rhs.y }
    }
}

} // verus!
