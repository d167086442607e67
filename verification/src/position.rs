//! A two-dimensional text coordinate: column `x` within a row, row `y` within
//! the document. Positions are raw values; callers are responsible for keeping
//! them within the addressable range of the buffer they are used against.

use vstd::prelude::*;

verus! {

#[derive(Clone, Copy, Debug, PartialEq, Eq, Structural)]
pub struct Position {
    pub x: u16,
    pub y: u16,
}

/// The position one column to the right, bounded exactly as the terminal
/// bounds it: the column stays put when it already equals `width`.
pub open spec fn pos_right(p: Position, width: u16) -> Position {
    if p.x == width {
        p
    } else {
        Position { x: (p.x + 1) as u16, y: p.y }
    }
}

/// The position one row down, stopping on the row just above the terminal's
/// bottom status line (`height - 2`).
pub open spec fn pos_down(p: Position, height: u16) -> Position {
    if p.y == height - 2 {
        p
    } else {
        Position { x: p.x, y: (p.y + 1) as u16 }
    }
}

impl Position {
    pub fn new(x: u16, y: u16) -> (p: Self)
        ensures
            p == (Position { x, y }),
    {
        Self { x, y }
    }

    /// Move one column left, stopping at column 0.
    pub fn left(&mut self)
        ensures
            final(self).x == if old(self).x == 0 { 0u16 } else { (old(self).x - 1) as u16 },
            final(self).y == old(self).y,
    {
        if self.x != 0 {
            self.x = self.x - 1;
        }
    }

    /// Move one column right unless already at `width`, the terminal's width.
    pub fn right(&mut self, width: u16)
        requires
            old(self).x != width ==> old(self).x < u16::MAX,
        ensures
            *final(self) == pos_right(*old(self), width),
    {
        if self.x != width {
            self.x = self.x + 1;
        }
    }

    /// Move one row up, stopping at row 0.
    pub fn up(&mut self)
        ensures
            final(self).y == if old(self).y == 0 { 0u16 } else { (old(self).y - 1) as u16 },
            final(self).x == old(self).x,
    {
        if self.y > 0 {
            self.y = self.y - 1;
        }
    }

    /// Move one row down unless already on the last text row of a terminal
    /// `height` rows tall.
    pub fn down(&mut self, height: u16)
        requires
            height >= 2,
            old(self).y != height - 2 ==> old(self).y < u16::MAX,
        ensures
            *final(self) == pos_down(*old(self), height),
    {
        if self.y != height - 2 {
            self.y = self.y + 1;
        }
    }
}

} // verus!
