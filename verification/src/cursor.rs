//! The cursor: its current position plus the remembered "sticky" column used
//! to restore the intended horizontal position after vertical moves across
//! shorter rows.

use vstd::prelude::*;

use crate::position::Position;

verus! {

pub struct Cursor {
    pub position: Position,
    /// The column last fixed by a horizontal move; vertical moves steer back
    /// toward it when the destination row is long enough.
    pub previous_x: u16,
}

impl Cursor {
    pub fn new(pos: Position) -> (c: Self)
        ensures
            c.position == pos,
            c.previous_x == 1,
    {
        Self { position: pos, previous_x: 1 }
    }

    /// Remember the current column as the sticky column.
    pub fn update(&mut self)
        ensures
            final(self).position == old(self).position,
            final(self).previous_x == old(self).position.x,
    {
        if self.position.x != self.previous_x {
            self.previous_x = self.position.x;
        }
    }
}

} // verus!
