//! The document buffer: an ordered sequence of text rows plus the path the
//! document belongs to, with position-addressed edit primitives and the
//! snapshot history that undo and redo walk. Every edit is specified against
//! the `Seq`-level transition functions below, which say exactly which rows
//! the edit produces.

use vstd::prelude::*;

use crate::history::{
    hist_in_past, hist_record, hist_redo, hist_truncate, hist_undo, History, HistoryModel,
};
use crate::position::Position;
use crate::rows::{blank_rows, copy_lines, line_len_at, view_lines, view_states};

verus! {

/// What a backspace did: an edit within one row, or a join of two rows that
/// moves the cursor to the given position on the row above.
#[derive(Clone, Copy, Debug, PartialEq, Eq, Structural)]
pub enum Backspace {
    WrapLines(Position),
    SameLine,
}

pub struct Buffer {
    /// The document's rows, in order; row index = `Position::y`.
    pub lines: Vec<Vec<char>>,
    /// Snapshot history for undo/redo.
    pub history: History,
    /// The path the document is saved to.
    pub file: String,
}

/// Rows after writing `c` at `pos`: spliced into an existing row, or — when
/// `pos.y` lies beyond the last row — appended as a fresh one-character row
/// after enough empty rows to make it row `pos.y`.
pub open spec fn write_rows(rows: Seq<Seq<char>>, pos: Position, c: char) -> Seq<Seq<char>> {
    let y = pos.y as int;
    if y < rows.len() {
        rows.update(y, rows[y].insert(pos.x as int, c))
    } else {
        rows + blank_rows((y - rows.len()) as nat) + seq![seq![c]]
    }
}

/// `write` splices into an existing row only at a column within it.
pub open spec fn write_req(rows: Seq<Seq<char>>, pos: Position) -> bool {
    pos.y < rows.len() ==> pos.x <= rows[pos.y as int].len()
}

/// Rows after a backspace at `pos`: within a row, the character left of the
/// column disappears; at column 0 of a later row, an empty row disappears or
/// a non-empty row is joined onto the row above; anywhere else, no change.
pub open spec fn backspace_rows(rows: Seq<Seq<char>>, pos: Position) -> Seq<Seq<char>> {
    let y = pos.y as int;
    if y < rows.len() && pos.x > 0 {
        rows.update(y, rows[y].remove(pos.x - 1))
    } else if y < rows.len() && pos.x == 0 && y > 0 {
        if rows[y].len() == 0 {
            rows.remove(y)
        } else {
            rows.update(y - 1, rows[y - 1] + rows[y]).remove(y)
        }
    } else {
        rows
    }
}

/// Where a backspace at `pos` leaves the caller: `WrapLines` lands at the end
/// of the row above as it was before any join — the seam of the join.
pub open spec fn backspace_moves(rows: Seq<Seq<char>>, pos: Position) -> Backspace {
    let y = pos.y as int;
    if y < rows.len() && pos.x == 0 && y > 0 {
        Backspace::WrapLines(
            Position { x: rows[y - 1].len() as u16, y: (pos.y - 1) as u16 },
        )
    } else {
        Backspace::SameLine
    }
}

/// Deleting within a row needs a column within it; a join needs the merged
/// row to fit the `u16` column range the cursor is expressed in.
pub open spec fn backspace_req(rows: Seq<Seq<char>>, pos: Position) -> bool {
    let y = pos.y as int;
    &&& (y < rows.len() && pos.x > 0 ==> pos.x <= rows[y].len())
    &&& (y < rows.len() && pos.x == 0 && y > 0 ==> rows[y - 1].len() + rows[y].len()
        <= u16::MAX)
}

/// Rows after inserting an empty row at `pos.y`, padding with empty rows up
/// to and including `pos.y` when it lies beyond the last row.
pub open spec fn new_line_rows(rows: Seq<Seq<char>>, pos: Position) -> Seq<Seq<char>> {
    let y = pos.y as int;
    if y < rows.len() {
        rows.insert(y, Seq::empty())
    } else {
        rows + blank_rows((y + 1 - rows.len()) as nat)
    }
}

/// Rows after splitting row `pos.y` at column `pos.x`. Beyond the last row
/// this pads like `new_line_rows`; at or past the end of an existing row it
/// changes nothing.
pub open spec fn enter_rows(rows: Seq<Seq<char>>, pos: Position) -> Seq<Seq<char>> {
    let y = pos.y as int;
    let x = pos.x as int;
    if y >= rows.len() {
        new_line_rows(rows, pos)
    } else if x < rows[y].len() {
        rows.update(y, rows[y].take(x)).insert(y + 1, rows[y].skip(x))
    } else {
        rows
    }
}

impl Buffer {
    /// The document as a sequence of character sequences.
    pub open spec fn rows(self) -> Seq<Seq<char>> {
        view_lines(self.lines@)
    }

    pub open spec fn wf(self) -> bool {
        self.history.wf()
    }

    /// A buffer over the given rows, with a one-entry history holding that
    /// content and the origin cursor.
    pub fn new(lines: Vec<Vec<char>>, file: String) -> (b: Self)
        ensures
            b.rows() == view_lines(lines@),
            b.file == file,
            b.history.model() == (HistoryModel {
                snaps: seq![view_lines(lines@)],
                curs: seq![Position { x: 0u16, y: 0u16 }],
                index: 0,
            }),
            b.wf(),
    {
        let snapshot = copy_lines(&lines);
        let mut states: Vec<Vec<Vec<char>>> = Vec::new();
        states.push(snapshot);
        let mut cursors: Vec<Position> = Vec::new();
        cursors.push(Position::new(0, 0));
        let b = Buffer { lines, history: History { states, cursors, index: 0 }, file };
        proof {
            assert(b.history.model() =~~= (HistoryModel {
                snaps: seq![b.rows()],
                curs: seq![Position { x: 0u16, y: 0u16 }],
                index: 0,
            }));
        }
        b
    }

    /// The number of rows, as the `u16` the cursor's row range is expressed
    /// in.
    pub fn len(&self) -> (r: u16)
        requires
            self.lines@.len() <= u16::MAX,
        ensures
            r == self.rows().len(),
    {
        self.lines.len() as u16
    }

    pub fn is_empty(&self) -> (r: bool)
        ensures
            r == (self.rows().len() == 0),
    {
        self.lines.is_empty()
    }

    /// Insert `c` at column `pos.x` of row `pos.y`, growing the document when
    /// `pos.y` lies beyond its last row.
    pub fn write(&mut self, pos: &Position, c: char)
        requires
            write_req(old(self).rows(), *pos),
        ensures
            final(self).rows() == write_rows(old(self).rows(), *pos, c),
            final(self).history == old(self).history,
            final(self).file == old(self).file,
    {
        let y = pos.y as usize;
        if y < self.lines.len() {
            let mut row = self.lines.remove(y);
            row.insert(pos.x as usize, c);
            self.lines.insert(y, row);
            proof {
                assert(self.lines@ =~= old(self).lines@.update(y as int, row));
                assert(self.rows() =~= write_rows(old(self).rows(), *pos, c));
            }
        } else {
            let difference = y - self.lines.len();
            let mut added: usize = 0;
            while added < difference
                invariant
                    added <= difference,
                    difference == pos.y - old(self).lines@.len(),
                    self.lines@.len() == old(self).lines@.len() + added,
                    forall|k: int|
                        0 <= k < old(self).lines@.len() ==> self.lines@[k] == old(self).lines@[k],
                    forall|k: int|
                        old(self).lines@.len() <= k < self.lines@.len() ==> self.lines@[k]@
                            == Seq::<char>::empty(),
                    self.history == old(self).history,
                    self.file == old(self).file,
                decreases difference - added,
            {
                self.lines.push(Vec::new());
                added = added + 1;
            }
            let mut last: Vec<char> = Vec::new();
            last.push(c);
            self.lines.push(last);
            proof {
                assert(last@ =~= seq![c]);
                assert(self.rows() =~= write_rows(old(self).rows(), *pos, c));
            }
        }
    }

    /// Delete the character immediately before `pos`, joining rows when the
    /// cursor sits at column 0 of a row below the first.
    pub fn backspace(&mut self, pos: &Position) -> (r: Backspace)
        requires
            backspace_req(old(self).rows(), *pos),
        ensures
            final(self).rows() == backspace_rows(old(self).rows(), *pos),
            r == backspace_moves(old(self).rows(), *pos),
            final(self).history == old(self).history,
            final(self).file == old(self).file,
    {
        let y = pos.y as usize;
        if y < self.lines.len() && pos.x > 0 {
            let mut row = self.lines.remove(y);
            row.remove(pos.x as usize - 1);
            self.lines.insert(y, row);
            proof {
                assert(self.lines@ =~= old(self).lines@.update(y as int, row));
                assert(self.rows() =~= backspace_rows(old(self).rows(), *pos));
            }
            return Backspace::SameLine;
        } else if pos.x <= 1 && y < self.lines.len() {
            if self.lines[y].len() == 0 && pos.y > 0 {
                // Delete the empty row and land at the end of the row above.
                self.lines.remove(y);
                proof {
                    assert(self.rows() =~= backspace_rows(old(self).rows(), *pos));
                }
                let above = self.lines[y - 1].len() as u16;
                return Backspace::WrapLines(Position::new(above, pos.y - 1));
            } else if pos.y > 0 {
                // Join this row onto the row above; the cursor lands on the
                // seam, at the end of the row above as it was before the join.
                let mut row = self.lines.remove(y);
                let mut above = self.lines.remove(y - 1);
                let seam = above.len() as u16;
                above.append(&mut row);
                self.lines.insert(y - 1, above);
                proof {
                    assert(self.lines@ =~= old(self).lines@.update(
                        y - 1,
                        above,
                    ).remove(y as int));
                    assert(self.rows() =~= backspace_rows(old(self).rows(), *pos));
                }
                return Backspace::WrapLines(Position::new(seam, pos.y - 1));
            }
        }
        proof {
            assert(self.rows() =~= backspace_rows(old(self).rows(), *pos));
        }
        Backspace::SameLine
    }

    /// Split row `pos.y` at column `pos.x`: the text before the column keeps
    /// the row, the rest becomes the next row. Beyond the last row this pads
    /// like `new_line`; at or past the end of an existing row it is a no-op.
    pub fn enter(&mut self, pos: &Position)
        ensures
            final(self).rows() == enter_rows(old(self).rows(), *pos),
            final(self).history == old(self).history,
            final(self).file == old(self).file,
    {
        let y = pos.y as usize;
        if y >= self.lines.len() {
            self.new_line(pos);
        } else if (pos.x as usize) < self.lines[y].len() {
            let mut row = self.lines.remove(y);
            let tail = row.split_off(pos.x as usize);
            self.lines.insert(y, tail);
            self.lines.insert(y, row);
            proof {
                assert(row@ == old(self).rows()[y as int].take(pos.x as int));
                assert(tail@ =~= old(self).rows()[y as int].skip(pos.x as int));
                assert(self.lines@ =~= old(self).lines@.update(y as int, row).insert(
                    y + 1,
                    tail,
                ));
                assert(self.rows() =~= enter_rows(old(self).rows(), *pos));
            }
        } else {
            proof {
                assert(self.rows() =~= enter_rows(old(self).rows(), *pos));
            }
        }
    }

    /// Insert an empty row at `pos.y`, padding with empty rows up to and
    /// including `pos.y` when it lies beyond the last row.
    pub fn new_line(&mut self, pos: &Position)
        ensures
            final(self).rows() == new_line_rows(old(self).rows(), *pos),
            final(self).history == old(self).history,
            final(self).file == old(self).file,
    {
        let y = pos.y as usize;
        if y < self.lines.len() {
            self.lines.insert(y, Vec::new());
            proof {
                assert(self.rows() =~= new_line_rows(old(self).rows(), *pos));
            }
        } else {
            let needed = y - self.lines.len() + 1;
            let mut added: usize = 0;
            while added < needed
                invariant
                    added <= needed,
                    needed == pos.y + 1 - old(self).lines@.len(),
                    self.lines@.len() == old(self).lines@.len() + added,
                    forall|k: int|
                        0 <= k < old(self).lines@.len() ==> self.lines@[k] == old(self).lines@[k],
                    forall|k: int|
                        old(self).lines@.len() <= k < self.lines@.len() ==> self.lines@[k]@
                            == Seq::<char>::empty(),
                    self.history == old(self).history,
                    self.file == old(self).file,
                decreases needed - added,
            {
                self.lines.push(Vec::new());
                added = added + 1;
            }
            proof {
                assert(self.rows() =~= new_line_rows(old(self).rows(), *pos));
            }
        }
    }

    /// The length of row `n`, or 0 where no such row exists, as the `u16` the
    /// cursor's column range is expressed in.
    pub fn nth_line_len(&self, n: usize) -> (r: u16)
        requires
            n < self.lines@.len() ==> self.lines@[n as int]@.len() <= u16::MAX,
        ensures
            r == line_len_at(self.rows(), n as int),
    {
        if n < self.lines.len() {
            self.lines[n].len() as u16
        } else {
            0
        }
    }

    /// A read-only copy of the rows — what a history entry stores.
    pub fn snapshot(&self) -> (snap: Vec<Vec<char>>)
        ensures
            view_lines(snap@) == self.rows(),
    {
        copy_lines(&self.lines)
    }

    /// Replace the rows wholesale — how undo and redo install a snapshot.
    pub fn restore(&mut self, rows: Vec<Vec<char>>)
        ensures
            final(self).rows() == view_lines(rows@),
            final(self).history == old(self).history,
            final(self).file == old(self).file,
    {
        self.lines = rows;
    }

    /// Record the current rows and the given cursor as a new history entry,
    /// discarding any abandoned redo branch first.
    pub fn update_history(&mut self, cursor: Position)
        requires
            old(self).wf(),
        ensures
            final(self).history.model() == hist_record(
                old(self).history.model(),
                old(self).rows(),
                cursor,
            ),
            final(self).rows() == old(self).rows(),
            final(self).file == old(self).file,
            final(self).wf(),
    {
        let ghost m0 = self.history.model();
        if self.history.is_in_past() {
            self.history.decapitate();
        } else {
            proof {
                assert(hist_truncate(m0) =~~= m0) by {
                    assert(m0.snaps.take(m0.index + 1) =~= m0.snaps);
                    assert(m0.curs.take(m0.index + 1) =~= m0.curs);
                }
            }
        }
        let total = self.history.states.len();
        proof {
            assert(self.history.model().snaps == hist_truncate(m0).snaps);
            assert(view_states(self.history.states@).len() == self.history.states@.len());
            assert(self.history.states@.len() == m0.index + 1);
            assert(self.history.index < total);
        }
        let snap = self.snapshot();
        self.history.update(snap, cursor);
    }

    /// Step one entry into the past and install that snapshot, handing back
    /// its recorded cursor; at the oldest entry, do nothing.
    pub fn undo(&mut self) -> (r: Option<Position>)
        requires
            old(self).wf(),
        ensures
            old(self).history.index == 0 ==> r == None::<Position> && *final(self) == *old(self),
            old(self).history.index > 0 ==> final(self).history.model() == hist_undo(
                old(self).history.model(),
            ),
            old(self).history.index > 0 ==> final(self).rows() == old(
                self,
            ).history.model().snaps[old(self).history.index - 1],
            old(self).history.index > 0 ==> r == Some(
                old(self).history.model().curs[old(self).history.index - 1],
            ),
            final(self).file == old(self).file,
            final(self).wf(),
    {
        if self.history.index > 0 {
            self.history.rollback();
            let idx = self.history.index;
            let snap = copy_lines(&self.history.states[idx]);
            self.lines = snap;
            Some(self.history.cursors[idx])
        } else {
            None
        }
    }

    /// Step one entry toward the tail and install that snapshot, handing back
    /// its recorded cursor; at the tail, do nothing.
    pub fn redo(&mut self) -> (r: Option<Position>)
        requires
            old(self).wf(),
        ensures
            !hist_in_past(old(self).history.model()) ==> r == None::<Position> && *final(self)
                == *old(self),
            hist_in_past(old(self).history.model()) ==> final(self).history.model() == hist_redo(
                old(self).history.model(),
            ),
            hist_in_past(old(self).history.model()) ==> final(self).rows() == old(
                self,
            ).history.model().snaps[old(self).history.index + 1],
            hist_in_past(old(self).history.model()) ==> r == Some(
                old(self).history.model().curs[old(self).history.index + 1],
            ),
            final(self).file == old(self).file,
            final(self).wf(),
    {
        if self.history.is_in_past() {
            let total = self.history.states.len();
            proof {
                assert(self.history.index < total);
            }
            self.history.rollforward();
            let idx = self.history.index;
            let snap = copy_lines(&self.history.states[idx]);
            self.lines = snap;
            Some(self.history.cursors[idx])
        } else {
            None
        }
    }
}

} // verus!
