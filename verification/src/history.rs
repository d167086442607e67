//! Linear undo/redo history: a sequence of whole-buffer snapshots paired with
//! the cursor position recorded alongside each, and a movable index into that
//! sequence. Recording while the index is not at the tail discards everything
//! after the index ("branch discard"): the history is a line, not a tree.

use vstd::prelude::*;

use crate::position::Position;
use crate::rows::{view_lines, view_states};

verus! {

pub struct History {
    /// Whole-document snapshots, oldest first. `states[0]` is the document
    /// as it was when the history was created.
    pub states: Vec<Vec<Vec<char>>>,
    /// The cursor position recorded with each snapshot; index-aligned with
    /// `states`.
    pub cursors: Vec<Position>,
    /// The entry the buffer currently reflects: `0 <= index < states.len()`.
    pub index: usize,
}

/// The mathematical state of a history.
#[verifier::ext_equal]
pub struct HistoryModel {
    pub snaps: Seq<Seq<Seq<char>>>,
    pub curs: Seq<Position>,
    pub index: int,
}

pub open spec fn hist_wf(m: HistoryModel) -> bool {
    &&& m.snaps.len() == m.curs.len()
    &&& m.snaps.len() >= 1
    &&& 0 <= m.index < m.snaps.len()
}

/// Drop every entry after the current index, keeping the entry the index
/// points at.
pub open spec fn hist_truncate(m: HistoryModel) -> HistoryModel {
    HistoryModel {
        snaps: m.snaps.take(m.index + 1),
        curs: m.curs.take(m.index + 1),
        index: m.index,
    }
}

/// Append a snapshot and its cursor and advance the index onto it.
pub open spec fn hist_push(m: HistoryModel, rows: Seq<Seq<char>>, cursor: Position) -> HistoryModel {
    HistoryModel {
        snaps: m.snaps.push(rows),
        curs: m.curs.push(cursor),
        index: m.index + 1,
    }
}

/// Record a new snapshot: discard any abandoned redo branch, then append.
pub open spec fn hist_record(m: HistoryModel, rows: Seq<Seq<char>>, cursor: Position) -> HistoryModel {
    hist_push(hist_truncate(m), rows, cursor)
}

/// Step the index one entry into the past.
pub open spec fn hist_undo(m: HistoryModel) -> HistoryModel {
    HistoryModel { snaps: m.snaps, curs: m.curs, index: m.index - 1 }
}

/// Step the index one entry toward the tail.
pub open spec fn hist_redo(m: HistoryModel) -> HistoryModel {
    HistoryModel { snaps: m.snaps, curs: m.curs, index: m.index + 1 }
}

/// Whether undos have moved the index off the tail of the history.
pub open spec fn hist_in_past(m: HistoryModel) -> bool {
    m.index < m.snaps.len() - 1
}

impl History {
    pub open spec fn model(self) -> HistoryModel {
        HistoryModel {
            snaps: view_states(self.states@),
            curs: self.cursors@,
            index: self.index as int,
        }
    }

    pub open spec fn wf(self) -> bool {
        hist_wf(self.model())
    }

    /// Append a snapshot and cursor and move the index onto them.
    pub fn update(&mut self, new: Vec<Vec<char>>, cursor: Position)
        requires
            old(self).index < usize::MAX,
        ensures
            final(self).model() == hist_push(old(self).model(), view_lines(new@), cursor),
    {
        let ghost new_rows = view_lines(new@);
        self.states.push(new);
        self.cursors.push(cursor);
        self.index = self.index + 1;
        proof {
            assert(self.model() =~~= hist_push(old(self).model(), new_rows, cursor));
        }
    }

    /// Discard every entry after the current index.
    pub fn decapitate(&mut self)
        requires
            old(self).wf(),
        ensures
            final(self).model() == hist_truncate(old(self).model()),
    {
        let total = self.states.len();
        proof {
            assert(self.index < total);
        }
        let keep = self.index + 1;
        self.states.truncate(keep);
        self.cursors.truncate(keep);
        proof {
            assert(self.model() =~~= hist_truncate(old(self).model()));
        }
    }

    /// Whether undos have moved the index off the tail.
    pub fn is_in_past(&self) -> (r: bool)
        requires
            self.states.len() >= 1,
        ensures
            r == hist_in_past(self.model()),
    {
        self.states.len() - 1 > self.index
    }

    /// Move the index one entry into the past.
    pub fn rollback(&mut self)
        requires
            old(self).index > 0,
        ensures
            final(self).model() == hist_undo(old(self).model()),
    {
        self.index = self.index - 1;
        proof {
            assert(self.model() =~~= hist_undo(old(self).model()));
        }
    }

    /// Move the index one entry toward the tail.
    pub fn rollforward(&mut self)
        requires
            old(self).index < usize::MAX,
        ensures
            final(self).model() == hist_redo(old(self).model()),
    {
        self.index = self.index + 1;
        proof {
            assert(self.model() =~~= hist_redo(old(self).model()));
        }
    }
}

/// Undoing one step and then redoing it returns the history to exactly the
/// state it had before the undo: the same snapshots, recorded cursors, and
/// index, hence the same current snapshot `snaps[index]` and cursor
/// `curs[index]`.
pub proof fn lemma_undo_redo(m: HistoryModel)
    requires
        hist_wf(m),
        m.index > 0,
    ensures
        hist_redo(hist_undo(m)) == m,
        hist_redo(hist_undo(m)).snaps[hist_redo(hist_undo(m)).index] == m.snaps[m.index],
        hist_redo(hist_undo(m)).curs[hist_redo(hist_undo(m)).index] == m.curs[m.index],
{
    assert(hist_redo(hist_undo(m)) =~= m);
}

/// Recording a snapshot discards every entry after the current index and puts
/// the new snapshot at the tail, with the index on it; afterwards the history
/// is not "in the past", so a redo would do nothing until a further record.
pub proof fn lemma_record_truncates(m: HistoryModel, rows: Seq<Seq<char>>, cursor: Position)
    requires
        hist_wf(m),
    ensures
        hist_wf(hist_record(m, rows, cursor)),
        !hist_in_past(hist_record(m, rows, cursor)),
        hist_record(m, rows, cursor).snaps.len() == m.index + 2,
        hist_record(m, rows, cursor).index == m.index + 1,
        forall|j: int|
            0 <= j <= m.index ==> hist_record(m, rows, cursor).snaps[j] == m.snaps[j]
                && hist_record(m, rows, cursor).curs[j] == m.curs[j],
        hist_record(m, rows, cursor).snaps.last() == rows,
        hist_record(m, rows, cursor).curs.last() == cursor,
{
}

} // verus!
