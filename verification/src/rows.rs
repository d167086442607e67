//! The mathematical view of document content. A document is a sequence of
//! rows; a row is a sequence of characters. This module lifts the executable
//! representations (`Vec<char>` rows, `Vec<Vec<char>>` documents, and vectors
//! of whole-document snapshots) to their `Seq` models, and provides verified
//! copying of documents, which the snapshot history depends on.

use vstd::prelude::*;

verus! {

/// The rows of a document, each row seen as its character sequence.
pub open spec fn view_lines(lines: Seq<Vec<char>>) -> Seq<Seq<char>> {
    Seq::new(lines.len(), |i: int| lines[i]@)
}

/// A vector of whole-document snapshots, each seen through `view_lines`.
pub open spec fn view_states(states: Seq<Vec<Vec<char>>>) -> Seq<Seq<Seq<char>>> {
    Seq::new(states.len(), |i: int| view_lines(states[i]@))
}

/// `n` empty rows.
pub open spec fn blank_rows(n: nat) -> Seq<Seq<char>> {
    Seq::new(n, |i: int| Seq::<char>::empty())
}

/// The length of row `y`, or 0 where no such row exists.
pub open spec fn line_len_at(rows: Seq<Seq<char>>, y: int) -> int {
    if 0 <= y < rows.len() {
        rows[y].len() as int
    } else {
        0
    }
}

/// An independent copy of one row, character for character.
pub fn copy_row(row: &Vec<char>) -> (c: Vec<char>)
    ensures
        c@ == row@,
{
    let mut c: Vec<char> = Vec::new();
    let mut j: usize = 0;
    while j < row.len()
        invariant
            j <= row.len(),
            c@ == row@.take(j as int),
        decreases row.len() - j,
    {
        c.push(row[j]);
        proof {
            assert(c@ =~= row@.take(j + 1));
        }
        j = j + 1;
    }
    proof {
        assert(c@ =~= row@);
    }
    c
}

/// An independent copy of a whole document, row for row.
pub fn copy_lines(lines: &Vec<Vec<char>>) -> (c: Vec<Vec<char>>)
    ensures
        view_lines(c@) == view_lines(lines@),
{
    let mut c: Vec<Vec<char>> = Vec::new();
    let mut i: usize = 0;
    while i < lines.len()
        invariant
            i <= lines.len(),
            c@.len() == i,
            forall|k: int| 0 <= k < i ==> c@[k]@ == lines@[k]@,
        decreases lines.len() - i,
    {
        let row = copy_row(&lines[i]);
        c.push(row);
        i = i + 1;
    }
    proof {
        assert(view_lines(c@) =~= view_lines(lines@));
    }
    c
}

} // verus!
