use edit_core::buffer::{Backspace, Buffer};
use edit_core::position::Position;

fn row(s: &str) -> Vec<char> {
    s.chars().collect()
}

fn doc(rows: &[&str]) -> Vec<Vec<char>> {
    rows.iter().map(|s| row(s)).collect()
}

fn buf(rows: &[&str]) -> Buffer {
    Buffer::new(doc(rows), String::from("t.txt"))
}

#[test]
fn write_appends_at_end_of_row() {
    // Starting buffer ["abc"], cursor (3,0): write 'd' gives ["abcd"].
    let mut b = buf(&["abc"]);
    b.write(&Position::new(3, 0), 'd');
    assert_eq!(b.lines, doc(&["abcd"]));
}

#[test]
fn backspace_at_end_of_row_is_same_line() {
    // ["abcd"], backspace at (4,0): SameLine, buffer back to ["abc"].
    let mut b = buf(&["abcd"]);
    let r = b.backspace(&Position::new(4, 0));
    assert!(matches!(r, Backspace::SameLine));
    assert_eq!(b.lines, doc(&["abc"]));
}

#[test]
fn enter_splits_row_mid_line() {
    // enter at (1,0) on ["abc"] gives ["a", "bc"].
    let mut b = buf(&["abc"]);
    b.enter(&Position::new(1, 0));
    assert_eq!(b.lines, doc(&["a", "bc"]));
}

#[test]
fn backspace_deletes_empty_non_first_row() {
    // ["ab", ""], backspace at (0,1): row 1 is empty and non-first, so the
    // row is deleted and the cursor lands at (2,0).
    let mut b = buf(&["ab", ""]);
    let r = b.backspace(&Position::new(0, 1));
    assert_eq!(b.lines, doc(&["ab"]));
    match r {
        Backspace::WrapLines(p) => {
            assert_eq!(p.x, 2);
            assert_eq!(p.y, 0);
        }
        Backspace::SameLine => panic!("expected a row deletion"),
    }
}

#[test]
fn backspace_joins_rows_at_column_zero() {
    // ["ab", "cd"], backspace at (0,1): rows merge to ["abcd"] and the cursor
    // lands at the seam, the end of the old row above.
    let mut b = buf(&["ab", "cd"]);
    let r = b.backspace(&Position::new(0, 1));
    assert_eq!(b.lines, doc(&["abcd"]));
    match r {
        Backspace::WrapLines(p) => {
            assert_eq!(p.x, 2);
            assert_eq!(p.y, 0);
        }
        Backspace::SameLine => panic!("expected a join"),
    }
}

#[test]
fn backspace_mid_row_removes_previous_char() {
    let mut b = buf(&["abc"]);
    let r = b.backspace(&Position::new(2, 0));
    assert!(matches!(r, Backspace::SameLine));
    assert_eq!(b.lines, doc(&["ac"]));
}

#[test]
fn backspace_at_origin_is_a_no_op() {
    let mut b = buf(&["abc"]);
    let r = b.backspace(&Position::new(0, 0));
    assert!(matches!(r, Backspace::SameLine));
    assert_eq!(b.lines, doc(&["abc"]));
}

#[test]
fn backspace_beyond_last_row_is_a_no_op() {
    let mut b = buf(&["abc"]);
    let r = b.backspace(&Position::new(2, 5));
    assert!(matches!(r, Backspace::SameLine));
    assert_eq!(b.lines, doc(&["abc"]));
}

#[test]
fn write_beyond_end_grows_buffer() {
    // Writing at (x, y) with y past the last row appends y - len empty rows
    // and then one row holding just the character; length becomes y + 1.
    let mut b = buf(&["a"]);
    b.write(&Position::new(7, 3), 'z');
    assert_eq!(b.lines, doc(&["a", "", "", "z"]));
    assert_eq!(b.len(), 4);
}

#[test]
fn write_splices_mid_row() {
    let mut b = buf(&["ac"]);
    b.write(&Position::new(1, 0), 'b');
    assert_eq!(b.lines, doc(&["abc"]));
}

#[test]
fn new_line_inserts_empty_row() {
    let mut b = buf(&["abc", "def"]);
    b.new_line(&Position::new(1, 1));
    assert_eq!(b.lines, doc(&["abc", "", "def"]));
}

#[test]
fn new_line_beyond_end_pads() {
    let mut b = buf(&["abc"]);
    b.new_line(&Position::new(0, 2));
    assert_eq!(b.lines, doc(&["abc", "", ""]));
}

#[test]
fn enter_beyond_end_pads_like_new_line() {
    let mut b = buf(&["abc"]);
    b.enter(&Position::new(0, 2));
    assert_eq!(b.lines, doc(&["abc", "", ""]));
}

#[test]
fn enter_at_end_of_row_changes_nothing() {
    let mut b = buf(&["abc"]);
    b.enter(&Position::new(3, 0));
    assert_eq!(b.lines, doc(&["abc"]));
}

#[test]
fn nth_line_len_counts_chars_or_zero() {
    let b = buf(&["abc", ""]);
    assert_eq!(b.nth_line_len(0), 3);
    assert_eq!(b.nth_line_len(1), 0);
    assert_eq!(b.nth_line_len(9), 0);
}

#[test]
fn snapshot_copies_and_restore_replaces() {
    let mut b = buf(&["ab", "cd"]);
    let snap = b.snapshot();
    assert_eq!(snap, doc(&["ab", "cd"]));
    b.write(&Position::new(0, 0), 'x');
    assert_eq!(b.lines, doc(&["xab", "cd"]));
    b.restore(snap);
    assert_eq!(b.lines, doc(&["ab", "cd"]));
}

#[test]
fn len_and_is_empty() {
    let b = buf(&["abc", "d"]);
    assert_eq!(b.len(), 2);
    assert!(!b.is_empty());
    let e = Buffer::new(Vec::new(), String::from("t.txt"));
    assert!(e.is_empty());
    assert_eq!(e.len(), 0);
}
