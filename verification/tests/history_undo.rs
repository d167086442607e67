use edit_core::buffer::Buffer;
use edit_core::position::Position;

fn doc(rows: &[&str]) -> Vec<Vec<char>> {
    rows.iter().map(|s| s.chars().collect()).collect()
}

fn buf(rows: &[&str]) -> Buffer {
    Buffer::new(doc(rows), String::from("t.txt"))
}

#[test]
fn undo_then_redo_restores_rows_and_cursor() {
    // After any records, an undo followed by a redo brings back exactly the
    // rows and the cursor that were current before the undo.
    let mut b = buf(&["a"]);
    b.write(&Position::new(1, 0), 'b');
    b.update_history(Position::new(2, 0));
    b.write(&Position::new(2, 0), 'c');
    b.update_history(Position::new(3, 0));
    assert_eq!(b.lines, doc(&["abc"]));

    let back = b.undo().expect("one step into the past");
    assert_eq!(b.lines, doc(&["ab"]));
    assert_eq!((back.x, back.y), (2, 0));

    let again = b.redo().expect("one step forward again");
    assert_eq!(b.lines, doc(&["abc"]));
    assert_eq!((again.x, again.y), (3, 0));
}

#[test]
fn undo_at_oldest_entry_returns_nothing() {
    let mut b = buf(&["a"]);
    assert!(b.undo().is_none());
    assert_eq!(b.lines, doc(&["a"]));
}

#[test]
fn redo_at_tail_returns_nothing() {
    let mut b = buf(&["a"]);
    b.update_history(Position::new(0, 0));
    assert!(b.redo().is_none());
    assert_eq!(b.lines, doc(&["a"]));
}

#[test]
fn recording_in_the_past_discards_the_future() {
    // Record two states, undo back to the first, record a different edit:
    // the abandoned branch is gone and redo returns nothing until a new
    // record makes a fresh tail.
    let mut b = buf(&[""]);
    b.write(&Position::new(0, 0), 'x');
    b.update_history(Position::new(1, 0));
    b.write(&Position::new(1, 0), 'y');
    b.update_history(Position::new(2, 0));

    b.undo();
    b.undo();
    assert_eq!(b.lines, doc(&[""]));

    b.write(&Position::new(0, 0), 'z');
    b.update_history(Position::new(1, 0));
    assert_eq!(b.lines, doc(&["z"]));
    assert_eq!(b.history.states.len(), 2);
    assert!(b.redo().is_none());

    let back = b.undo().expect("the original state is still below");
    assert_eq!(b.lines, doc(&[""]));
    assert_eq!((back.x, back.y), (0, 0));
    let fwd = b.redo().expect("the fresh tail is reachable again");
    assert_eq!(b.lines, doc(&["z"]));
    assert_eq!((fwd.x, fwd.y), (1, 0));
}

#[test]
fn undo_restores_deleted_rows() {
    let mut b = buf(&["ab", "cd"]);
    b.backspace(&Position::new(0, 1));
    assert_eq!(b.lines, doc(&["abcd"]));
    b.update_history(Position::new(2, 0));
    let back = b.undo().expect("initial snapshot below");
    assert_eq!(b.lines, doc(&["ab", "cd"]));
    assert_eq!((back.x, back.y), (0, 0));
}
