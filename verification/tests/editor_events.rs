use edit_core::editor::{Action, Editor, Input, Mode};
use edit_core::position::Position;
use edit_core::view::Size;

fn doc(rows: &[&str]) -> Vec<Vec<char>> {
    rows.iter().map(|s| s.chars().collect()).collect()
}

fn session(rows: &[&str]) -> Editor {
    Editor::new(doc(rows), String::from("t.txt"), Size { width: 80, height: 24 })
}

fn key(e: &mut Editor, c: char) -> Action {
    e.evaluate_event(&Input::Key(c, false))
}

#[test]
fn ctrl_q_requests_quit() {
    let mut e = session(&["ab"]);
    let act = e.evaluate_event(&Input::Key('q', true));
    assert!(e.quit);
    assert!(matches!(act, Action::Idle));
}

#[test]
fn ctrl_s_requests_a_save() {
    let mut e = session(&["ab"]);
    let act = e.evaluate_event(&Input::Key('s', true));
    assert!(matches!(act, Action::Save));
    assert!(!e.quit);
}

#[test]
fn typing_in_insert_mode_writes_and_advances() {
    let mut e = session(&[""]);
    key(&mut e, 'i');
    assert!(matches!(e.mode, Mode::Insert));
    let act = key(&mut e, 'h');
    assert!(matches!(act, Action::ClearMessage));
    key(&mut e, 'i');
    assert_eq!(e.view.buffer.lines, doc(&["hi"]));
    assert_eq!(e.cursor.position.x, 2);
    assert_eq!(e.cursor.position.y, 0);
}

#[test]
fn escape_returns_to_normal_mode_and_records() {
    let mut e = session(&[""]);
    key(&mut e, 'i');
    key(&mut e, 'x');
    e.evaluate_event(&Input::Esc);
    assert!(matches!(e.mode, Mode::Normal));
    assert_eq!(e.view.buffer.history.states.len(), 2);

    key(&mut e, 'u');
    assert_eq!(e.view.buffer.lines, doc(&[""]));
    key(&mut e, 'U');
    assert_eq!(e.view.buffer.lines, doc(&["x"]));
}

#[test]
fn tab_writes_four_spaces() {
    let mut e = session(&["ab"]);
    e.evaluate_event(&Input::Tab);
    assert_eq!(e.view.buffer.lines, doc(&["    ab"]));
    assert_eq!(e.cursor.position.x, 4);
}

#[test]
fn enter_splits_the_row_and_starts_the_next() {
    let mut e = session(&["abc"]);
    key(&mut e, 'l');
    key(&mut e, 'i');
    e.evaluate_event(&Input::Enter);
    assert_eq!(e.view.buffer.lines, doc(&["a", "bc"]));
    assert_eq!(e.cursor.position.x, 0);
    assert_eq!(e.cursor.position.y, 1);
}

#[test]
fn backspace_wraps_to_the_row_above() {
    let mut e = session(&["ab", ""]);
    key(&mut e, 'j');
    key(&mut e, 'i');
    e.evaluate_event(&Input::Backspace);
    assert_eq!(e.view.buffer.lines, doc(&["ab"]));
    assert_eq!(e.cursor.position.x, 2);
    assert_eq!(e.cursor.position.y, 0);
}

#[test]
fn sticky_column_survives_a_short_row() {
    let mut e = session(&["abcdef", "ab", "abcdef"]);
    for _ in 0..5 {
        key(&mut e, 'l');
    }
    assert_eq!(e.cursor.position.x, 5);

    key(&mut e, 'j');
    assert_eq!(e.cursor.position.x, 2);
    assert_eq!(e.cursor.position.y, 1);

    key(&mut e, 'j');
    assert_eq!(e.cursor.position.x, 5);
    assert_eq!(e.cursor.position.y, 2);
}

#[test]
fn open_row_below_enters_insert_mode() {
    let mut e = session(&["ab"]);
    key(&mut e, 'o');
    assert!(matches!(e.mode, Mode::Insert));
    assert_eq!(e.view.buffer.lines, doc(&["ab", ""]));
    assert_eq!(e.cursor.position.x, 0);
    assert_eq!(e.cursor.position.y, 1);
}

#[test]
fn append_at_end_of_row() {
    let mut e = session(&["abc"]);
    key(&mut e, 'A');
    assert!(matches!(e.mode, Mode::Insert));
    assert_eq!(e.cursor.position.x, 3);
    key(&mut e, 'd');
    assert_eq!(e.view.buffer.lines, doc(&["abcd"]));
}

#[test]
fn resize_updates_the_view() {
    let mut e = session(&["ab"]);
    e.evaluate_event(&Input::Resize(10, 5));
    assert_eq!(e.view.size.width, 10);
    assert_eq!(e.view.size.height, 5);
    assert!(e.view.redraw);
}

#[test]
fn movement_keys_are_ignored_in_insert_mode_guards() {
    // In insert mode a plain 'h' is text, not a cursor move.
    let mut e = session(&["zz"]);
    key(&mut e, 'i');
    key(&mut e, 'h');
    assert_eq!(e.view.buffer.lines, doc(&["hzz"]));
}

#[test]
fn can_handle_accepts_ordinary_events_and_rejects_bad_writes() {
    let mut e = session(&["abc"]);
    assert!(e.can_handle(&Input::Key('j', false)));
    assert!(e.can_handle(&Input::Tab));
    assert!(e.can_handle(&Input::Esc));
    assert!(e.can_handle(&Input::Backspace));

    // An unaddressable write position: insert mode with the cursor past the
    // end of an existing row.
    key(&mut e, 'i');
    e.cursor.position.x = 5;
    assert!(!e.can_handle(&Input::Key('x', false)));
    assert!(!e.can_handle(&Input::Tab));
}

#[test]
fn can_handle_checks_the_column_range_of_a_join() {
    // Joining a row onto a full-width row would push the seam past the u16
    // column range; deleting an empty row below the same row is still fine.
    let long = "a".repeat(u16::MAX as usize);
    let mut e = session(&[&long, "b"]);
    e.cursor.position = Position::new(0, 1);
    key(&mut e, 'i');
    assert!(!e.can_handle(&Input::Backspace));

    let mut e2 = session(&[&long, ""]);
    e2.cursor.position = Position::new(0, 1);
    key(&mut e2, 'i');
    assert!(e2.can_handle(&Input::Backspace));
}

#[test]
fn undo_at_origin_does_nothing() {
    let mut e = session(&["ab"]);
    key(&mut e, 'u');
    assert_eq!(e.view.buffer.lines, doc(&["ab"]));
    assert!(matches!(e.mode, Mode::Normal));
}
