use edit_core::position::Position;

#[test]
fn left_and_up_stop_at_zero() {
    let mut p = Position::new(1, 1);
    p.left();
    p.left();
    assert_eq!((p.x, p.y), (0, 1));
    p.up();
    p.up();
    assert_eq!((p.x, p.y), (0, 0));
}

#[test]
fn right_stops_at_the_terminal_width() {
    let mut p = Position::new(3, 0);
    p.right(4);
    assert_eq!(p.x, 4);
    p.right(4);
    assert_eq!(p.x, 4);
}

#[test]
fn down_stops_above_the_status_line() {
    let mut p = Position::new(0, 2);
    p.down(5);
    assert_eq!(p.y, 3);
    p.down(5);
    assert_eq!(p.y, 3);
}
