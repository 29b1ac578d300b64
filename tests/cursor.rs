use keywing::cursor::{Cursor, COLS, ROWS};

fn cursor_at(x: i32, y: i32) -> Cursor {
    Cursor::at(x, y).unwrap()
}

#[test]
fn new_cursor_is_at_origin() {
    let c = Cursor::new();
    assert_eq!((c.x(), c.y()), (0, 0));
}

#[test]
fn at_rejects_cells_off_the_grid() {
    assert!(Cursor::at(-1, 0).is_none());
    assert!(Cursor::at(0, -1).is_none());
    assert!(Cursor::at(COLS, 0).is_none());
    assert!(Cursor::at(0, ROWS).is_none());
    assert!(Cursor::at(COLS - 1, ROWS - 1).is_some());
}

#[test]
fn full_row_of_moves_right_wraps_once() {
    let mut c = Cursor::new();
    for _ in 0..40 {
        c.right();
    }
    assert_eq!((c.x(), c.y()), (0, 1));
}

#[test]
fn move_right_at_last_cell_clamps_row() {
    let mut c = cursor_at(39, 14);
    c.right();
    assert_eq!((c.x(), c.y()), (0, 14));
}

#[test]
fn enter_on_last_row_does_nothing() {
    for x in 0..40 {
        let mut c = cursor_at(x, 14);
        c.enter();
        assert_eq!((c.x(), c.y()), (x, 14));
    }
}

#[test]
fn enter_elsewhere_goes_to_next_row() {
    let mut c = cursor_at(17, 3);
    c.enter();
    assert_eq!((c.x(), c.y()), (0, 4));
    let mut c = cursor_at(0, 13);
    c.enter();
    assert_eq!((c.x(), c.y()), (0, 14));
}

#[test]
fn up_and_down_clamp() {
    let mut c = cursor_at(5, 0);
    c.up();
    assert_eq!((c.x(), c.y()), (5, 0));
    let mut c = cursor_at(5, 14);
    c.down();
    assert_eq!((c.x(), c.y()), (5, 14));
    let mut c = cursor_at(5, 7);
    c.up();
    assert_eq!((c.x(), c.y()), (5, 6));
    c.down();
    c.down();
    assert_eq!((c.x(), c.y()), (5, 8));
}

#[test]
fn left_wraps_to_previous_row_and_stops_at_origin() {
    let mut c = cursor_at(0, 3);
    c.left();
    assert_eq!((c.x(), c.y()), (39, 2));
    let mut c = Cursor::new();
    c.left();
    assert_eq!((c.x(), c.y()), (0, 0));
    let mut c = cursor_at(9, 9);
    c.left();
    assert_eq!((c.x(), c.y()), (8, 9));
}

#[test]
fn pos_projects_to_pixels() {
    let p = cursor_at(3, 2).pos();
    assert_eq!((p.x, p.y), (24, 32));
    let p = cursor_at(39, 14).pos();
    assert_eq!((p.x, p.y), (312, 224));
}

#[test]
fn every_sequence_of_moves_stays_on_grid() {
    let mut c = Cursor::new();
    for i in 0..2000u32 {
        match (i * 7 + i / 3) % 5 {
            0 => c.up(),
            1 => c.down(),
            2 => c.left(),
            3 => c.right(),
            _ => c.enter(),
        }
        assert!(0 <= c.x() && c.x() < COLS);
        assert!(0 <= c.y() && c.y() < ROWS);
    }
}
