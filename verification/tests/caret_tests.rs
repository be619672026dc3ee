use r_edit::caret::{Caret, Direction};
use r_edit::terminal::{Command, Location, Position, Size};

fn caret_in(width: usize, height: usize) -> Caret {
    Caret { location: Location { x: 0, y: 0 }, size: Size { height, width } }
}

#[test]
fn default_caret_stands_at_the_origin_of_an_empty_viewport() {
    let caret = Caret::default();
    assert_eq!(caret.location, Location { x: 0, y: 0 });
    assert_eq!(caret.size, Size { height: 0, width: 0 });
}

#[test]
fn shift_up_never_leaves_the_first_row() {
    let mut caret = caret_in(80, 24);
    for _ in 0..100 {
        caret.shift(Direction::Up);
        assert_eq!(caret.location, Location { x: 0, y: 0 });
    }
}

#[test]
fn shift_right_never_leaves_the_last_column() {
    let mut caret = caret_in(80, 24);
    for step in 1..=200 {
        caret.shift(Direction::Right);
        assert!(caret.location.x <= 79);
        assert_eq!(caret.location.x, if step < 79 { step } else { 79 });
        assert_eq!(caret.location.y, 0);
    }
}

#[test]
fn shift_down_never_leaves_the_last_row() {
    let mut caret = caret_in(80, 24);
    for step in 1..=60 {
        caret.shift(Direction::Down);
        assert_eq!(caret.location.y, if step < 23 { step } else { 23 });
    }
}

#[test]
fn shift_left_never_leaves_the_first_column() {
    let mut caret = caret_in(80, 24);
    caret.location.x = 2;
    caret.shift(Direction::Left);
    assert_eq!(caret.location.x, 1);
    caret.shift(Direction::Left);
    assert_eq!(caret.location.x, 0);
    caret.shift(Direction::Left);
    assert_eq!(caret.location.x, 0);
}

#[test]
fn shift_moves_one_cell_and_places_the_cursor() {
    let mut caret = caret_in(80, 24);
    assert_eq!(caret.shift(Direction::Right), Command::MoveCaretTo(Position { x: 1, y: 0 }));
    assert_eq!(caret.shift(Direction::Down), Command::MoveCaretTo(Position { x: 1, y: 1 }));
    assert_eq!(caret.shift(Direction::Left), Command::MoveCaretTo(Position { x: 0, y: 1 }));
    assert_eq!(caret.shift(Direction::Up), Command::MoveCaretTo(Position { x: 0, y: 0 }));
    assert_eq!(caret.shift(Direction::Up), Command::MoveCaretTo(Position { x: 0, y: 0 }));
    assert_eq!(caret.size, Size { height: 24, width: 80 });
}

#[test]
fn shift_in_an_empty_viewport_stays_put() {
    let mut caret = Caret::default();
    for direction in [Direction::Up, Direction::Down, Direction::Left, Direction::Right] {
        caret.shift(direction);
        assert_eq!(caret.location, Location { x: 0, y: 0 });
    }
}

#[test]
fn shift_ignores_the_text() {
    let mut caret = caret_in(10, 5);
    for _ in 0..20 {
        caret.shift(Direction::Right);
        caret.shift(Direction::Down);
    }
    assert_eq!(caret.location, Location { x: 9, y: 4 });
}

#[test]
fn line_jumps() {
    let mut caret = caret_in(80, 24);
    caret.location = Location { x: 17, y: 5 };
    caret.go_end_of_line();
    assert_eq!(caret.location, Location { x: 79, y: 5 });
    caret.go_start_of_line();
    assert_eq!(caret.location, Location { x: 0, y: 5 });
    let mut narrow = Caret::default();
    narrow.go_end_of_line();
    assert_eq!(narrow.location, Location { x: 0, y: 0 });
}

#[test]
fn page_jumps_stop_at_the_edges() {
    let mut caret = caret_in(80, 24);
    caret.location = Location { x: 3, y: 5 };
    caret.page_down();
    assert_eq!(caret.location, Location { x: 3, y: 23 });
    caret.page_down();
    assert_eq!(caret.location, Location { x: 3, y: 23 });
    caret.page_up();
    assert_eq!(caret.location, Location { x: 3, y: 0 });
    caret.page_up();
    assert_eq!(caret.location, Location { x: 3, y: 0 });
}

#[test]
fn page_jumps_from_outside_the_viewport() {
    let mut caret = caret_in(80, 10);
    caret.location = Location { x: 0, y: 14 };
    caret.page_up();
    assert_eq!(caret.location.y, 4);
    caret.location.y = 35;
    caret.page_up();
    assert_eq!(caret.location.y, 9);
    caret.location.y = 35;
    caret.page_down();
    assert_eq!(caret.location.y, 9);
    let mut empty = Caret::default();
    empty.location.y = 3;
    empty.page_up();
    assert_eq!(empty.location.y, 3);
    empty.page_down();
    assert_eq!(empty.location.y, 3);
}

#[test]
fn resize_keeps_the_location() {
    let mut caret = caret_in(80, 24);
    caret.location = Location { x: 70, y: 20 };
    caret.resize(Size { height: 10, width: 40 });
    assert_eq!(caret.size, Size { height: 10, width: 40 });
    assert_eq!(caret.location, Location { x: 70, y: 20 });
    caret.shift(Direction::Right);
    caret.shift(Direction::Down);
    assert_eq!(caret.location, Location { x: 70, y: 20 });
    caret.shift(Direction::Left);
    caret.shift(Direction::Up);
    assert_eq!(caret.location, Location { x: 69, y: 19 });
}

#[test]
fn locations_and_positions_convert() {
    let position: Position = Location { x: 3, y: 4 }.into();
    assert_eq!(position, Position { x: 3, y: 4 });
    let location = Location::from(Position { x: 5, y: 6 });
    assert_eq!(location, Location { x: 5, y: 6 });
}
