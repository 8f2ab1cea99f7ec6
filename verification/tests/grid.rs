use snake::{Direction, Position};

fn at(x: i32, y: i32) -> Position {
    Position { x, y }
}

#[test]
fn opposite_pairs_up_with_down_and_left_with_right() {
    assert_eq!(Direction::Up.opposite(), Direction::Down);
    assert_eq!(Direction::Down.opposite(), Direction::Up);
    assert_eq!(Direction::Left.opposite(), Direction::Right);
    assert_eq!(Direction::Right.opposite(), Direction::Left);
}

#[test]
fn opposite_twice_is_the_heading_itself() {
    for d in [Direction::Up, Direction::Down, Direction::Left, Direction::Right] {
        assert_eq!(d.opposite().opposite(), d);
        assert_ne!(d.opposite(), d);
    }
}

#[test]
fn step_moves_one_cell() {
    // The origin is the top-left corner: up is toward smaller y.
    assert_eq!(at(5, 5).step(Direction::Up), at(5, 4));
    assert_eq!(at(5, 5).step(Direction::Down), at(5, 6));
    assert_eq!(at(5, 5).step(Direction::Left), at(4, 5));
    assert_eq!(at(5, 5).step(Direction::Right), at(6, 5));
}

#[test]
fn step_may_leave_the_board() {
    assert_eq!(at(0, 0).step(Direction::Up), at(0, -1));
    assert_eq!(at(0, 0).step(Direction::Left), at(-1, 0));
}

#[test]
fn step_there_and_back() {
    for d in [Direction::Up, Direction::Down, Direction::Left, Direction::Right] {
        assert_eq!(at(7, 3).step(d).step(d.opposite()), at(7, 3));
    }
}

#[test]
fn is_within_checks_both_axes() {
    assert!(at(0, 0).is_within(1, 1));
    assert!(at(19, 19).is_within(20, 20));
    assert!(at(3, 0).is_within(4, 1));
    assert!(!at(4, 0).is_within(4, 1));
    assert!(!at(0, 1).is_within(4, 1));
    assert!(!at(-1, 0).is_within(4, 4));
    assert!(!at(0, -1).is_within(4, 4));
    assert!(!at(0, 0).is_within(0, 5));
    assert!(!at(0, 0).is_within(5, 0));
}
