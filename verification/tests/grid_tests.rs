use snake::grid::{Direction, Position};

#[test]
fn opposite_maps_each_direction() {
    assert_eq!(Direction::Up.opposite(), Direction::Down);
    assert_eq!(Direction::Down.opposite(), Direction::Up);
    assert_eq!(Direction::Left.opposite(), Direction::Right);
    assert_eq!(Direction::Right.opposite(), Direction::Left);
}

#[test]
fn position_new_builds_the_pair() {
    let p = Position::new(7, 11);
    assert_eq!(p, Position(7, 11));
    assert_eq!(p.0, 7);
    assert_eq!(p.1, 11);
}

#[test]
fn shifted_by_moves_both_coordinates() {
    let p = Position(5, 3);
    assert_eq!(p.shifted_by(2, -1), Position(7, 2));
    assert_eq!(p.shifted_by(-5, 0), Position(0, 3));
    assert_eq!(p.shifted_by(0, 4), Position(5, 7));
}

#[test]
fn positions_compare_by_coordinates() {
    assert_eq!(Position(1, 2), Position(1, 2));
    assert_ne!(Position(1, 2), Position(2, 1));
}
