use snake_core::direction::{Direction, direction_between};

#[test]
fn opposite_pairs() {
    assert_eq!(Direction::North.opposite(), Direction::South);
    assert_eq!(Direction::South.opposite(), Direction::North);
    assert_eq!(Direction::East.opposite(), Direction::West);
    assert_eq!(Direction::West.opposite(), Direction::East);
}

#[test]
fn opposite_is_involution() {
    for dir in [
        Direction::North,
        Direction::South,
        Direction::East,
        Direction::West,
    ] {
        assert_eq!(dir.opposite().opposite(), dir);
    }
}

#[test]
fn delta_values() {
    assert_eq!(Direction::North.delta(), (0, 1));
    assert_eq!(Direction::South.delta(), (0, -1));
    assert_eq!(Direction::East.delta(), (1, 0));
    assert_eq!(Direction::West.delta(), (-1, 0));
}

#[test]
fn as_str_roundtrip() {
    for dir in [
        Direction::North,
        Direction::South,
        Direction::East,
        Direction::West,
    ] {
        assert_eq!(Direction::from_str(dir.as_str()), Some(dir));
    }
}

#[test]
fn from_str_invalid_returns_none() {
    assert_eq!(Direction::from_str("up"), None);
    assert_eq!(Direction::from_str(""), None);
    assert_eq!(Direction::from_str("North"), None); // case-sensitive
}

#[test]
fn direction_between_adjacent_cells() {
    assert_eq!(direction_between((5, 5), (6, 5)), Direction::East);
    assert_eq!(direction_between((5, 5), (4, 5)), Direction::West);
    assert_eq!(direction_between((5, 5), (5, 6)), Direction::North);
    assert_eq!(direction_between((5, 5), (5, 4)), Direction::South);
}

#[test]
fn direction_between_diagonal_prefers_horizontal() {
    // When both dx and dy are non-zero, horizontal (East/West) wins.
    assert_eq!(direction_between((0, 0), (1, 1)), Direction::East);
    assert_eq!(direction_between((0, 0), (-1, -1)), Direction::West);
}
