//! Sprite-sheet index selection for each snake segment, from the geometry
//! of the body alone: the head and tail face their neighbour, and a middle
//! segment is straight or a turn depending on both neighbours.

use vstd::prelude::*;

use crate::direction::{Direction, direction_between, spec_direction_between};
use crate::game::SnakeGame;

verus! {

// Sprite indices in the 15-frame horizontal sprite sheet.
pub const SPRITE_BODY_H: usize = 0;

pub const SPRITE_BODY_V: usize = 1;

pub const SPRITE_TURN_SE: usize = 2;

pub const SPRITE_TURN_SW: usize = 3;

pub const SPRITE_TURN_NW: usize = 4;

pub const SPRITE_TURN_NE: usize = 5;

pub const SPRITE_TAIL_W: usize = 6;

pub const SPRITE_TAIL_N: usize = 7;

pub const SPRITE_TAIL_E: usize = 8;

pub const SPRITE_TAIL_S: usize = 9;

pub const SPRITE_HEAD_W: usize = 10;

pub const SPRITE_HEAD_N: usize = 11;

pub const SPRITE_HEAD_E: usize = 12;

pub const SPRITE_HEAD_S: usize = 13;

pub const SPRITE_FOOD: usize = 14;

/// Head sprite by where the body is relative to the head.
pub open spec fn head_sprite(to_body: Direction) -> usize {
    match to_body {
        Direction::West => SPRITE_HEAD_W,
        Direction::North => SPRITE_HEAD_N,
        Direction::East => SPRITE_HEAD_E,
        Direction::South => SPRITE_HEAD_S,
    }
}

/// Tail sprite by where the body is relative to the tail.
pub open spec fn tail_sprite(to_body: Direction) -> usize {
    match to_body {
        Direction::West => SPRITE_TAIL_W,
        Direction::North => SPRITE_TAIL_N,
        Direction::East => SPRITE_TAIL_E,
        Direction::South => SPRITE_TAIL_S,
    }
}

/// Middle-segment sprite by the directions toward the head-side and
/// tail-side neighbours: straight when they are opposite, a turn otherwise.
pub open spec fn body_sprite(to_prev: Direction, to_next: Direction) -> usize {
    match (to_prev, to_next) {
        (Direction::East, Direction::West) | (Direction::West, Direction::East) => SPRITE_BODY_H,
        (Direction::North, Direction::South) | (Direction::South, Direction::North) => SPRITE_BODY_V,
        (Direction::South, Direction::East) | (Direction::East, Direction::South) => SPRITE_TURN_SE,
        (Direction::South, Direction::West) | (Direction::West, Direction::South) => SPRITE_TURN_SW,
        (Direction::North, Direction::West) | (Direction::West, Direction::North) => SPRITE_TURN_NW,
        (Direction::North, Direction::East) | (Direction::East, Direction::North) => SPRITE_TURN_NE,
        _ => SPRITE_BODY_H,
    }
}

/// Sprite index for the body segment at position `i`, from the body
/// geometry alone.
pub open spec fn spec_sprite_index(s: Seq<(i32, i32)>, i: int) -> usize {
    if s.len() < 2 {
        SPRITE_HEAD_E
    } else if i == 0 {
        head_sprite(spec_direction_between(s[0], s[1]))
    } else if i == s.len() - 1 {
        tail_sprite(spec_direction_between(s[i], s[i - 1]))
    } else {
        body_sprite(
            spec_direction_between(s[i], s[i - 1]),
            spec_direction_between(s[i], s[i + 1]),
        )
    }
}

/// Pick the correct sprite atlas index for the snake segment at `index`.
pub fn sprite_index_for_segment(game: &SnakeGame, index: usize) -> (r: usize)
    requires
        index < game.snake@.len(),
    ensures
        r == spec_sprite_index(game.snake@, index as int),
{
    let len = game.snake.len();
    if len < 2 {
        return SPRITE_HEAD_E;
    }

    let cur = game.snake[index];

    if index == 0 {
        // Head — direction name = where the body is relative to head
        let body = game.snake[1];
        let to_body = direction_between(cur, body);
        return match to_body {
            Direction::West => SPRITE_HEAD_W,
            Direction::North => SPRITE_HEAD_N,
            Direction::East => SPRITE_HEAD_E,
            Direction::South => SPRITE_HEAD_S,
        };
    }

    if index == len - 1 {
        // Tail — direction name = where the body is relative to tail
        let body = game.snake[index - 1];
        let to_body = direction_between(cur, body);
        return match to_body {
            Direction::West => SPRITE_TAIL_W,
            Direction::North => SPRITE_TAIL_N,
            Direction::East => SPRITE_TAIL_E,
            Direction::South => SPRITE_TAIL_S,
        };
    }

    // Body — determine connection directions
    let prev = game.snake[index - 1];  // toward head
    let next = game.snake[index + 1];  // toward tail
    let to_prev = direction_between(cur, prev);
    let to_next = direction_between(cur, next);

    match (to_prev, to_next) {
        (Direction::East, Direction::West) | (Direction::West, Direction::East) => SPRITE_BODY_H,
        (Direction::North, Direction::South) | (Direction::South, Direction::North) => SPRITE_BODY_V,
        (Direction::South, Direction::East) | (Direction::East, Direction::South) => SPRITE_TURN_SE,
        (Direction::South, Direction::West) | (Direction::West, Direction::South) => SPRITE_TURN_SW,
        (Direction::North, Direction::West) | (Direction::West, Direction::North) => SPRITE_TURN_NW,
        (Direction::North, Direction::East) | (Direction::East, Direction::North) => SPRITE_TURN_NE,
        _ => SPRITE_BODY_H,
    }
}

} // verus!
