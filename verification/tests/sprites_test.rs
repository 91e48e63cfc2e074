use std::collections::VecDeque;

use snake_core::direction::Direction;
use snake_core::game::SnakeGame;
use snake_core::sprites::{
    SPRITE_BODY_H, SPRITE_BODY_V, SPRITE_HEAD_E, SPRITE_HEAD_S, SPRITE_HEAD_W, SPRITE_TAIL_E,
    SPRITE_TURN_NW, sprite_index_for_segment,
};

/// Build a minimal game with the given snake segments.
fn game_with_snake(segments: &[(i32, i32)]) -> SnakeGame {
    SnakeGame {
        snake: VecDeque::from(segments.to_vec()),
        direction: Direction::East,
        food: (0, 0),
        score: 0,
        game_over: false,
        game_won: false,
        game_over_timer: 0,
    }
}

#[test]
fn head_facing_east() {
    // Head at (5,5), body at (4,5): the head sprite is chosen by where the
    // body is relative to the head, West here.
    let game = game_with_snake(&[(5, 5), (4, 5), (3, 5)]);
    assert_eq!(sprite_index_for_segment(&game, 0), SPRITE_HEAD_W);
}

#[test]
fn head_facing_north() {
    // Head at (5,6), body at (5,5): body is south of head.
    let game = game_with_snake(&[(5, 6), (5, 5), (5, 4)]);
    assert_eq!(sprite_index_for_segment(&game, 0), SPRITE_HEAD_S);
}

#[test]
fn tail_sprite() {
    // Snake: (5,5) (4,5) (3,5) — tail at (3,5), body at (4,5), to its east.
    let game = game_with_snake(&[(5, 5), (4, 5), (3, 5)]);
    let tail_idx = game.snake.len() - 1;
    assert_eq!(sprite_index_for_segment(&game, tail_idx), SPRITE_TAIL_E);
}

#[test]
fn horizontal_body_segment() {
    // Straight horizontal snake: middle segment at index 1 links east-west.
    let game = game_with_snake(&[(6, 5), (5, 5), (4, 5), (3, 5)]);
    assert_eq!(sprite_index_for_segment(&game, 1), SPRITE_BODY_H);
}

#[test]
fn vertical_body_segment() {
    // Straight vertical snake: middle segment at index 1 links north-south.
    let game = game_with_snake(&[(5, 7), (5, 6), (5, 5), (5, 4)]);
    assert_eq!(sprite_index_for_segment(&game, 1), SPRITE_BODY_V);
}

#[test]
fn turn_segment() {
    // Snake turns: head going east then turns north; segment at index 1
    // links north (toward head) and west (toward tail).
    let game = game_with_snake(&[(5, 6), (5, 5), (4, 5), (3, 5)]);
    assert_eq!(sprite_index_for_segment(&game, 1), SPRITE_TURN_NW);
}

#[test]
fn single_segment_snake() {
    let game = game_with_snake(&[(5, 5)]);
    assert_eq!(sprite_index_for_segment(&game, 0), SPRITE_HEAD_E);
}
