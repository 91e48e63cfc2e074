use std::collections::VecDeque;

use snake_core::direction::Direction;
use snake_core::game::{
    GRID_SIZE, INITIAL_LENGTH, GameTimer, SnakeGame, random_food_position, reset_game_state,
};

#[test]
fn default_game_has_correct_snake_length() {
    let game = SnakeGame::default();
    assert_eq!(game.snake.len(), INITIAL_LENGTH);
}

#[test]
fn default_game_snake_starts_at_center() {
    let game = SnakeGame::default();
    let mid = GRID_SIZE / 2;
    assert_eq!(*game.snake.front().unwrap(), (mid, mid));
}

#[test]
fn default_game_starts_heading_east() {
    let game = SnakeGame::default();
    assert_eq!(game.direction, Direction::East);
}

#[test]
fn default_game_is_not_over() {
    let game = SnakeGame::default();
    assert!(!game.game_over);
    assert_eq!(game.score, 0);
}

#[test]
fn food_not_on_snake() {
    let game = SnakeGame::default();
    assert!(!game.snake.contains(&game.food));
}

#[test]
fn random_food_avoids_snake() {
    let game = SnakeGame::default();
    for _ in 0..50 {
        let pos = random_food_position(&game.snake).unwrap();
        assert!(!game.snake.contains(&pos));
        assert!(pos.0 >= 0 && pos.0 < GRID_SIZE);
        assert!(pos.1 >= 0 && pos.1 < GRID_SIZE);
    }
}

#[test]
fn reset_clears_game_over() {
    let mut game = SnakeGame {
        game_over: true,
        score: 42,
        game_over_timer: 2000,
        ..SnakeGame::default()
    };
    reset_game_state(&mut game);
    assert!(!game.game_over);
    assert_eq!(game.score, 0);
    assert_eq!(game.game_over_timer, 0);
    assert_eq!(game.snake.len(), INITIAL_LENGTH);
}

#[test]
fn food_placement_none_only_when_grid_full() {
    // A body covering every cell leaves no free cell.
    let mut full: VecDeque<(i32, i32)> = VecDeque::new();
    for x in 0..GRID_SIZE {
        for y in 0..GRID_SIZE {
            full.push_back((x, y));
        }
    }
    assert_eq!(random_food_position(&full), None);

    // One cell short of full still yields exactly the free cell.
    let hole = full.pop_front().unwrap();
    let placed = random_food_position(&full);
    assert_eq!(placed, Some(hole));
}

#[test]
fn timer_fires_on_interval_and_carries_remainder() {
    let mut timer = GameTimer::new(150);
    assert!(!timer.tick(100));
    assert_eq!(timer.acc_ms, 100);
    assert!(timer.tick(100));
    assert_eq!(timer.acc_ms, 50);
    assert!(timer.tick(400));
    assert_eq!(timer.acc_ms, 0);
}
