use snake::food::Food;
use snake::game::{Command, Game, RestartPolicy, Status};
use snake::grid::{Direction, Position};
use snake::playground::Playground;
use snake::rng::RandomSource;
use snake::snake::Snake;
use snake::ConfigError;

/// A 10 by 10 arena with a one-cell wall; the snake starts at (3,3),
/// body length 2, heading right; one step every 300 ms.
fn small_game(policy: RestartPolicy, seed: u32) -> Game {
    let pg = Playground::new(10, 10, 1).unwrap();
    let s = Snake::new(Position(3, 3), Direction::Right, 2);
    Game::new(
        pg,
        s,
        Food::default_food(),
        Food::default_bonus(),
        300,
        policy,
        RandomSource::seeded(seed),
    )
    .unwrap()
}

#[test]
fn new_game_starts_clean_with_free_food() {
    let g = small_game(RestartPolicy::Manual, 42);
    assert_eq!(g.score, 0);
    assert_eq!(g.status, Status::Running);
    assert_eq!(g.waiting_time, 0);
    assert!(!g.show_bonus);
    let food_pos = *g.food.get_position();
    assert!(1 <= food_pos.0 && food_pos.0 <= 8);
    assert!(1 <= food_pos.1 && food_pos.1 <= 8);
    assert!(!g.snake.on_position(&food_pos));
}

#[test]
fn new_game_rejects_a_snake_outside_the_interior() {
    let pg = Playground::new(10, 10, 1).unwrap();
    let s = Snake::new(Position(20, 20), Direction::Right, 2);
    let r = Game::new(
        pg,
        s,
        Food::default_food(),
        Food::default_bonus(),
        300,
        RestartPolicy::Manual,
        RandomSource::seeded(1),
    );
    assert_eq!(r.err().unwrap(), ConfigError::SnakePlacement);
}

#[test]
fn reversal_and_same_heading_are_ignored() {
    let mut g = small_game(RestartPolicy::Manual, 7);
    g.key_pressed(Command::Turn(Direction::Left)).unwrap();
    assert_eq!(*g.snake.get_direction(), Direction::Right);
    assert_eq!(*g.snake.get_head_position(), Position(3, 3));
    assert_eq!(g.waiting_time, 0);
    g.key_pressed(Command::Turn(Direction::Right)).unwrap();
    assert_eq!(*g.snake.get_direction(), Direction::Right);
    assert_eq!(*g.snake.get_head_position(), Position(3, 3));
}

#[test]
fn a_legal_turn_changes_heading_and_steps_at_once() {
    let mut g = small_game(RestartPolicy::Manual, 7);
    g.update(120).unwrap();
    assert_eq!(g.waiting_time, 120);
    g.key_pressed(Command::Turn(Direction::Up)).unwrap();
    assert_eq!(*g.snake.get_direction(), Direction::Up);
    assert_eq!(*g.snake.get_head_position(), Position(3, 2));
    assert_eq!(g.waiting_time, 0);
}

#[test]
fn confirm_while_running_is_ignored() {
    let mut g = small_game(RestartPolicy::Manual, 7);
    g.key_pressed(Command::Confirm).unwrap();
    assert_eq!(g.status, Status::Running);
    assert_eq!(*g.snake.get_head_position(), Position(3, 3));
}

#[test]
fn three_ticks_reach_the_staple_and_score() {
    // The staple waits where the head will stand after three steps.
    let mut g = small_game(RestartPolicy::Manual, 11);
    g.food.set_position(Position(6, 3));
    for _ in 0..3 {
        g.update(301).unwrap();
    }
    assert_eq!(*g.snake.get_head_position(), Position(6, 3));
    assert_eq!(g.score, 2);
    assert_eq!(g.snake.get_eatings(), 1);
    assert_eq!(g.snake.body.len(), 3);
    let new_food = *g.food.get_position();
    assert_ne!(new_food, Position(6, 3));
    assert!(1 <= new_food.0 && new_food.0 <= 8);
    assert!(1 <= new_food.1 && new_food.1 <= 8);
    assert!(!g.snake.on_position(&new_food));
    assert_eq!(g.status, Status::Running);
}

#[test]
fn a_short_tick_only_accumulates_waiting_time() {
    let mut g = small_game(RestartPolicy::Manual, 11);
    g.update(100).unwrap();
    assert_eq!(*g.snake.get_head_position(), Position(3, 3));
    assert_eq!(g.waiting_time, 100);
    g.update(150).unwrap();
    assert_eq!(*g.snake.get_head_position(), Position(3, 3));
    assert_eq!(g.waiting_time, 250);
    g.update(51).unwrap();
    assert_eq!(*g.snake.get_head_position(), Position(4, 3));
    assert_eq!(g.waiting_time, 0);
}

#[test]
fn the_fifth_eat_earns_a_bonus_on_the_next_tick() {
    let pg = Playground::new(20, 20, 1).unwrap();
    let s = Snake::new(Position(2, 10), Direction::Right, 2);
    let mut g = Game::new(
        pg,
        s,
        Food::default_food(),
        Food::default_bonus(),
        300,
        RestartPolicy::Manual,
        RandomSource::seeded(3),
    )
    .unwrap();
    for i in 0..5u32 {
        g.food.set_position(Position(3 + i, 10));
        g.update(301).unwrap();
        assert_eq!(g.snake.get_eatings(), (i + 1) as u64);
    }
    assert!(g.snake.worth_bonus());
    assert!(!g.show_bonus);
    g.update(1).unwrap();
    assert!(g.show_bonus);
    assert_eq!(g.bonus_time, 0);
    let bpos = *g.bonus.get_position();
    assert!(1 <= bpos.0 && bpos.0 <= 18);
    assert!(1 <= bpos.1 && bpos.1 <= 18);
    assert!(!g.snake.on_position(&bpos));
    assert_ne!(bpos, *g.food.get_position());
}

#[test]
fn eating_the_bonus_scores_high_and_quickens_the_pace() {
    let mut g = small_game(RestartPolicy::Manual, 9);
    g.food.set_position(Position(8, 8));
    g.show_bonus = true;
    g.bonus.set_position(Position(4, 3));
    g.bonus_time = 0;
    g.update(301).unwrap();
    assert_eq!(*g.snake.get_head_position(), Position(4, 3));
    assert_eq!(g.score, 10);
    assert_eq!(g.snake.get_eatings(), 1);
    assert!(!g.show_bonus);
    assert_eq!(g.move_delay, 280);
}

#[test]
fn an_unclaimed_bonus_expires_and_marks_a_miss() {
    let mut g = small_game(RestartPolicy::Manual, 9);
    g.food.set_position(Position(7, 7));
    g.show_bonus = true;
    g.bonus.set_position(Position(8, 8));
    g.bonus_time = 0;
    g.update(5001).unwrap();
    assert!(!g.show_bonus);
    assert!(g.missed_bonus);
    // A later staple eat clears the miss.
    g.food.set_position(Position(5, 3));
    g.update(301).unwrap();
    assert_eq!(g.snake.get_eatings(), 1);
    assert!(!g.missed_bonus);
}

#[test]
fn running_into_the_wall_ends_the_game() {
    let mut g = small_game(RestartPolicy::Manual, 13);
    g.food.set_position(Position(8, 8));
    for _ in 0..6 {
        g.update(301).unwrap();
    }
    assert_eq!(*g.snake.get_head_position(), Position(9, 3));
    assert_eq!(g.status, Status::GameOver);
    // Under the manual policy further ticks change nothing but timers.
    g.update(301).unwrap();
    assert_eq!(g.status, Status::GameOver);
    assert_eq!(*g.snake.get_head_position(), Position(9, 3));
}

#[test]
fn biting_the_own_body_ends_the_game() {
    let pg = Playground::new(12, 12, 1).unwrap();
    let s = Snake::new(Position(5, 5), Direction::Right, 4);
    let mut g = Game::new(
        pg,
        s,
        Food::default_food(),
        Food::default_bonus(),
        300,
        RestartPolicy::Manual,
        RandomSource::seeded(21),
    )
    .unwrap();
    g.food.set_position(Position(9, 9));
    g.key_pressed(Command::Turn(Direction::Down)).unwrap();
    g.key_pressed(Command::Turn(Direction::Left)).unwrap();
    assert_eq!(g.status, Status::Running);
    g.key_pressed(Command::Turn(Direction::Up)).unwrap();
    assert_eq!(*g.snake.get_head_position(), Position(4, 5));
    assert_eq!(g.status, Status::GameOver);
}

#[test]
fn confirm_after_game_over_restarts_everything() {
    let mut g = small_game(RestartPolicy::Manual, 17);
    g.food.set_position(Position(6, 3));
    for _ in 0..3 {
        g.update(301).unwrap();
    }
    assert_eq!(g.score, 2);
    g.food.set_position(Position(8, 8));
    for _ in 0..3 {
        g.update(301).unwrap();
    }
    assert_eq!(g.status, Status::GameOver);
    g.key_pressed(Command::Confirm).unwrap();
    assert_eq!(g.status, Status::Running);
    assert_eq!(g.score, 0);
    assert_eq!(*g.snake.get_head_position(), Position(3, 3));
    assert_eq!(*g.snake.get_direction(), Direction::Right);
    assert_eq!(g.snake.get_eatings(), 0);
    assert_eq!(g.snake.body.len(), 2);
    assert_eq!(g.move_delay, 300);
    assert_eq!(g.waiting_time, 0);
    assert!(!g.show_bonus);
    let food_pos = *g.food.get_position();
    assert!(!g.snake.on_position(&food_pos));
    assert!(1 <= food_pos.0 && food_pos.0 <= 8);
    assert!(1 <= food_pos.1 && food_pos.1 <= 8);
}

#[test]
fn the_auto_policy_restarts_after_its_wait() {
    let mut g = small_game(RestartPolicy::Auto(1000), 19);
    g.food.set_position(Position(8, 8));
    for _ in 0..6 {
        g.update(301).unwrap();
    }
    assert_eq!(g.status, Status::GameOver);
    g.update(500).unwrap();
    assert_eq!(g.status, Status::GameOver);
    g.update(501).unwrap();
    assert_eq!(g.status, Status::Running);
    assert_eq!(*g.snake.get_head_position(), Position(3, 3));
    assert_eq!(g.score, 0);
    assert_eq!(g.waiting_time, 0);
}
