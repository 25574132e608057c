use snake::food::Food;
use snake::game::random_free_position;
use snake::grid::{Direction, Position};
use snake::playground::Playground;
use snake::rng::RandomSource;
use snake::snake::Snake;
use snake::ConfigError;

#[test]
fn next_below_stays_in_range_with_the_system_source() {
    let mut rng = RandomSource::system();
    for _ in 0..200 {
        assert!(rng.next_below(5) < 5);
        assert!(rng.next_below(1) == 0);
    }
}

#[test]
fn next_below_stays_in_range_with_a_seed() {
    let mut rng = RandomSource::seeded(1234);
    for _ in 0..200 {
        assert!(rng.next_below(7) < 7);
    }
}

#[test]
fn seeded_source_repeats_its_draws() {
    let mut a = RandomSource::seeded(99);
    let mut b = RandomSource::seeded(99);
    for _ in 0..50 {
        assert_eq!(a.next_below(1000), b.next_below(1000));
    }
}

/// A 4 by 4 arena with a one-cell wall has the four interior cells
/// (1,1), (2,1), (1,2), (2,2).  The snake covers (2,2) and (1,2), the
/// staple sits on (1,1): only (2,1) is left.
fn near_full_setup() -> (Playground, Snake, Food, Food) {
    let pg = Playground::new(4, 4, 1).unwrap();
    let snake = Snake::new(Position(2, 2), Direction::Right, 2);
    let mut food = Food::default_food();
    food.set_position(Position(1, 1));
    let mut bonus = Food::default_bonus();
    bonus.set_position(Position(2, 1));
    (pg, snake, food, bonus)
}

#[test]
fn near_full_arena_always_yields_the_single_free_cell() {
    let (pg, snake, food, bonus) = near_full_setup();
    for seed in 0..20 {
        let mut rng = RandomSource::seeded(seed);
        let got = random_free_position(&pg, &snake, &food, &bonus, false, &mut rng);
        assert_eq!(got.unwrap(), Position(2, 1));
    }
    let mut rng = RandomSource::system();
    for _ in 0..20 {
        let got = random_free_position(&pg, &snake, &food, &bonus, false, &mut rng);
        assert_eq!(got.unwrap(), Position(2, 1));
    }
}

#[test]
fn full_arena_reports_the_fatal_error() {
    // With the bonus shown on the last free cell, nothing is left.
    let (pg, snake, food, bonus) = near_full_setup();
    let mut rng = RandomSource::seeded(5);
    let got = random_free_position(&pg, &snake, &food, &bonus, true, &mut rng);
    assert_eq!(got.unwrap_err(), ConfigError::ArenaFull);
}

#[test]
fn spawn_lands_inside_the_border_and_off_every_occupant() {
    let pg = Playground::new(12, 9, 2).unwrap();
    let snake = Snake::new(Position(6, 4), Direction::Right, 3);
    let mut food = Food::default_food();
    food.set_position(Position(3, 3));
    let mut bonus = Food::default_bonus();
    bonus.set_position(Position(8, 5));
    let mut rng = RandomSource::system();
    for _ in 0..100 {
        let p = random_free_position(&pg, &snake, &food, &bonus, true, &mut rng).unwrap();
        assert!(2 <= p.0 && p.0 <= 9);
        assert!(2 <= p.1 && p.1 <= 6);
        assert!(!snake.on_position(&p));
        assert!(!food.on_position(&p));
        assert!(!bonus.on_position(&p));
    }
}
