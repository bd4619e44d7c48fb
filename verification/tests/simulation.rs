//! Tests of the grid-simulation core: wraparound, direction validation,
//! the per-tick snake update, the clock, and food spawning.

use snake_sim::clock::SimulationClock;
use snake_sim::clock::TICK_INTERVAL_MS;
use snake_sim::direction::key_request;
use snake_sim::direction::request_change;
use snake_sim::direction::Direction;
use snake_sim::food::Food;
use snake_sim::grid::wrap;
use snake_sim::grid::GridCoordinate;
use snake_sim::grid::FIELD_SIZE;
use snake_sim::sim::Simulation;
use snake_sim::snake::Snake;

fn cell(x: i8, y: i8) -> GridCoordinate {
    GridCoordinate { x, y }
}

#[test]
fn wrap_stays_in_range() {
    for v in i8::MIN..=i8::MAX {
        let r = wrap(v);
        assert!(0 <= r && r < FIELD_SIZE);
    }
    assert_eq!(wrap(-1), 49);
    assert_eq!(wrap(50), 0);
    assert_eq!(wrap(7), 7);
    assert_eq!(wrap(-128), 22);
}

#[test]
fn step_up_wraps_at_top() {
    let c = cell(3, FIELD_SIZE - 1);
    assert_eq!(c.translate(Direction::Up), cell(3, 0));
}

#[test]
fn step_down_wraps_at_bottom() {
    let c = cell(3, 0);
    assert_eq!(c.translate(Direction::Down), cell(3, FIELD_SIZE - 1));
}

#[test]
fn step_right_wraps_at_edge() {
    let c = cell(49, 25);
    assert_eq!(c.translate(Direction::Right), cell(0, 25));
}

#[test]
fn step_left_wraps_at_edge() {
    let c = cell(0, 25);
    assert_eq!(c.translate(Direction::Left), cell(49, 25));
}

#[test]
fn reversal_is_rejected() {
    assert_eq!(request_change(Direction::Up, Direction::Down), Direction::Up);
    assert_eq!(request_change(Direction::Down, Direction::Up), Direction::Down);
    assert_eq!(request_change(Direction::Left, Direction::Right), Direction::Left);
    assert_eq!(request_change(Direction::Right, Direction::Left), Direction::Right);
}

#[test]
fn perpendicular_turn_is_granted() {
    assert_eq!(request_change(Direction::Up, Direction::Left), Direction::Left);
    assert_eq!(request_change(Direction::Up, Direction::Right), Direction::Right);
    assert_eq!(request_change(Direction::Left, Direction::Up), Direction::Up);
    assert_eq!(request_change(Direction::Up, Direction::Up), Direction::Up);
}

#[test]
fn key_priority_order() {
    assert_eq!(key_request(true, true, true, true), Some(Direction::Up));
    assert_eq!(key_request(false, true, true, false), Some(Direction::Down));
    assert_eq!(key_request(false, false, true, true), Some(Direction::Left));
    assert_eq!(key_request(false, false, false, true), Some(Direction::Right));
    assert_eq!(key_request(false, false, false, false), None);
}

#[test]
fn translate_into_empty_cell() {
    // Initial body, moving up, food elsewhere: a pure translation.
    let mut s = Snake::initial();
    let out = s.advance(Direction::Up, cell(5, 5));
    assert!(!out.ate);
    assert!(!out.reset);
    assert_eq!(s.body, vec![cell(0, 1), cell(0, 2), cell(0, 3)]);
    assert_eq!(s.len(), 3);
}

#[test]
fn growth_on_food() {
    // Food directly ahead of the head: the tail is kept and the body
    // grows by exactly one cell.
    let mut s = Snake::initial();
    let out = s.advance(Direction::Up, cell(0, 3));
    assert!(out.ate);
    assert!(!out.reset);
    assert_eq!(s.body, vec![cell(0, 0), cell(0, 1), cell(0, 2), cell(0, 3)]);
    assert_eq!(s.len(), 4);
}

#[test]
fn self_collision_resets() {
    // A loop of four cells, head at (6,5); moving up lands on (6,6),
    // which the body still occupies after the tail drop.
    let mut s = Snake {
        body: vec![cell(5, 5), cell(5, 6), cell(6, 6), cell(6, 5)],
    };
    let out = s.advance(Direction::Up, cell(20, 20));
    assert!(!out.ate);
    assert!(out.reset);
    assert_eq!(s.body, vec![cell(0, 0), cell(0, 1), cell(0, 2)]);
}

#[test]
fn reset_discards_growth() {
    // A longer snake that bites its own flank resets to length 3.
    let mut s = Snake {
        body: vec![
            cell(10, 10),
            cell(11, 10),
            cell(12, 10),
            cell(12, 11),
            cell(11, 11),
        ],
    };
    // Head (11,11) moving down lands on (11,10), still in the body.
    let out = s.advance(Direction::Down, cell(20, 20));
    assert!(out.reset);
    assert_eq!(s.body, vec![cell(0, 0), cell(0, 1), cell(0, 2)]);
}

#[test]
fn moving_into_vacated_tail_cell() {
    // Same loop, head at (6,5) moving left onto the tail cell (5,5): the
    // tail is dropped before the collision check, so the cell is free and
    // the move is a legal translation, not a collision.
    let mut s = Snake {
        body: vec![cell(5, 5), cell(5, 6), cell(6, 6), cell(6, 5)],
    };
    let out = s.advance(Direction::Left, cell(20, 20));
    assert!(!out.ate);
    assert!(!out.reset);
    assert_eq!(s.body, vec![cell(5, 6), cell(6, 6), cell(6, 5), cell(5, 5)]);
}

#[test]
fn food_spawn_lands_on_grid() {
    for _ in 0..200 {
        let f = Food::spawn();
        assert!(0 <= f.pos.x && f.pos.x < FIELD_SIZE);
        assert!(0 <= f.pos.y && f.pos.y < FIELD_SIZE);
    }
}

#[test]
fn food_from_raw_wraps_negative() {
    let f = Food::from_raw(-1, -3);
    assert_eq!(f.pos, cell(49, 47));
    let g = Food::from_raw(7, 50);
    assert_eq!(g.pos, cell(7, 0));
}

#[test]
fn clock_accumulates_and_fires() {
    let mut c = SimulationClock::new();
    assert!(!c.advance(50));
    assert!(!c.advance(49));
    assert!(c.advance(1));
    // After firing, the accumulator restarts from zero.
    assert!(!c.advance(99));
    assert!(c.advance(1));
    assert!(c.advance(TICK_INTERVAL_MS));
}

#[test]
fn clock_large_delta_fires_once() {
    let mut c = SimulationClock::new();
    assert!(c.advance(1000));
    assert_eq!(c.accumulated_ms, 0);
}

#[test]
fn simulation_starts_in_initial_state() {
    let sim = Simulation::new();
    assert_eq!(sim.score(), 3);
    assert_eq!(sim.direction, Direction::Up);
    assert_eq!(sim.snake.body, vec![cell(0, 0), cell(0, 1), cell(0, 2)]);
    assert_eq!(sim.clock.accumulated_ms, 0);
}

#[test]
fn frame_without_tick_changes_nothing_but_clock() {
    let mut sim = Simulation::new();
    let before = sim.snake.body.clone();
    let food = sim.food;
    assert_eq!(sim.frame(99), None);
    assert_eq!(sim.snake.body, before);
    assert_eq!(sim.food, food);
    assert_eq!(sim.clock.accumulated_ms, 99);
}

#[test]
fn frame_on_tick_moves_snake() {
    let mut sim = Simulation {
        snake: Snake::initial(),
        direction: Direction::Up,
        food: Food { pos: cell(20, 20) },
        clock: SimulationClock::new(),
    };
    let out = sim.frame(100).expect("a tick was due");
    assert!(!out.ate);
    assert!(!out.reset);
    assert_eq!(sim.snake.body, vec![cell(0, 1), cell(0, 2), cell(0, 3)]);
    assert_eq!(sim.food.pos, cell(20, 20));
    assert_eq!(sim.score(), 3);
}

#[test]
fn frame_on_food_grows_and_respawns() {
    let mut sim = Simulation {
        snake: Snake::initial(),
        direction: Direction::Up,
        food: Food { pos: cell(0, 3) },
        clock: SimulationClock::new(),
    };
    let out = sim.frame(100).expect("a tick was due");
    assert!(out.ate);
    assert!(!out.reset);
    assert_eq!(sim.score(), 4);
    // Exactly one new food was spawned; it lies on the grid.
    assert!(0 <= sim.food.pos.x && sim.food.pos.x < FIELD_SIZE);
    assert!(0 <= sim.food.pos.y && sim.food.pos.y < FIELD_SIZE);
}

#[test]
fn held_keys_steer_the_simulation() {
    let mut sim = Simulation::new();
    // Opposite of the current direction: rejected.
    sim.handle_keys(false, true, false, false);
    assert_eq!(sim.direction, Direction::Up);
    // Perpendicular: granted.
    sim.handle_keys(false, false, true, false);
    assert_eq!(sim.direction, Direction::Left);
    // No key held: unchanged.
    sim.handle_keys(false, false, false, false);
    assert_eq!(sim.direction, Direction::Left);
    // Up wins over right when both are held.
    sim.handle_keys(true, false, false, true);
    assert_eq!(sim.direction, Direction::Up);
}

#[test]
fn snake_head_is_last_cell() {
    let s = Snake::initial();
    assert_eq!(s.head(), cell(0, 2));
    assert_eq!(Direction::default(), Direction::Up);
}
