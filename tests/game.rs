use snake::game::{SnakeGame, State, POINTS_PER_MS};
use snake::geometry::{Direction, Point};

fn p(x: u32, y: u32) -> Point {
    Point::new(x, y)
}

/// A game in play on a grid of `cols` by `rows` cells with the given body.
fn game_with(
    cols: u32,
    rows: u32,
    body: Vec<Point>,
    direction: Direction,
    food: Option<Point>,
    time: u32,
) -> SnakeGame {
    SnakeGame {
        width: cols * 15,
        height: rows * 15,
        state: State::Play,
        x_cells_max: cols,
        y_cells_max: rows,
        score: 0,
        direction,
        body,
        food,
        food_generated_time: time,
    }
}

#[test]
fn new_game_layout() {
    let g = SnakeGame::new(800, 600, 10, 1234);
    assert_eq!(g.x_cells_max, 53);
    assert_eq!(g.y_cells_max, 40);
    assert_eq!((g.width, g.height), (800, 600));
    assert_eq!(g.state, State::Play);
    assert_eq!(g.score, 0);
    assert_eq!(g.direction, Direction::Left);
    assert_eq!(g.food_generated_time, 1234);
    let expected: Vec<Point> = (0..10).map(|i| p(26 + i, 20)).collect();
    assert_eq!(g.body, expected);
}

#[test]
fn fresh_food_is_never_on_the_body() {
    for t in 0..500u32 {
        let g = SnakeGame::new(800, 600, 10, t);
        let food = g.food.expect("a large grid always has food");
        assert!(food.x < 53 && food.y < 40);
        assert!(!g.body.contains(&food));
    }
    for t in 0..500u32 {
        // 2 by 1 cells: one taken by the snake, so the food has one place.
        let g = SnakeGame::new(30, 15, 1, t);
        assert_eq!(g.body, vec![p(1, 0)]);
        assert_eq!(g.food, Some(p(0, 0)));
    }
}

#[test]
fn single_cell_grid_has_no_food() {
    let g = SnakeGame::new(15, 15, 1, 0);
    assert_eq!(g.body, vec![p(0, 0)]);
    assert_eq!(g.food, None);
}

#[test]
fn reset_starts_over() {
    let mut g = game_with(4, 4, vec![p(0, 0), p(1, 0)], Direction::Up, None, 3);
    g.state = State::GameOver;
    g.score = 77;
    g.reset(60, 60, 1, 500);
    assert_eq!(g.state, State::Play);
    assert_eq!(g.score, 0);
    assert_eq!(g.direction, Direction::Left);
    assert_eq!(g.body, vec![p(2, 2)]);
    assert_eq!(g.food_generated_time, 500);
    let food = g.food.unwrap();
    assert!(food.x < 4 && food.y < 4 && food != p(2, 2));
}

#[test]
fn reverse_turn_is_ignored() {
    for d in [Direction::Left, Direction::Right, Direction::Up, Direction::Down] {
        let body = vec![p(5, 5), p(6, 5), p(7, 5)];
        let mut g = game_with(10, 10, body.clone(), d, Some(p(0, 0)), 0);
        g.change_direction(d.opposite());
        assert_eq!(g.direction, d);
        assert_eq!(g.body, body);
    }
}

#[test]
fn turn_takes_effect_on_next_tick() {
    let mut g = game_with(10, 10, vec![p(5, 5), p(6, 5)], Direction::Left, Some(p(0, 0)), 0);
    g.change_direction(Direction::Up);
    assert_eq!(g.direction, Direction::Up);
    assert_eq!(g.body, vec![p(5, 5), p(6, 5)]);
    g.move_snake(10);
    assert_eq!(g.body, vec![p(5, 4), p(5, 5)]);
}

#[test]
fn turn_after_game_over_is_ignored() {
    let mut g = game_with(10, 10, vec![p(5, 5), p(6, 5)], Direction::Left, Some(p(0, 0)), 0);
    g.state = State::GameOver;
    g.change_direction(Direction::Up);
    assert_eq!(g.direction, Direction::Left);
}

#[test]
fn straight_run_keeps_length() {
    let body = vec![p(8, 3), p(9, 3), p(9, 4), p(9, 5)];
    let mut g = game_with(20, 20, body, Direction::Left, Some(p(15, 15)), 0);
    for k in 1..=8u32 {
        g.move_snake(k * 50);
        assert_eq!(g.state, State::Play);
        assert_eq!(g.body[0], p(8 - k, 3));
        assert_eq!(g.body.len(), 4);
        assert_eq!(g.score, 0);
        assert_eq!(g.food, Some(p(15, 15)));
    }
    assert_eq!(g.body, vec![p(0, 3), p(1, 3), p(2, 3), p(3, 3)]);
}

#[test]
fn straight_run_down() {
    let mut g = game_with(20, 20, vec![p(4, 2), p(4, 1)], Direction::Down, None, 0);
    for k in 1..=5u32 {
        g.move_snake(k);
        assert_eq!(g.body, vec![p(4, 2 + k), p(4, 1 + k)]);
    }
}

#[test]
fn food_next_to_head_is_eaten_on_arrival() {
    // 4 by 4 cells, a one-cell snake at (2, 2) heading left, food at (1, 2).
    let mut g = SnakeGame::new(60, 60, 1, 1000);
    assert_eq!(g.body, vec![p(2, 2)]);
    assert_eq!(g.direction, Direction::Left);
    g.food = Some(p(1, 2));
    g.move_snake(1010);
    assert_eq!(g.state, State::Play);
    assert_eq!(g.body, vec![p(1, 2), p(2, 2)]);
    assert_eq!(g.score, 10000);
    assert_eq!(g.food_generated_time, 1010);
    let food = g.food.unwrap();
    assert!(food.x < 4 && food.y < 4);
    assert!(!g.body.contains(&food));
}

#[test]
fn standing_on_no_food_does_not_grow() {
    // The head leaves a cell without food: the length stays.
    let mut g = game_with(10, 10, vec![p(3, 3), p(4, 3)], Direction::Left, Some(p(7, 7)), 0);
    g.move_snake(10);
    assert_eq!(g.body, vec![p(2, 3), p(3, 3)]);
    assert_eq!(g.score, 0);
    assert_eq!(g.food, Some(p(7, 7)));
}

#[test]
fn eating_grows_by_one_and_scores() {
    let body = vec![p(3, 3), p(4, 3), p(5, 3)];
    let mut g = game_with(10, 10, body, Direction::Left, Some(p(2, 3)), 100);
    g.score = 5;
    g.move_snake(103);
    assert_eq!(g.body, vec![p(2, 3), p(3, 3), p(4, 3), p(5, 3)]);
    assert_eq!(g.score, 5 + 33333);
    assert_eq!(g.food_generated_time, 103);
    let food = g.food.unwrap();
    assert!(!g.body.contains(&food));
}

#[test]
fn score_formula_values() {
    let cases: [(u32, u32); 5] = [(1, 100000), (7, 14285), (10, 10000), (1000, 100), (100000, 1)];
    for (elapsed, points) in cases {
        let mut g = game_with(10, 10, vec![p(3, 3)], Direction::Left, Some(p(2, 3)), 50);
        g.move_snake(50 + elapsed);
        assert_eq!(g.score, points);
        assert_eq!(g.body.len(), 2);
    }
}

#[test]
fn score_with_no_elapsed_time_counts_one_millisecond() {
    let mut g = game_with(10, 10, vec![p(3, 3)], Direction::Left, Some(p(2, 3)), 50);
    g.move_snake(50);
    assert_eq!(g.score, POINTS_PER_MS);
    let mut g = game_with(10, 10, vec![p(3, 3)], Direction::Left, Some(p(2, 3)), 50);
    g.move_snake(20);
    assert_eq!(g.score, POINTS_PER_MS);
}

#[test]
fn late_food_is_worth_nothing() {
    let mut g = game_with(10, 10, vec![p(3, 3)], Direction::Left, Some(p(2, 3)), 0);
    g.move_snake(200000);
    assert_eq!(g.score, 0);
    assert_eq!(g.body.len(), 2);
}

#[test]
fn score_saturates() {
    let mut g = game_with(10, 10, vec![p(3, 3)], Direction::Left, Some(p(2, 3)), 0);
    g.score = u32::MAX - 10;
    g.move_snake(1);
    assert_eq!(g.score, u32::MAX);
}

#[test]
fn self_collision_ends_game() {
    // Heading up from (2, 2) runs into (2, 1).
    let body = vec![p(2, 2), p(3, 2), p(3, 1), p(2, 1), p(1, 1)];
    let mut g = game_with(10, 10, body.clone(), Direction::Up, Some(p(8, 8)), 0);
    g.score = 42;
    g.move_snake(50);
    assert_eq!(g.state, State::GameOver);
    assert_eq!(g.body, body);
    assert_eq!(g.score, 42);
    assert_eq!(g.food, Some(p(8, 8)));
}

#[test]
fn game_over_is_final() {
    let body = vec![p(2, 2), p(3, 2), p(3, 1), p(2, 1), p(1, 1)];
    let mut g = game_with(10, 10, body.clone(), Direction::Up, Some(p(8, 8)), 0);
    g.move_snake(50);
    assert_eq!(g.state, State::GameOver);
    for t in 2..6u32 {
        g.move_snake(t * 50);
        assert_eq!(g.state, State::GameOver);
        assert_eq!(g.body, body);
    }
}

#[test]
fn wraparound_left_lands_one_past_last_column() {
    let mut g = game_with(10, 10, vec![p(0, 4), p(1, 4)], Direction::Left, Some(p(5, 5)), 0);
    assert_eq!(g.next_head(), p(10, 4));
    g.move_snake(50);
    assert_eq!(g.state, State::Play);
    assert_eq!(g.body, vec![p(10, 4), p(0, 4)]);
    g.move_snake(100);
    assert_eq!(g.body, vec![p(9, 4), p(10, 4)]);
}

#[test]
fn wraparound_other_edges() {
    let g = game_with(10, 8, vec![p(10, 3)], Direction::Right, None, 0);
    assert_eq!(g.next_head(), p(0, 3));
    let g = game_with(10, 8, vec![p(9, 3)], Direction::Right, None, 0);
    assert_eq!(g.next_head(), p(10, 3));
    let g = game_with(10, 8, vec![p(4, 0)], Direction::Up, None, 0);
    assert_eq!(g.next_head(), p(4, 8));
    let g = game_with(10, 8, vec![p(4, 8)], Direction::Down, None, 0);
    assert_eq!(g.next_head(), p(4, 0));
}

#[test]
fn body_contains_checks_every_cell() {
    let g = game_with(10, 10, vec![p(1, 1), p(2, 1), p(3, 1)], Direction::Left, None, 0);
    assert!(g.body_contains(p(1, 1)));
    assert!(g.body_contains(p(3, 1)));
    assert!(!g.body_contains(p(4, 1)));
    assert!(!g.body_contains(p(1, 2)));
}

#[test]
fn candidate_food_reduces_and_rejects() {
    let g = game_with(10, 5, vec![p(3, 2), p(4, 2)], Direction::Left, None, 0);
    assert_eq!(g.candidate_food(27, 11), Some(p(7, 1)));
    assert_eq!(g.candidate_food(13, 7), None);
    assert_eq!(g.candidate_food(4, 2), None);
    assert_eq!(g.candidate_food(u32::MAX, u32::MAX), Some(p(5, 0)));
}

#[test]
fn place_food_takes_first_accepted_draw() {
    let g = game_with(10, 5, vec![p(3, 2), p(4, 2)], Direction::Left, None, 0);
    // (13, 7) selects (3, 2), on the body; (24, 12) selects (4, 2), on the body.
    assert_eq!(g.place_food(&vec![(13, 7), (24, 12), (27, 11), (5, 0)]), Some(p(7, 1)));
    assert_eq!(g.place_food(&vec![(5, 0), (27, 11)]), Some(p(5, 0)));
}

#[test]
fn place_food_falls_back_to_row_scan() {
    let g = game_with(3, 2, vec![p(0, 0), p(1, 0)], Direction::Left, None, 0);
    assert_eq!(g.place_food(&vec![]), Some(p(2, 0)));
    assert_eq!(g.place_food(&vec![(0, 0), (4, 2)]), Some(p(2, 0)));
    let full = vec![p(0, 0), p(1, 0), p(2, 0), p(0, 1), p(1, 1), p(2, 1)];
    let g = game_with(3, 2, full, Direction::Left, None, 0);
    assert_eq!(g.place_food(&vec![(1, 1), (2, 3)]), None);
}

#[test]
fn first_free_cell_reads_rows_in_order() {
    let g = game_with(3, 2, vec![p(0, 0), p(1, 0), p(2, 0), p(0, 1)], Direction::Left, None, 0);
    assert_eq!(g.first_free_cell(), Some(p(1, 1)));
    let g = game_with(3, 2, vec![p(1, 0)], Direction::Left, None, 0);
    assert_eq!(g.first_free_cell(), Some(p(0, 0)));
    let full = vec![p(0, 0), p(1, 0), p(2, 0), p(0, 1), p(1, 1), p(2, 1)];
    let g = game_with(3, 2, full, Direction::Left, None, 0);
    assert_eq!(g.first_free_cell(), None);
}

#[test]
fn growing_into_a_full_grid_leaves_no_food() {
    // 2 by 1 cells: the snake on (1, 0) moves onto the food at (0, 0).
    let mut g = game_with(2, 1, vec![p(1, 0)], Direction::Left, Some(p(0, 0)), 0);
    g.move_snake(10);
    assert_eq!(g.state, State::Play);
    assert_eq!(g.body, vec![p(0, 0), p(1, 0)]);
    assert_eq!(g.food, None);
    assert_eq!(g.score, 10000);
}
