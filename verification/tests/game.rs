use std::collections::VecDeque;

use snek::config::{BORDER_START_X, GRID_HEIGHT, GRID_WIDTH, TICK_NANOS};
use snek::entities::{Apple, Direction, Point, Snek};
use snek::game::{
    build_border, remaining_tick_nanos, start_position, Game, GameState, Input, START_LENGTH,
};

fn snake_from(cells: &[(u32, u32)]) -> Snek {
    let mut body = VecDeque::new();
    for &(x, y) in cells {
        body.push_back(Point::new(x, y));
    }
    Snek::new(body)
}

fn game_with(cells: &[(u32, u32)], food: (u32, u32)) -> Game {
    let snek = snake_from(cells);
    let apple = Apple::place(&snek, food.0, food.1).unwrap();
    Game { snek, apple, state: GameState::Running }
}

fn body_of(game: &Game) -> Vec<(u32, u32)> {
    game.snek.get_position().iter().map(|p| (p.get_x(), p.get_y())).collect()
}

fn food_of(game: &Game) -> (u32, u32) {
    (game.apple.get_position().get_x(), game.apple.get_position().get_y())
}

#[test]
fn grid_is_fifty_by_fifty_at_ten_ticks_a_second() {
    assert_eq!(GRID_WIDTH, 50);
    assert_eq!(GRID_HEIGHT, 50);
    assert_eq!(TICK_NANOS, 100_000_000);
    assert_eq!(START_LENGTH, 3);
}

#[test]
fn new_game_starts_running_with_a_short_snake() {
    let game = Game::new();
    assert_eq!(game.state, GameState::Running);
    assert_eq!(body_of(&game), vec![(16, 25), (15, 25), (14, 25)]);
    assert_eq!(game.snek.get_direction(), Direction::Right);
    let food = food_of(&game);
    assert!(4 < food.0 && food.0 < 46 && 4 < food.1 && food.1 < 46);
    assert!(!game.snek.occupies(game.apple.get_position()));
}

#[test]
fn start_position_is_a_row_of_three() {
    let cells: Vec<Point> = start_position().into_iter().collect();
    assert_eq!(cells, vec![Point::new(16, 25), Point::new(15, 25), Point::new(14, 25)]);
}

#[test]
fn plain_tick_moves_the_snake() {
    let mut game = game_with(&[(10, 10), (9, 10), (8, 10)], (30, 30));
    game.tick();
    assert_eq!(game.state, GameState::Running);
    assert_eq!(body_of(&game), vec![(11, 10), (10, 10), (9, 10)]);
    assert_eq!(food_of(&game), (30, 30));
}

#[test]
fn snake_eats_the_food_ahead_and_grows() {
    let mut game = game_with(&[(10, 10), (9, 10), (8, 10)], (11, 10));
    // The first tick brings the head onto the food.
    game.tick();
    assert_eq!(game.state, GameState::Running);
    assert_eq!(body_of(&game), vec![(11, 10), (10, 10), (9, 10)]);
    assert_eq!(food_of(&game), (11, 10));
    // The second tick finds it there: the snake grows and the food moves.
    game.tick();
    assert_eq!(game.state, GameState::Running);
    assert_eq!(body_of(&game), vec![(12, 10), (11, 10), (10, 10), (9, 10)]);
    assert_eq!(game.snek.get_position().len(), 4);
    assert_ne!(food_of(&game), (11, 10));
    assert!(!game.snek.occupies(game.apple.get_position()));
    let food = food_of(&game);
    assert!(4 < food.0 && food.0 < 46 && 4 < food.1 && food.1 < 46);
}

#[test]
fn eaten_food_never_lands_on_the_grown_snake() {
    for _ in 0..300 {
        let mut game = game_with(&[(10, 10), (9, 10), (8, 10)], (11, 10));
        game.tick();
        game.tick();
        assert_eq!(game.snek.get_position().len(), 4);
        assert!(!game.snek.occupies(game.apple.get_position()));
    }
}

#[test]
fn snake_at_the_left_wall_ends_the_game_unmoved() {
    let mut snek = snake_from(&[(4, 10), (5, 10), (6, 10)]);
    snek.move_up();
    snek.move_left();
    assert_eq!(snek.get_direction(), Direction::Left);
    assert_eq!(snek.get_head_position().get_x(), BORDER_START_X);
    let apple = Apple::place(&snek, 30, 30).unwrap();
    let mut game = Game { snek, apple, state: GameState::Running };
    game.tick();
    assert_eq!(game.state, GameState::GameOver);
    assert_eq!(body_of(&game), vec![(4, 10), (5, 10), (6, 10)]);
    assert_eq!(game.snek.get_direction(), Direction::Left);
    assert_eq!(food_of(&game), (30, 30));
}

#[test]
fn snake_in_the_corner_of_the_grid_ends_the_game_unmoved() {
    let mut snek = snake_from(&[(0, 0), (1, 0)]);
    snek.move_up();
    let apple = Apple::place(&snek, 30, 30).unwrap();
    let mut game = Game { snek, apple, state: GameState::Running };
    game.tick();
    assert_eq!(game.state, GameState::GameOver);
    assert_eq!(body_of(&game), vec![(0, 0), (1, 0)]);
}

#[test]
fn snake_reaches_the_wall_and_dies_on_the_next_tick() {
    let mut game = game_with(&[(44, 10), (43, 10)], (30, 30));
    game.tick();
    assert_eq!(game.state, GameState::Running);
    assert_eq!(body_of(&game), vec![(45, 10), (44, 10)]);
    game.tick();
    assert_eq!(game.state, GameState::Running);
    assert_eq!(body_of(&game), vec![(46, 10), (45, 10)]);
    game.tick();
    assert_eq!(game.state, GameState::GameOver);
    assert_eq!(body_of(&game), vec![(46, 10), (45, 10)]);
}

#[test]
fn snake_that_bites_itself_ends_the_game() {
    let mut game = game_with(&[(10, 10), (10, 11), (9, 11), (9, 10), (10, 10)], (30, 30));
    game.tick();
    assert_eq!(game.state, GameState::GameOver);
    assert_eq!(body_of(&game), vec![(10, 10), (10, 11), (9, 11), (9, 10), (10, 10)]);
}

#[test]
fn wall_is_checked_before_food() {
    // The head is on the wall and the food was put under it beforehand.
    let feeder = snake_from(&[(6, 10)]);
    let apple = Apple::place(&feeder, 5, 10).unwrap();
    let mut game = Game { snek: snake_from(&[(5, 10), (6, 10)]), apple, state: GameState::Running };
    game.snek.move_up();
    game.snek.move_left();
    game.tick();
    // Head on the food, clear of the wall: the snake grows.
    assert_eq!(body_of(&game), vec![(4, 10), (5, 10), (6, 10)]);
    assert_eq!(game.state, GameState::Running);
    game.tick();
    assert_eq!(game.state, GameState::GameOver);
    assert_eq!(body_of(&game), vec![(4, 10), (5, 10), (6, 10)]);
}

#[test]
fn game_over_is_final() {
    let mut game = game_with(&[(4, 10), (5, 10)], (30, 30));
    game.tick();
    assert_eq!(game.state, GameState::GameOver);
    for input in [Input::Escape, Input::Left, Input::Right, Input::Up, Input::Down] {
        assert!(game.handle_input(input));
        game.tick();
        assert_eq!(game.state, GameState::GameOver);
        assert_eq!(body_of(&game), vec![(4, 10), (5, 10)]);
        assert_eq!(game.snek.get_direction(), Direction::Right);
        assert_eq!(food_of(&game), (30, 30));
    }
}

#[test]
fn escape_halts_and_resumes() {
    let mut game = game_with(&[(10, 10), (9, 10)], (30, 30));
    assert!(game.handle_input(Input::Escape));
    assert_eq!(game.state, GameState::Paused);
    game.tick();
    assert_eq!(body_of(&game), vec![(10, 10), (9, 10)]);
    assert!(game.handle_input(Input::Escape));
    assert_eq!(game.state, GameState::Running);
    game.tick();
    assert_eq!(body_of(&game), vec![(11, 10), (10, 10)]);
}

#[test]
fn turns_are_ignored_while_halted() {
    let mut game = game_with(&[(10, 10), (9, 10)], (30, 30));
    game.handle_input(Input::Escape);
    game.handle_input(Input::Up);
    assert_eq!(game.snek.get_direction(), Direction::Right);
    game.handle_input(Input::Escape);
    game.handle_input(Input::Up);
    assert_eq!(game.snek.get_direction(), Direction::Up);
}

#[test]
fn direction_inputs_turn_a_running_snake() {
    let mut game = game_with(&[(10, 10), (9, 10)], (30, 30));
    assert!(game.handle_input(Input::Left));
    assert_eq!(game.snek.get_direction(), Direction::Right);
    assert!(game.handle_input(Input::Down));
    assert_eq!(game.snek.get_direction(), Direction::Down);
    assert!(game.handle_input(Input::Left));
    assert_eq!(game.snek.get_direction(), Direction::Left);
    assert!(game.handle_input(Input::Up));
    assert_eq!(game.snek.get_direction(), Direction::Up);
    assert!(game.handle_input(Input::Right));
    assert_eq!(game.snek.get_direction(), Direction::Right);
    assert_eq!(body_of(&game), vec![(10, 10), (9, 10)]);
    assert_eq!(game.state, GameState::Running);
}

#[test]
fn quit_asks_to_stop_and_changes_nothing() {
    let mut game = game_with(&[(10, 10), (9, 10)], (30, 30));
    assert!(!game.handle_input(Input::Quit));
    assert_eq!(game.state, GameState::Running);
    assert_eq!(body_of(&game), vec![(10, 10), (9, 10)]);
    assert_eq!(game.snek.get_direction(), Direction::Right);
    assert_eq!(food_of(&game), (30, 30));
}

#[test]
fn food_stays_put_when_the_board_is_full() {
    // Every cell inside the wall but (45, 45) is covered, the head is at
    // (44, 45) on the food and moves right into the last free cell.
    let mut body = VecDeque::new();
    body.push_back(Point::new(44, 45));
    for y in 5u32..46 {
        for x in 5u32..46 {
            if (x, y) != (44, 45) && (x, y) != (45, 45) {
                body.push_back(Point::new(x, y));
            }
        }
    }
    let feeder = snake_from(&[(10, 10)]);
    let apple = Apple::place(&feeder, 44, 45).unwrap();
    let mut game = Game { snek: Snek::new(body), apple, state: GameState::Running };
    game.tick();
    assert_eq!(game.state, GameState::Running);
    assert_eq!(game.snek.get_position().len(), 1681);
    assert_eq!(*game.snek.get_head_position(), Point::new(45, 45));
    assert_eq!(food_of(&game), (44, 45));
}

#[test]
fn border_is_the_outline_of_the_inset_rectangle() {
    let border = build_border();
    for x in 0u32..50 {
        for y in 0u32..50 {
            let horizontal = (y == 4 || y == 46) && 4 <= x && x <= 46;
            let vertical = (x == 4 || x == 46) && 4 <= y && y <= 46;
            let listed = border.iter().any(|p| *p == Point::new(x, y));
            assert_eq!(listed, horizontal || vertical);
        }
    }
    for p in border.iter() {
        assert!(p.get_x() < 50 && p.get_y() < 50);
    }
}

#[test]
fn remaining_tick_is_what_is_left_of_a_tenth_of_a_second() {
    assert_eq!(remaining_tick_nanos(0), 100_000_000);
    assert_eq!(remaining_tick_nanos(40_000_000), 60_000_000);
    assert_eq!(remaining_tick_nanos(99_999_999), 1);
    assert_eq!(remaining_tick_nanos(100_000_000), 0);
    assert_eq!(remaining_tick_nanos(100_000_001), 0);
    assert_eq!(remaining_tick_nanos(u128::MAX), 0);
}
