use rsnake::draw::{Block, Paint, Rectangle, Shape};
use rsnake::game::{
    Game, Key, FOOD_DELAY, MOVE_DELAY, RESTART_TIME, SNAKE_START_DIR, SNAKE_START_LEN,
    SNAKE_START_X, SNAKE_START_Y,
};
use rsnake::snake::Direction;

fn body(list: &[(u32, u32)]) -> Vec<Block> {
    list.iter().map(|&(x, y)| Block::new(x, y)).collect()
}

/// A game on a 20 by 20 board whose snake has run into the right wall.
fn finished_game() -> Game {
    let mut game = Game::new(20, 20);
    for _ in 0..16 {
        game.update_snake(None);
        assert!(!game.is_over());
    }
    game.update_snake(None);
    assert!(game.is_over());
    game
}

#[test]
fn delays_in_nanoseconds() {
    assert_eq!(MOVE_DELAY, 100_000_000);
    assert_eq!(FOOD_DELAY, 500_000_000);
    assert_eq!(RESTART_TIME, 500_000_000);
}

#[test]
fn starting_snake_parameters() {
    assert_eq!((SNAKE_START_X, SNAKE_START_Y, SNAKE_START_LEN), (2, 2, 5));
    assert_eq!(SNAKE_START_DIR, Direction::Right);
}

#[test]
fn new_game_has_border_of_one_cell() {
    let game = Game::new(20, 20);
    assert_eq!(game.window_rect(), Rectangle::new(0, 0, 20, 20));
    assert_eq!(game.game_rect(), Rectangle::new(1, 1, 18, 18));
}

#[test]
fn new_game_starts_running_without_food() {
    let game = Game::new(20, 20);
    assert!(!game.is_over());
    assert!(!game.has_pending_change());
    assert_eq!(game.food(), None);
    assert_eq!(game.waiting_time(), 0);
    assert_eq!(game.food_time(), FOOD_DELAY);
    assert_eq!(game.snake().cells(), body(&[(2, 2)]));
    assert_eq!(game.snake().target_len(), 5);
    assert_eq!(game.snake().direction(), Direction::Right);
}

#[test]
fn fits_asks_for_four_cells_a_side() {
    assert!(Game::fits(20, 20));
    assert!(Game::fits(4, 4));
    assert!(!Game::fits(3, 20));
    assert!(!Game::fits(20, 3));
    assert!(!Game::fits(0, 0));
}

#[test]
fn fits_refuses_boards_too_large_to_count() {
    assert!(!Game::fits(u32::MAX, u32::MAX));
    assert!(Game::fits(65_537, 65_537));
    assert!(!Game::fits(65_538, 65_538));
    assert!(!Game::fits(4, u32::MAX));
    assert!(Game::fits(4, 1_000_000));
}

#[test]
fn small_board_can_be_built() {
    let game = Game::new(2, 2);
    assert_eq!(game.game_rect(), Rectangle::new(1, 1, 0, 0));
    assert!(!Game::fits(2, 2));
}

#[test]
fn end_to_end_four_moves() {
    let mut game = Game::new(20, 20);
    assert_eq!(game.game_rect(), Rectangle::new(1, 1, 18, 18));
    for _ in 0..4 {
        game.update_snake(None);
    }
    assert_eq!(game.snake().cells(), body(&[(6, 2), (5, 2), (4, 2), (3, 2), (2, 2)]));
    assert!(!game.is_over());
}

#[test]
fn reverse_input_is_rejected() {
    let mut game = Game::new(20, 20);
    game.key_pressed(Key::Left);
    assert_eq!(game.snake().direction(), Direction::Right);
    assert!(!game.has_pending_change());
    game.key_pressed(Key::A);
    assert_eq!(game.snake().direction(), Direction::Right);
    assert!(!game.has_pending_change());
}

#[test]
fn arrow_keys_and_letters_name_the_same_directions() {
    for (key, dir) in [
        (Key::Up, Direction::Up),
        (Key::W, Direction::Up),
        (Key::Down, Direction::Down),
        (Key::S, Direction::Down),
        (Key::Right, Direction::Right),
        (Key::D, Direction::Right),
    ] {
        let mut game = Game::new(20, 20);
        game.key_pressed(key);
        assert_eq!(game.snake().direction(), dir);
        assert!(game.has_pending_change());
    }
    for key in [Key::Left, Key::A] {
        let mut game = Game::new(20, 20);
        game.key_pressed(Key::Up);
        game.update_snake(None);
        game.key_pressed(key);
        assert_eq!(game.snake().direction(), Direction::Left);
        assert!(game.has_pending_change());
    }
}

#[test]
fn unknown_key_is_ignored() {
    let mut game = Game::new(20, 20);
    game.key_pressed(Key::Other);
    assert_eq!(game.snake().direction(), Direction::Right);
    assert!(!game.has_pending_change());
}

#[test]
fn same_direction_key_counts_as_a_change() {
    let mut game = Game::new(20, 20);
    game.key_pressed(Key::Right);
    assert_eq!(game.snake().direction(), Direction::Right);
    assert!(game.has_pending_change());
}

#[test]
fn only_one_change_between_moves() {
    let mut game = Game::new(20, 20);
    game.key_pressed(Key::Down);
    game.key_pressed(Key::Left);
    assert_eq!(game.snake().direction(), Direction::Down);
    assert!(game.has_pending_change());
    game.update_snake(None);
    assert!(!game.has_pending_change());
    assert_eq!(game.snake().cells(), body(&[(2, 3), (2, 2)]));
    game.key_pressed(Key::Left);
    assert_eq!(game.snake().direction(), Direction::Left);
}

#[test]
fn pending_change_survives_a_tick_without_a_move() {
    let mut game = Game::new(20, 20);
    game.key_pressed(Key::Down);
    game.update(MOVE_DELAY);
    assert_eq!(game.snake().cells(), body(&[(2, 2)]));
    assert!(game.has_pending_change());
    game.key_pressed(Key::Right);
    assert_eq!(game.snake().direction(), Direction::Down);
    game.update(1);
    assert!(!game.has_pending_change());
    assert_eq!(game.snake().cells(), body(&[(2, 3), (2, 2)]));
}

#[test]
fn keys_are_ignored_when_the_game_is_over() {
    let mut game = finished_game();
    game.key_pressed(Key::Up);
    assert_eq!(game.snake().direction(), Direction::Right);
    assert!(!game.has_pending_change());
}

#[test]
fn snake_moves_once_the_wait_exceeds_the_move_delay() {
    let mut game = Game::new(20, 20);
    game.update(MOVE_DELAY);
    assert_eq!(game.waiting_time(), MOVE_DELAY);
    assert_eq!(game.snake().cells(), body(&[(2, 2)]));
    game.update(1);
    assert_eq!(game.waiting_time(), 0);
    assert_eq!(game.snake().cells(), body(&[(3, 2), (2, 2)]));
}

#[test]
fn one_long_tick_is_one_move() {
    let mut game = Game::new(20, 20);
    game.update(10 * MOVE_DELAY);
    assert_eq!(game.snake().cells(), body(&[(3, 2), (2, 2)]));
    assert_eq!(game.waiting_time(), 0);
}

#[test]
fn waiting_time_accumulates_over_ticks() {
    let mut game = Game::new(20, 20);
    game.update(30_000_000);
    game.update(30_000_000);
    game.update(30_000_000);
    assert_eq!(game.waiting_time(), 90_000_000);
    assert_eq!(game.snake().cells(), body(&[(2, 2)]));
    game.update(30_000_000);
    assert_eq!(game.waiting_time(), 0);
    assert_eq!(game.snake().cells(), body(&[(3, 2), (2, 2)]));
}

#[test]
fn first_tick_spawns_food() {
    let mut game = Game::new(20, 20);
    game.update(1);
    assert!(game.food().is_some());
    assert_eq!(game.food_time(), 0);
}

#[test]
fn tick_of_no_time_spawns_nothing() {
    let mut game = Game::new(20, 20);
    game.update(0);
    assert_eq!(game.food(), None);
    assert_eq!(game.food_time(), FOOD_DELAY);
    assert_eq!(game.waiting_time(), 0);
}

#[test]
fn food_time_rests_while_food_is_present() {
    let mut game = Game::new(20, 20);
    game.update(1);
    let food = game.food();
    game.update(50_000_000);
    assert_eq!(game.food(), food);
    assert_eq!(game.food_time(), 0);
}

#[test]
fn food_lies_inside_the_spawn_range_and_off_the_tail() {
    for _ in 0..300 {
        let mut game = Game::new(20, 20);
        game.update_snake(None);
        game.update_snake(None);
        game.new_food();
        let food = game.food().unwrap();
        assert!(1 <= food.x && food.x < 18);
        assert!(1 <= food.y && food.y < 18);
        assert!(game.game_rect().contains(&food));
        assert!(!game.snake().check_collide_tail(&food));
    }
}

#[test]
fn food_is_not_always_in_the_same_cell() {
    let game = Game::new(20, 20);
    let first = game.gen_food().unwrap();
    let mut other_x = false;
    let mut other_y = false;
    for _ in 0..400 {
        let food = game.gen_food().unwrap();
        other_x = other_x || food.x != first.x;
        other_y = other_y || food.y != first.y;
    }
    assert!(other_x);
    assert!(other_y);
}

#[test]
fn new_food_resets_the_food_time() {
    let mut game = Game::new(20, 20);
    assert_eq!(game.food_time(), FOOD_DELAY);
    game.new_food();
    assert_eq!(game.food_time(), 0);
    assert!(game.food().is_some());
}

#[test]
fn smallest_board_has_one_food_cell() {
    let game = Game::new(4, 4);
    assert_eq!(game.game_rect(), Rectangle::new(1, 1, 2, 2));
    for _ in 0..20 {
        assert_eq!(game.gen_food(), Some(Block::new(1, 1)));
    }
    assert_eq!(game.first_free_cell(), Some(Block::new(1, 1)));
}

#[test]
fn first_free_cell_goes_column_by_column() {
    let mut game = Game::new(20, 20);
    assert_eq!(game.first_free_cell(), Some(Block::new(1, 1)));
    game.update_snake(Some(Direction::Up));
    game.update_snake(Some(Direction::Left));
    game.update_snake(Some(Direction::Down));
    assert_eq!(game.snake().cells(), body(&[(1, 2), (1, 1), (2, 1), (2, 2)]));
    assert_eq!(game.first_free_cell(), Some(Block::new(1, 2)));
    game.update_snake(None);
    assert_eq!(game.snake().cells(), body(&[(1, 3), (1, 2), (1, 1), (2, 1), (2, 2)]));
    assert_eq!(game.first_free_cell(), Some(Block::new(1, 3)));
    game.update_snake(None);
    assert_eq!(game.snake().cells(), body(&[(1, 4), (1, 3), (1, 2), (1, 1), (2, 1)]));
    assert_eq!(game.first_free_cell(), Some(Block::new(1, 4)));
}

#[test]
fn snake_eats_grows_and_clears_the_food() {
    let mut game = Game::new(4, 4);
    game.update_snake(Some(Direction::Up));
    assert_eq!(game.snake().cells(), body(&[(2, 1), (2, 2)]));
    game.new_food();
    assert_eq!(game.food(), Some(Block::new(1, 1)));
    assert!(!game.snake_eating());
    game.update_snake(Some(Direction::Left));
    assert_eq!(game.snake().cells(), body(&[(1, 1), (2, 1), (2, 2)]));
    assert_eq!(game.food(), None);
    assert_eq!(game.snake().target_len(), 6);
    assert!(!game.is_over());
}

#[test]
fn no_food_where_the_tail_covers_every_cell() {
    let mut game = Game::new(4, 4);
    game.update_snake(Some(Direction::Up));
    game.update_snake(Some(Direction::Left));
    assert_eq!(game.gen_food(), Some(Block::new(1, 1)));
    game.update_snake(Some(Direction::Down));
    assert_eq!(game.snake().cells(), body(&[(1, 2), (1, 1), (2, 1), (2, 2)]));
    assert_eq!(game.first_free_cell(), None);
    assert_eq!(game.gen_food(), None);
    game.new_food();
    assert_eq!(game.food(), None);
    assert_eq!(game.food_time(), 0);
}

#[test]
fn snake_eating_is_head_on_food() {
    let mut game = Game::new(4, 4);
    assert!(!game.snake_eating());
    game.update_snake(Some(Direction::Left));
    assert_eq!(*game.snake().head(), Block::new(1, 2));
    game.update_snake(Some(Direction::Up));
    assert_eq!(*game.snake().head(), Block::new(1, 1));
    game.new_food();
    assert_eq!(game.food(), Some(Block::new(1, 1)));
    assert!(game.snake_eating());
}

#[test]
fn snake_alive_inside_and_dead_at_the_wall() {
    let mut game = Game::new(20, 20);
    assert!(game.snake_alive(None));
    assert!(game.snake_alive(Some(Direction::Up)));
    game.update_snake(Some(Direction::Up));
    assert_eq!(*game.snake().head(), Block::new(2, 1));
    assert!(!game.snake_alive(None));
    assert!(!game.snake_alive(Some(Direction::Up)));
    assert!(game.snake_alive(Some(Direction::Left)));
    assert!(game.snake_alive(Some(Direction::Right)));
    assert!(!game.snake_alive(Some(Direction::Down)));
}

#[test]
fn snake_dies_on_its_own_tail() {
    let mut game = Game::new(20, 20);
    game.update_snake(None);
    game.update_snake(Some(Direction::Down));
    game.update_snake(Some(Direction::Left));
    assert_eq!(game.snake().cells(), body(&[(2, 3), (3, 3), (3, 2), (2, 2)]));
    assert!(!game.snake_alive(Some(Direction::Up)));
    game.update_snake(Some(Direction::Up));
    assert!(game.is_over());
    assert_eq!(game.snake().cells(), body(&[(2, 3), (3, 3), (3, 2), (2, 2)]));
}

#[test]
fn moving_left_from_the_left_edge_ends_the_game() {
    let mut game = Game::new(20, 20);
    game.key_pressed(Key::Up);
    game.update(MOVE_DELAY + 1);
    game.key_pressed(Key::Left);
    game.update(MOVE_DELAY + 1);
    assert_eq!(*game.snake().head(), Block::new(1, 1));
    assert_eq!(game.snake().direction(), Direction::Left);
    assert_eq!(game.snake().next_head(None), Block::new(0, 1));
    assert!(!game.game_rect().contains(&Block::new(0, 1)));
    assert!(!game.snake_alive(None));
    assert!(!game.is_over());
    game.update(MOVE_DELAY);
    assert!(!game.is_over());
    game.update(1);
    assert!(game.is_over());
    assert_eq!(*game.snake().head(), Block::new(1, 1));
}

#[test]
fn game_over_step_moves_nothing() {
    let game = finished_game();
    assert_eq!(game.snake().cells(), body(&[(18, 2), (17, 2), (16, 2), (15, 2), (14, 2)]));
    assert!(!game.has_pending_change());
}

#[test]
fn finished_game_only_waits() {
    let mut game = finished_game();
    let cells = game.snake().cells();
    let food = game.food();
    game.update(RESTART_TIME - 1);
    assert!(game.is_over());
    assert_eq!(game.waiting_time(), RESTART_TIME - 1);
    assert_eq!(game.snake().cells(), cells);
    assert_eq!(game.food(), food);
}

#[test]
fn game_restarts_after_the_restart_delay() {
    let mut game = finished_game();
    game.update(RESTART_TIME - 1);
    assert!(game.is_over());
    game.update(1);
    assert!(!game.is_over());
    assert!(!game.has_pending_change());
    assert_eq!(game.waiting_time(), 0);
    assert_eq!(game.snake().cells(), body(&[(2, 2)]));
    assert_eq!(game.snake().target_len(), 5);
    assert_eq!(game.snake().direction(), Direction::Right);
    let food = game.food().unwrap();
    assert!(1 <= food.x && food.x < 18 && 1 <= food.y && food.y < 18);
    assert_eq!(game.game_rect(), Rectangle::new(1, 1, 18, 18));
    assert_eq!(game.window_rect(), Rectangle::new(0, 0, 20, 20));
}

#[test]
fn restart_makes_a_fresh_game_with_food() {
    let mut game = Game::new(20, 20);
    game.key_pressed(Key::Down);
    game.update_snake(None);
    game.update_snake(None);
    game.key_pressed(Key::Left);
    game.restart();
    assert!(!game.is_over());
    assert!(!game.has_pending_change());
    assert_eq!(game.snake().cells(), body(&[(2, 2)]));
    assert_eq!(game.snake().direction(), Direction::Right);
    assert!(game.food().is_some());
}

#[test]
fn restarted_game_plays_on() {
    let mut game = finished_game();
    game.update(RESTART_TIME);
    assert!(!game.is_over());
    game.update(MOVE_DELAY + 1);
    assert_eq!(game.snake().cells(), body(&[(3, 2), (2, 2)]));
}

#[test]
fn longest_tick_does_not_overflow() {
    let mut game = Game::new(20, 20);
    game.update(u64::MAX);
    assert_eq!(game.snake().cells(), body(&[(3, 2), (2, 2)]));
    game.update(MOVE_DELAY);
    game.update(u64::MAX);
    assert_eq!(game.waiting_time(), 0);
    let mut over = finished_game();
    over.update(1);
    over.update(u64::MAX);
    assert!(!over.is_over());
}

#[test]
fn draw_lists_board_then_snake() {
    let game = Game::new(20, 20);
    assert_eq!(
        game.draw(),
        vec![
            Shape { paint: Paint::Board, x: 40, y: 40, width: 720, height: 720 },
            Shape { paint: Paint::Snake, x: 80, y: 80, width: 40, height: 40 },
        ]
    );
}

#[test]
fn draw_puts_food_between_board_and_snake() {
    let mut game = Game::new(4, 4);
    game.new_food();
    game.update_snake(Some(Direction::Up));
    assert_eq!(
        game.draw(),
        vec![
            Shape { paint: Paint::Board, x: 40, y: 40, width: 80, height: 80 },
            Shape { paint: Paint::Food, x: 40, y: 40, width: 40, height: 40 },
            Shape { paint: Paint::Snake, x: 80, y: 40, width: 40, height: 40 },
            Shape { paint: Paint::Snake, x: 80, y: 80, width: 40, height: 40 },
        ]
    );
}

#[test]
fn draw_starts_with_the_overlay_when_the_game_is_over() {
    let mut game = Game::new(4, 4);
    game.update_snake(None);
    assert!(game.is_over());
    assert_eq!(
        game.draw(),
        vec![
            Shape { paint: Paint::GameOver, x: 0, y: 0, width: 160, height: 160 },
            Shape { paint: Paint::Board, x: 40, y: 40, width: 80, height: 80 },
            Shape { paint: Paint::Snake, x: 80, y: 80, width: 40, height: 40 },
        ]
    );
}

#[test]
fn draw_changes_nothing() {
    let mut game = Game::new(20, 20);
    game.update(1);
    let food = game.food();
    let first = game.draw();
    let second = game.draw();
    assert_eq!(first, second);
    assert_eq!(game.food(), food);
    assert_eq!(game.snake().cells(), body(&[(2, 2)]));
}
