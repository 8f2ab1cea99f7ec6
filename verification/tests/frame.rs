use snake::{Direction, Game, Key, Position, Tile, POLL_MILLIS, QUIT_KEY, TICK_MILLIS};

fn at(x: i32, y: i32) -> Position {
    Position { x, y }
}

#[test]
fn render_has_one_tile_for_each_cell() {
    let game = Game::new(7, 4);
    let rows = game.render();
    assert_eq!(rows.len(), 4);
    for row in rows.iter() {
        assert_eq!(row.len(), 7);
    }
}

#[test]
fn render_shows_snake_food_and_empty_cells() {
    let mut game = Game::new(4, 3);
    assert_eq!(game.head(), at(2, 1));
    assert!(game.place_food(at(0, 2)));
    let rows = game.render();
    let e = Tile::Empty;
    assert_eq!(rows[0], vec![e, e, e, e]);
    assert_eq!(rows[1], vec![e, e, Tile::Snake, e]);
    assert_eq!(rows[2], vec![Tile::Food, e, e, e]);
}

#[test]
fn render_follows_the_snake() {
    let mut game = Game::new(4, 3);
    assert!(game.place_food(at(3, 1)));
    game.update();
    assert_eq!(game.snake(), vec![at(3, 1), at(2, 1)]);
    assert!(game.place_food(at(0, 0)));
    let rows = game.render();
    let e = Tile::Empty;
    assert_eq!(rows[0], vec![Tile::Food, e, e, e]);
    assert_eq!(rows[1], vec![e, e, Tile::Snake, Tile::Snake]);
    assert_eq!(rows[2], vec![e, e, e, e]);
}

#[test]
fn snake_tile_wins_over_food() {
    // On a full board the food stays under the head.
    let mut game = Game::new(1, 2);
    game.change_direction(Direction::Up);
    game.update();
    assert!(game.is_over());
    assert_eq!(game.food(), at(0, 0));
    assert_eq!(game.tile_at(at(0, 0)), Tile::Snake);
    assert_eq!(game.render(), vec![vec![Tile::Snake], vec![Tile::Snake]]);
}

#[test]
fn tile_at_agrees_with_render() {
    let mut game = Game::new(5, 5);
    assert!(game.place_food(at(4, 4)));
    let rows = game.render();
    for y in 0..5 {
        for x in 0..5 {
            assert_eq!(rows[y as usize][x as usize], game.tile_at(at(x, y)));
        }
    }
    assert_eq!(game.tile_at(at(2, 2)), Tile::Snake);
    assert_eq!(game.tile_at(at(4, 4)), Tile::Food);
    assert_eq!(game.tile_at(at(0, 0)), Tile::Empty);
    assert_eq!(game.tile_at(at(-1, 7)), Tile::Empty);
}

#[test]
fn glyphs_are_distinct() {
    assert_eq!(Tile::Snake.glyph(), '█');
    assert_eq!(Tile::Food.glyph(), '●');
    assert_eq!(Tile::Empty.glyph(), '·');
    assert_ne!(Tile::Snake.glyph(), Tile::Food.glyph());
    assert_ne!(Tile::Snake.glyph(), Tile::Empty.glyph());
    assert_ne!(Tile::Food.glyph(), Tile::Empty.glyph());
}

#[test]
fn arrow_keys_turn_the_snake() {
    let mut game = Game::new(20, 20);
    assert!(!game.press(Key::Up));
    assert_eq!(game.direction(), Direction::Up);
    assert!(!game.press(Key::Left));
    assert_eq!(game.direction(), Direction::Left);
    assert!(!game.press(Key::Down));
    assert_eq!(game.direction(), Direction::Down);
    assert!(!game.press(Key::Right));
    assert_eq!(game.direction(), Direction::Right);
}

#[test]
fn arrow_key_for_the_reverse_is_ignored() {
    let mut game = Game::new(20, 20);
    assert!(!game.press(Key::Left));
    assert_eq!(game.direction(), Direction::Right);
}

#[test]
fn quit_key_asks_to_quit_and_changes_nothing() {
    let mut game = Game::new(20, 20);
    let food = game.food();
    assert_eq!(QUIT_KEY, 'q');
    assert!(game.press(Key::Char('q')));
    assert_eq!(game.direction(), Direction::Right);
    assert_eq!(game.snake(), vec![at(10, 10)]);
    assert_eq!(game.food(), food);
    assert!(!game.is_over());
}

#[test]
fn other_keys_do_nothing() {
    let mut game = Game::new(20, 20);
    assert!(!game.press(Key::Char('Q')));
    assert!(!game.press(Key::Char('x')));
    assert!(!game.press(Key::Other));
    assert_eq!(game.direction(), Direction::Right);
    assert_eq!(game.snake(), vec![at(10, 10)]);
}

#[test]
fn cadence_of_the_loop() {
    assert_eq!(TICK_MILLIS, 100);
    assert_eq!(POLL_MILLIS, 10);
}
