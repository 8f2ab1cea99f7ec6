use snake::{Direction, Game, Position, FOOD_DRAWS};

fn at(x: i32, y: i32) -> Position {
    Position { x, y }
}

#[test]
fn place_food_takes_a_free_cell() {
    let mut game = Game::new(20, 20);
    assert!(game.place_food(at(3, 4)));
    assert_eq!(game.food(), at(3, 4));
    assert!(game.place_food(at(19, 19)));
    assert_eq!(game.food(), at(19, 19));
    assert_eq!(game.snake(), vec![at(10, 10)]);
    assert_eq!(game.score(), 0);
    assert!(!game.is_over());
}

#[test]
fn place_food_refuses_the_snake() {
    let mut game = Game::new(20, 20);
    assert!(game.place_food(at(3, 4)));
    assert!(!game.place_food(at(10, 10)));
    assert_eq!(game.food(), at(3, 4));
}

#[test]
fn place_food_refuses_cells_off_the_board() {
    let mut game = Game::new(20, 20);
    assert!(game.place_food(at(3, 4)));
    for cell in [at(-1, 0), at(0, -1), at(20, 0), at(0, 20), at(20, 20), at(i32::MAX, i32::MIN)] {
        assert!(!game.place_food(cell));
        assert_eq!(game.food(), at(3, 4));
    }
}

#[test]
fn generated_food_is_never_on_the_snake() {
    let mut game = Game::new(6, 6);
    // Grow along the middle row, then keep asking for food.
    assert!(game.place_food(at(4, 3)));
    game.update();
    assert!(game.place_food(at(5, 3)));
    game.update();
    assert_eq!(game.snake(), vec![at(5, 3), at(4, 3), at(3, 3)]);
    for _ in 0..500 {
        game.generate_food();
        let food = game.food();
        assert!(food.is_within(6, 6));
        assert!(!game.occupies(food));
        assert!(!game.is_over());
    }
    assert_eq!(game.snake(), vec![at(5, 3), at(4, 3), at(3, 3)]);
    assert_eq!(game.score(), 2);
}

#[test]
fn generated_food_finds_the_last_free_cell() {
    // On a 2x2 board with three cells covered only (0,1) is free.
    let mut game = Game::new(2, 2);
    game.change_direction(Direction::Up);
    assert!(game.place_food(at(1, 0)));
    game.update();
    game.change_direction(Direction::Left);
    assert!(game.place_food(at(0, 0)));
    game.update();
    for _ in 0..50 {
        game.generate_food();
        assert_eq!(game.food(), at(0, 1));
        assert!(!game.is_over());
    }
}

#[test]
fn generated_food_on_a_full_board_ends_the_game() {
    let mut game = Game::new(1, 1);
    assert!(game.is_over());
    let food = game.food();
    game.generate_food();
    assert!(game.is_over());
    assert_eq!(game.food(), food);
    assert_eq!(game.snake(), vec![at(0, 0)]);
}

#[test]
fn generated_food_varies() {
    // Draws that did not come from the generator would put the food on one
    // and the same cell each time.
    let mut game = Game::new(20, 20);
    let mut seen: Vec<Position> = Vec::new();
    for _ in 0..200 {
        game.generate_food();
        let food = game.food();
        assert!(food.is_within(20, 20));
        assert_ne!(food, at(10, 10));
        if !seen.contains(&food) {
            seen.push(food);
        }
    }
    assert!(seen.len() > 1);
}

#[test]
fn generated_food_reaches_every_row_and_column() {
    let mut game = Game::new(3, 3);
    let mut columns = [false; 3];
    let mut rows = [false; 3];
    for _ in 0..2000 {
        game.generate_food();
        let food = game.food();
        columns[food.x as usize] = true;
        rows[food.y as usize] = true;
    }
    assert_eq!(columns, [true; 3]);
    assert_eq!(rows, [true; 3]);
}

#[test]
fn food_draws_are_bounded() {
    assert_eq!(FOOD_DRAWS, 64);
}

#[test]
fn food_after_a_meal_is_off_the_snake() {
    for _ in 0..50 {
        let mut game = Game::new(4, 4);
        assert_eq!(game.head(), at(2, 2));
        assert!(game.place_food(at(3, 2)));
        game.update();
        assert_eq!(game.snake(), vec![at(3, 2), at(2, 2)]);
        assert!(!game.occupies(game.food()));
        assert!(game.food().is_within(4, 4));
    }
}

/// The heading that leads from `from` to the adjacent cell `to`.
fn toward(from: Position, to: Position) -> Direction {
    if to.x > from.x {
        Direction::Right
    } else if to.x < from.x {
        Direction::Left
    } else if to.y > from.y {
        Direction::Down
    } else {
        Direction::Up
    }
}

/// A way through every cell of a board of two columns that starts at the
/// center: up the right column, down the left one, and up the right one again.
fn way_through_two_columns(height: i32) -> Vec<Position> {
    let mut way = Vec::new();
    let mut y = height / 2 - 1;
    while y >= 0 {
        way.push(at(1, y));
        y -= 1;
    }
    for y in 0..height {
        way.push(at(0, y));
    }
    let mut y = height - 1;
    while y > height / 2 {
        way.push(at(1, y));
        y -= 1;
    }
    way
}

#[test]
fn snake_can_fill_a_board_of_two_columns() {
    let height = 30;
    let cells = 2 * height as usize;
    let way = way_through_two_columns(height);
    assert_eq!(way.len(), cells - 1);
    let mut game = Game::new(2, height);
    assert_eq!(game.head(), at(1, height / 2));
    for (eaten, &cell) in way.iter().enumerate() {
        assert!(!game.is_over());
        game.change_direction(toward(game.head(), cell));
        assert!(game.place_food(cell));
        game.update();
        assert_eq!(game.head(), cell);
        assert_eq!(game.length(), eaten + 2);
        assert_eq!(game.score(), eaten as u32 + 1);
        if eaten + 2 < cells {
            assert!(!game.is_over());
            assert!(!game.occupies(game.food()));
            assert!(game.food().is_within(2, height));
        }
    }
    assert!(game.is_over());
    assert_eq!(game.length(), cells);
    assert_eq!(game.score(), cells as u32 - 1);
}

#[test]
fn generated_food_takes_the_only_free_cell_of_a_crowded_board() {
    // With 59 of 60 cells covered most rounds of draws miss the free cell,
    // and the search has to find it.
    let height = 30;
    let way = way_through_two_columns(height);
    let last = *way.last().unwrap();
    let mut game = Game::new(2, height);
    for &cell in way.iter().take(way.len() - 1) {
        game.change_direction(toward(game.head(), cell));
        assert!(game.place_food(cell));
        game.update();
    }
    assert_eq!(game.length(), 59);
    assert!(!game.is_over());
    assert_eq!(game.food(), last);
    for _ in 0..200 {
        game.generate_food();
        assert_eq!(game.food(), last);
        assert!(!game.is_over());
        assert_eq!(game.length(), 59);
    }
}
