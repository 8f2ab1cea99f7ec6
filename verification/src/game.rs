//! The game itself: a board, a snake, the food, and the operations on them.

use vstd::prelude::*;
use std::collections::VecDeque;
use crate::capacity::lemma_free_cell_iff_room;
use crate::grid::{Direction, Position};
use crate::laws::{lemma_grown_valid, lemma_slid_valid};
use crate::random::draw_below;
use crate::state::State;

verus! {

/// How many cells are drawn at random for new food before the board is
/// searched for a free one.
pub const FOOD_DRAWS: u32 = 64;

/// A game of snake. Its meaning is its view, a [`State`].
pub struct Game {
    snake: VecDeque<Position>,
    food: Position,
    direction: Direction,
    width: i32,
    height: i32,
    score: u32,
    game_over: bool,
}

impl View for Game {
    type V = State;

    closed spec fn view(&self) -> State {
        State {
            width: self.width as int,
            height: self.height as int,
            snake: self.snake@,
            food: self.food,
            direction: self.direction,
            score: self.score as nat,
            game_over: self.game_over,
        }
    }
}

impl Game {
    /// Starts a game on a board of `width` columns and `height` rows: one
    /// segment at the center, heading right, nothing scored, and food on a
    /// free cell. A board of a single cell has no room for food, and the game
    /// on it is over from the start. The board may not have more cells than
    /// the score can count.
    pub fn new(width: i32, height: i32) -> (game: Game)
        requires
            1 <= width,
            1 <= height,
            width * height <= u32::MAX,
        ensures
            game@ == State::seeded(width as int, height as int).refilled(game@.food),
            game@.inv(),
            game@.snake == seq![State::center(width as int, height as int)],
            game@.head().x == width / 2,
            game@.head().y == height / 2,
            game@.direction == Direction::Right,
            game@.score == 0,
            game@.game_over <==> width * height == 1,
            width * height > 1 ==> game@.on_board(game@.food) && game@.food != game@.head(),
    {
        let mut game = Game {
            snake: VecDeque::new(),
            food: Position { x: 0, y: 0 },
            direction: Direction::Right,
            width,
            height,
            score: 0,
            game_over: false,
        };
        game.snake.push_back(Position { x: width / 2, y: height / 2 });
        proof {
            assert(game@.snake =~= State::seeded(width as int, height as int).snake);
            assert(1 <= width * height) by (nonlinear_arith)
                requires
                    1 <= width,
                    1 <= height,
            ;
        }
        game.generate_food();
        game
    }

    /// Asks the snake to head in `requested`. A request to turn straight back
    /// is ignored; any other is followed.
    pub fn change_direction(&mut self, requested: Direction)
        ensures
            final(self)@ == old(self)@.turned(requested),
            old(self)@.inv() ==> final(self)@.inv(),
    {
        if self.direction != requested.opposite() {
            self.direction = requested;
        }
    }

    /// Advances the game by one tick. A game that is over stays as it is. The
    /// head moves one cell in the current heading; against a wall or the snake
    /// itself the game ends and nothing else changes. Where the head reaches
    /// the food the snake grows by that cell, one is scored and new food is
    /// laid out; elsewhere the tail follows and the length stays.
    pub fn update(&mut self)
        requires
            old(self)@.inv(),
        ensures
            final(self)@ == old(self)@.tick(final(self)@.food),
            final(self)@.inv(),
    {
        if self.game_over {
            return;
        }
        let head: Position = self.snake[0];
        let new_head: Position = head.step(self.direction);
        if !new_head.is_within(self.width, self.height) || self.occupies(new_head) {
            self.game_over = true;
            return;
        }
        proof {
            lemma_free_cell_iff_room(self@);
        }
        self.snake.push_front(new_head);
        if new_head == self.food {
            self.score += 1;
            proof {
                lemma_grown_valid(old(self)@);
            }
            self.generate_food();
        } else {
            self.snake.pop_back();
            proof {
                lemma_slid_valid(old(self)@);
                assert(self@.snake =~= old(self)@.slid().snake);
            }
        }
    }

    /// Number of columns of the board.
    pub fn width(&self) -> (r: i32)
        ensures
            r == self@.width,
    {
        self.width
    }

    /// Number of rows of the board.
    pub fn height(&self) -> (r: i32)
        ensures
            r == self@.height,
    {
        self.height
    }

    /// How often the snake has reached the food.
    pub fn score(&self) -> (r: u32)
        ensures
            r == self@.score,
    {
        self.score
    }

    /// Whether the game has ended.
    pub fn is_over(&self) -> (r: bool)
        ensures
            r == self@.game_over,
    {
        self.game_over
    }

    /// The cell that holds the food.
    pub fn food(&self) -> (r: Position)
        ensures
            r == self@.food,
    {
        self.food
    }

    /// The current heading.
    pub fn direction(&self) -> (r: Direction)
        ensures
            r == self@.direction,
    {
        self.direction
    }

    /// Number of segments of the snake.
    pub fn length(&self) -> (r: usize)
        ensures
            r == self@.snake.len(),
    {
        self.snake.len()
    }

    /// The cell of the snake's head.
    pub fn head(&self) -> (r: Position)
        requires
            self@.snake.len() >= 1,
        ensures
            r == self@.head(),
    {
        self.snake[0]
    }

    /// The cells of the snake, head first.
    pub fn snake(&self) -> (cells: Vec<Position>)
        ensures
            cells@ == self@.snake,
    {
        let n: usize = self.snake.len();
        let mut cells: Vec<Position> = Vec::new();
        let mut i: usize = 0;
        while i < n
            invariant
                n == self.snake@.len(),
                i <= n,
                cells@ == self.snake@.take(i as int),
            decreases n - i,
        {
            cells.push(self.snake[i]);
            i += 1;
            assert(cells@ =~= self.snake@.take(i as int));
        }
        assert(self.snake@.take(n as int) =~= self.snake@);
        cells
    }

    /// Returns whether a segment of the snake lies on `p`.
    pub fn occupies(&self, p: Position) -> (r: bool)
        ensures
            r == self@.occupied(p),
    {
        let n: usize = self.snake.len();
        let mut i: usize = 0;
        while i < n
            invariant
                n == self.snake@.len(),
                i <= n,
                forall|j: int| 0 <= j < i ==> self.snake@[j] != p,
            decreases n - i,
        {
            if self.snake[i] == p {
                return true;
            }
            i += 1;
        }
        false
    }

    /// Lays the food on `cell` if that is a free cell of the board, and says
    /// whether it did. Otherwise nothing changes.
    pub fn place_food(&mut self, cell: Position) -> (placed: bool)
        ensures
            placed == old(self)@.free(cell),
            placed ==> final(self)@ == (State { food: cell, ..old(self)@ }),
            !placed ==> final(self)@ == old(self)@,
            old(self)@.inv() ==> final(self)@.inv(),
    {
        if cell.is_within(self.width, self.height) && !self.occupies(cell) {
            self.food = cell;
            true
        } else {
            false
        }
    }

    /// Searches the board row by row for a cell that the snake does not cover.
    fn find_free_cell(&self) -> (r: Option<Position>)
        requires
            0 <= self@.width,
            0 <= self@.height,
        ensures
            match r {
                Some(p) => self@.free(p),
                None => !self@.has_free_cell(),
            },
    {
        let mut y: i32 = 0;
        while y < self.height
            invariant
                0 <= y <= self.height,
                0 <= self.width,
                forall|p: Position| p.within(self.width as int, y as int) ==> self@.occupied(p),
            decreases self.height - y,
        {
            let mut x: i32 = 0;
            while x < self.width
                invariant
                    0 <= x <= self.width,
                    0 <= y < self.height,
                    forall|p: Position| p.within(self.width as int, y as int) ==> self@.occupied(p),
                    forall|p: Position| p.y == y && 0 <= p.x < x ==> self@.occupied(p),
                decreases self.width - x,
            {
                let p = Position { x, y };
                if !self.occupies(p) {
                    return Some(p);
                }
                x += 1;
            }
            y += 1;
        }
        None
    }

    /// Lays new food on a free cell of the board: cells are drawn at random
    /// until one is free, and after [`FOOD_DRAWS`] draws the board is searched.
    /// On a board that the snake fills the game ends instead.
    pub fn generate_food(&mut self)
        requires
            old(self)@.snake_valid(),
        ensures
            final(self)@ == old(self)@.refilled(final(self)@.food),
            old(self)@.has_room() ==> final(self)@.free(final(self)@.food),
            old(self)@.has_room() <==> old(self)@.has_free_cell(),
            old(self)@.on_board(old(self)@.food) ==> final(self)@.inv(),
    {
        proof {
            lemma_free_cell_iff_room(self@);
        }
        let mut rng = rand::thread_rng();
        let mut draws: u32 = 0;
        while draws < FOOD_DRAWS
            invariant
                self@ == old(self)@,
                self@.snake_valid(),
                self@.has_room() <==> self@.has_free_cell(),
            decreases FOOD_DRAWS - draws,
        {
            let x: i32 = draw_below(&mut rng, self.width);
            let y: i32 = draw_below(&mut rng, self.height);
            if self.place_food(Position { x, y }) {
                return;
            }
            draws += 1;
        }
        match self.find_free_cell() {
            Some(p) => {
                self.food = p;
            },
            None => {
                self.game_over = true;
            },
        }
    }
}

} // verus!
