//! The mathematical model of a game: its state and the rules that change it.

use vstd::prelude::*;
use crate::grid::{Direction, Position};

verus! {

/// Whether all of `cells` lie on a board of the given size and no two of them
/// are the same cell.
pub open spec fn distinct_on_board(cells: Seq<Position>, width: int, height: int) -> bool {
    &&& forall|i: int| 0 <= i < cells.len() ==> (#[trigger] cells[i]).within(width, height)
    &&& cells.no_duplicates()
}

/// What a game is at one moment.
pub struct State {
    /// Number of columns; the board is `[0, width) x [0, height)`.
    pub width: int,
    /// Number of rows.
    pub height: int,
    /// The snake's cells, head first.
    pub snake: Seq<Position>,
    pub food: Position,
    pub direction: Direction,
    pub score: nat,
    pub game_over: bool,
}

impl State {
    /// Number of cells of the board.
    pub open spec fn cells(self) -> int {
        self.width * self.height
    }

    pub open spec fn on_board(self, p: Position) -> bool {
        p.within(self.width, self.height)
    }

    /// Whether a segment of the snake lies on `p`.
    pub open spec fn occupied(self, p: Position) -> bool {
        self.snake.contains(p)
    }

    /// Whether `p` is a cell of the board that the snake does not cover.
    pub open spec fn free(self, p: Position) -> bool {
        self.on_board(p) && !self.occupied(p)
    }

    pub open spec fn has_free_cell(self) -> bool {
        exists|p: Position| self.free(p)
    }

    /// Whether the snake is shorter than the board has cells. For a valid
    /// snake that is to say that a cell is free.
    pub open spec fn has_room(self) -> bool {
        self.snake.len() < self.cells()
    }

    pub open spec fn head(self) -> Position {
        self.snake[0]
    }

    /// What holds of board and snake at all times: the board has at least one
    /// cell and no more than the score can count, the snake is not empty, lies
    /// on the board and crosses no cell twice, and the score is the number of
    /// segments gained.
    pub open spec fn snake_valid(self) -> bool {
        &&& 1 <= self.width <= i32::MAX
        &&& 1 <= self.height <= i32::MAX
        &&& self.cells() <= u32::MAX
        &&& self.snake.len() >= 1
        &&& distinct_on_board(self.snake, self.width, self.height)
        &&& self.score + 1 == self.snake.len()
    }

    /// The invariant of a game: board and snake are valid, the food lies on
    /// the board, and while the game runs it lies off the snake.
    pub open spec fn inv(self) -> bool {
        &&& self.snake_valid()
        &&& self.on_board(self.food)
        &&& !self.game_over ==> !self.occupied(self.food)
    }

    /// The cell in the middle of a board, rounded toward the origin.
    pub open spec fn center(width: int, height: int) -> Position {
        Position { x: (width / 2) as i32, y: (height / 2) as i32 }
    }

    /// A fresh game before its food is laid out: one segment at the center,
    /// heading right, nothing scored.
    pub open spec fn seeded(width: int, height: int) -> State {
        State {
            width,
            height,
            snake: seq![Self::center(width, height)],
            food: Position { x: 0, y: 0 },
            direction: Direction::Right,
            score: 0,
            game_over: false,
        }
    }

    /// The state after new food was asked for: it lies at `cell` where the
    /// board has room left; on a board that the snake fills the game ends.
    pub open spec fn refilled(self, cell: Position) -> State {
        if self.has_room() {
            State { food: cell, ..self }
        } else {
            State { game_over: true, ..self }
        }
    }

    /// The heading after a request for `requested`: a request to reverse is ignored.
    pub open spec fn heading_after(current: Direction, requested: Direction) -> Direction {
        if requested == current.reversed() {
            current
        } else {
            requested
        }
    }

    /// The state after a request to head in `requested`.
    pub open spec fn turned(self, requested: Direction) -> State {
        State { direction: Self::heading_after(self.direction, requested), ..self }
    }

    /// The cell that the head enters at the next tick.
    pub open spec fn next_head(self) -> Position {
        self.head().neighbor(self.direction)
    }

    /// Whether the next tick runs the head into a wall or into the snake. The
    /// tail counts as part of the snake, though it would move away.
    pub open spec fn crashes(self) -> bool {
        !self.on_board(self.next_head()) || self.occupied(self.next_head())
    }

    /// Whether the next tick takes the food.
    pub open spec fn eats(self) -> bool {
        !self.crashes() && self.next_head() == self.food
    }

    /// The snake with its head moved on and a segment gained, one more scored.
    pub open spec fn grown(self) -> State {
        State { snake: seq![self.next_head()] + self.snake, score: self.score + 1, ..self }
    }

    /// The snake moved on by one cell, its length kept.
    pub open spec fn slid(self) -> State {
        State { snake: seq![self.next_head()] + self.snake.drop_last(), ..self }
    }

    /// The state after one tick. Where the tick takes the food and the board
    /// has room left, the new food lies at `refill`; no other case reads `refill`.
    pub open spec fn tick(self, refill: Position) -> State {
        if self.game_over {
            self
        } else if self.crashes() {
            State { game_over: true, ..self }
        } else if self.eats() {
            self.grown().refilled(refill)
        } else {
            self.slid()
        }
    }
}

} // verus!
