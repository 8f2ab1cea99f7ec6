//! Cells of the board and the four headings.

use vstd::prelude::*;

verus! {

/// A cell of the grid. The origin is the top-left corner and `y` grows downward.
#[derive(Clone, Copy, Debug, PartialEq, Eq, Structural)]
pub struct Position {
    pub x: i32,
    pub y: i32,
}

/// A heading of the snake.
#[derive(Clone, Copy, Debug, PartialEq, Eq, Structural)]
pub enum Direction {
    Up,
    Down,
    Left,
    Right,
}

impl Direction {
    /// The heading that points the other way.
    pub open spec fn reversed(self) -> Direction {
        match self {
            Direction::Up => Direction::Down,
            Direction::Down => Direction::Up,
            Direction::Left => Direction::Right,
            Direction::Right => Direction::Left,
        }
    }

    /// Returns the opposite heading.
    pub fn opposite(self) -> (r: Direction)
        ensures
            r == self.reversed(),
    {
        match self {
            Direction::Up => Direction::Down,
            Direction::Down => Direction::Up,
            Direction::Left => Direction::Right,
            Direction::Right => Direction::Left,
        }
    }
}

impl Position {
    /// The cell reached from this one by `steps` steps with heading `d`.
    pub open spec fn shifted(self, d: Direction, steps: int) -> Position {
        match d {
            Direction::Up => Position { x: self.x, y: (self.y - steps) as i32 },
            Direction::Down => Position { x: self.x, y: (self.y + steps) as i32 },
            Direction::Left => Position { x: (self.x - steps) as i32, y: self.y },
            Direction::Right => Position { x: (self.x + steps) as i32, y: self.y },
        }
    }

    /// The adjacent cell in heading `d`.
    pub open spec fn neighbor(self, d: Direction) -> Position {
        self.shifted(d, 1)
    }

    /// Whether this cell lies on a board of the given size.
    pub open spec fn within(self, width: int, height: int) -> bool {
        0 <= self.x < width && 0 <= self.y < height
    }

    /// Returns the adjacent cell in heading `d`.
    pub fn step(self, d: Direction) -> (r: Position)
        requires
            i32::MIN < self.x < i32::MAX,
            i32::MIN < self.y < i32::MAX,
        ensures
            r == self.neighbor(d),
    {
        match d {
            Direction::Up => Position { x: self.x, y: self.y - 1 },
            Direction::Down => Position { x: self.x, y: self.y + 1 },
            Direction::Left => Position { x: self.x - 1, y: self.y },
            Direction::Right => Position { x: self.x + 1, y: self.y },
        }
    }

    /// Returns whether this cell lies on a board of the given size.
    pub fn is_within(self, width: i32, height: i32) -> (r: bool)
        ensures
            r == self.within(width as int, height as int),
    {
        0 <= self.x && self.x < width && 0 <= self.y && self.y < height
    }
}

} // verus!
