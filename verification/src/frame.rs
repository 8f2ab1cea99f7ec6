//! What a game looks like: one tile for each cell of the board.

use vstd::prelude::*;
use crate::game::Game;
use crate::grid::Position;
use crate::state::State;

verus! {

/// What a cell of the board shows.
#[derive(Clone, Copy, Debug, PartialEq, Eq, Structural)]
pub enum Tile {
    Snake,
    Food,
    Empty,
}

impl Tile {
    /// The character that stands for this tile.
    pub open spec fn symbol(self) -> char {
        match self {
            Tile::Snake => '█',
            Tile::Food => '●',
            Tile::Empty => '·',
        }
    }

    /// Returns the character that stands for this tile.
    pub fn glyph(self) -> (c: char)
        ensures
            c == self.symbol(),
    {
        match self {
            Tile::Snake => '█',
            Tile::Food => '●',
            Tile::Empty => '·',
        }
    }
}

/// No two tiles share a character.
pub proof fn lemma_symbols_differ(a: Tile, b: Tile)
    ensures
        a.symbol() == b.symbol() <==> a == b,
{
}

impl State {
    /// What the cell `p` shows: the snake where it lies, else the food, else nothing.
    pub open spec fn tile(self, p: Position) -> Tile {
        if self.occupied(p) {
            Tile::Snake
        } else if p == self.food {
            Tile::Food
        } else {
            Tile::Empty
        }
    }
}

impl Game {
    /// Returns what the cell `p` shows.
    pub fn tile_at(&self, p: Position) -> (t: Tile)
        ensures
            t == self@.tile(p),
    {
        if self.occupies(p) {
            Tile::Snake
        } else if p == self.food() {
            Tile::Food
        } else {
            Tile::Empty
        }
    }

    /// Returns the board as rows of tiles, top row first, each row from left to right.
    pub fn render(&self) -> (rows: Vec<Vec<Tile>>)
        requires
            self@.inv(),
        ensures
            rows@.len() == self@.height,
            forall|y: int| 0 <= y < self@.height ==> (#[trigger] rows@[y])@.len() == self@.width,
            forall|x: int, y: int|
                0 <= x < self@.width && 0 <= y < self@.height ==> #[trigger] rows@[y]@[x]
                    == self@.tile(Position { x: x as i32, y: y as i32 }),
    {
        let width: i32 = self.width();
        let height: i32 = self.height();
        let mut rows: Vec<Vec<Tile>> = Vec::new();
        let mut y: i32 = 0;
        while y < height
            invariant
                width == self@.width,
                height == self@.height,
                0 <= width,
                0 <= y <= height,
                rows@.len() == y,
                forall|j: int| 0 <= j < y ==> (#[trigger] rows@[j])@.len() == width,
                forall|i: int, j: int|
                    0 <= i < width && 0 <= j < y ==> #[trigger] rows@[j]@[i] == self@.tile(
                        Position { x: i as i32, y: j as i32 },
                    ),
            decreases height - y,
        {
            let mut row: Vec<Tile> = Vec::new();
            let mut x: i32 = 0;
            while x < width
                invariant
                    width == self@.width,
                    0 <= x <= width,
                    0 <= y,
                    row@.len() == x,
                    forall|i: int|
                        0 <= i < x ==> #[trigger] row@[i] == self@.tile(
                            Position { x: i as i32, y },
                        ),
                decreases width - x,
            {
                row.push(self.tile_at(Position { x, y }));
                x += 1;
            }
            rows.push(row);
            y += 1;
        }
        rows
    }
}

} // verus!
