//! What the player can ask for, and how often the game is advanced.

use vstd::prelude::*;
use crate::game::Game;
use crate::grid::Direction;
use crate::state::State;

verus! {

/// Time between two ticks, in milliseconds.
pub const TICK_MILLIS: u64 = 100;

/// How long one wait for a key may take, in milliseconds.
pub const POLL_MILLIS: u64 = 10;

/// The character that ends the game at once.
pub const QUIT_KEY: char = 'q';

/// A key as the game sees it.
#[derive(Clone, Copy, Debug, PartialEq, Eq, Structural)]
pub enum Key {
    Up,
    Down,
    Left,
    Right,
    Char(char),
    Other,
}

impl Key {
    /// The heading that an arrow key asks for.
    pub open spec fn heading(self) -> Option<Direction> {
        match self {
            Key::Up => Some(Direction::Up),
            Key::Down => Some(Direction::Down),
            Key::Left => Some(Direction::Left),
            Key::Right => Some(Direction::Right),
            _ => None,
        }
    }

    /// Whether this key ends the game at once.
    pub open spec fn quits(self) -> bool {
        self == Key::Char(QUIT_KEY)
    }
}

impl State {
    /// The state after a key: an arrow key asks for its heading, and no other
    /// key changes anything.
    pub open spec fn after_key(self, key: Key) -> State {
        match key.heading() {
            Some(d) => self.turned(d),
            None => self,
        }
    }
}

impl Game {
    /// Handles a key and says whether the player asked to quit. An arrow key
    /// asks for its heading; the quit key and all others leave the game as it is.
    pub fn press(&mut self, key: Key) -> (quit: bool)
        ensures
            quit == key.quits(),
            final(self)@ == old(self)@.after_key(key),
            old(self)@.inv() ==> final(self)@.inv(),
    {
        match key {
            Key::Up => {
                self.change_direction(Direction::Up);
                false
            },
            Key::Down => {
                self.change_direction(Direction::Down);
                false
            },
            Key::Left => {
                self.change_direction(Direction::Left);
                false
            },
            Key::Right => {
                self.change_direction(Direction::Right);
                false
            },
            Key::Char(c) => c == QUIT_KEY,
            Key::Other => false,
        }
    }
}

} // verus!
