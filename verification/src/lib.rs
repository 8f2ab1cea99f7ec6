//! A grid-based snake game: the board, the snake, the food and the rules
//! that advance them by one tick, with every rule stated as a contract.
//!
//! [`state::State`] is the mathematical model and [`game::Game`] the game
//! that runs; [`laws`] holds what is proved of the model.

pub mod capacity;
pub mod frame;
pub mod game;
pub mod grid;
pub mod input;
pub mod laws;
pub mod random;
pub mod state;

pub use frame::Tile;
pub use game::{Game, FOOD_DRAWS};
pub use grid::{Direction, Position};
pub use input::{Key, POLL_MILLIS, QUIT_KEY, TICK_MILLIS};
