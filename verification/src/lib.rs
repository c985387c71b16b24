//! A grid-based snake game: the simulation core.
//!
//! The crate holds the rules of the game and nothing that touches a window:
//! grid cells and rectangles, the snake with its lazy growth, and the game
//! that drives timed movement, food and the game-over cycle. A front end
//! feeds it elapsed time and key presses and paints the shapes it lists.

pub mod draw;
pub mod game;
mod random;
pub mod snake;
