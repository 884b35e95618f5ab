//! A snake game on a toroidal grid: the board, the snake, the food and the
//! per-tick rules, with their contracts proved.

pub mod point;
pub mod state;
pub mod random;
pub mod food;
pub mod snake;
pub mod game;
pub mod level;
