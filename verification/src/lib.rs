//! The rules of a small Snake game on a wrapping 60 x 30 board.
//!
//! The crate holds the state of one game and every transition of it: how a
//! segment moves, how a turn of the head travels down the body, how the snake
//! grows, what a collision does, and how key presses steer it.  Each
//! transition is stated over a mathematical view of the state and proved.

pub mod board;
pub mod direction;
pub mod food;
pub mod input;
pub mod laws;
pub mod segment;
pub mod snake;
