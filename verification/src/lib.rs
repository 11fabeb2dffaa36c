//! A verified tic-tac-toe core: a 3x3 board of player marks, validated
//! coordinates, turn placement, random move selection for the opponent, and
//! win detection over the eight fixed winning lines.

pub mod board;
pub mod game;
pub mod mark;
pub mod point;
mod rng;
pub mod win;
