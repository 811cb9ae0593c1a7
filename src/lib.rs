//! Simulation core of a grid-based snake game on a wrap-around playfield.

pub mod geometry;
pub mod snek;
pub mod haus;
pub mod game;
pub mod high_score;
