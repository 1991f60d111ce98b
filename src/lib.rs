//! Simulation core of a grid-based snake game: a snake that moves one cell per
//! tick, collides with the walls and with itself, eats food placed on free
//! cells, grows by the cell its tail left behind, and starts over after a loss.

pub mod direction;
pub mod food;
pub mod game;
pub mod grid;
pub mod snake;
