//! Core logic of a grid "Snake" game: a body of cells that moves one cell per
//! tick, grows when its head reaches the food cell, and rejects direction
//! reversals. Rendering, windowing and the random source are collaborators at
//! the edge; the simulation itself is verified.

pub mod direction;
pub mod grid;
pub mod snake;
pub mod food;
pub mod game;
