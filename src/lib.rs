//! The simulation core of a grid-based Snake game: geometry, the game state
//! and its tick update, and the decisions of the fixed-timestep game loop.

pub mod config;
pub mod driver;
pub mod game;
pub mod geometry;
pub mod lemmas;
