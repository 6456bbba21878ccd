//! The rules of a grid-based snake game: the snake and its food, the collision
//! predicates, and the per-tick state machine that ties them together.

pub mod config;
pub mod entities;
pub mod game;
pub mod graphics;
pub mod grid;
pub mod physics;
