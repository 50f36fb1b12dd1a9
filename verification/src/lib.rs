//! Core of a grid-based snake game: a bounded grid of character cells, a
//! snake whose head moves one clamped unit step per tick, food placed by a
//! pseudo-random generator, growth and scoring on consumption, and a render
//! step that turns the state into a list of draw calls for the host display.

pub mod game;
pub mod pos;
pub mod render;
pub mod rng;

pub use pos::{add1, safe_add, sub1};
