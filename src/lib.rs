//! Conway's Game of Life on a fixed, edge-bounded grid, with the interaction
//! state that governs pausing, editing and tick timing.

pub mod board;
pub mod game;
pub mod patterns;
pub mod screen;
