//! Conway's Game of Life: the evolution engine, the mapping between grid cells
//! and pixels, and the run/pause/exit clock of the simulation.

pub mod geometry;
pub mod utils;
pub mod game;
pub mod events;
