//! Conway's Game of Life on a fixed-size, bounded grid.
//!
//! The grid holds one cell per position in row-major order; a generation
//! advance counts the live Moore neighbours of every cell against a single
//! snapshot of the current state and applies the standard B3/S23 rule.
//! Edges do not wrap.

pub mod cellul;
pub mod grid;
pub mod laws;
pub mod runner;
