//! Verified core of an interactive Game of Life on a toroidal grid.
//!
//! The library holds the automaton itself: the grid of cells, the
//! transition rule with wraparound neighbor lookups, and the editing
//! and timing decisions driven by user input. Rendering and windowing
//! live outside the library and only read the state kept here.

pub mod cell;
pub mod game;
pub mod rules;
