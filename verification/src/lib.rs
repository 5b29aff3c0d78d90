//! Conway's Game of Life on a torus: a rectangular board of cells whose
//! edges wrap around, advanced one generation at a time.
//!
//! * [`utils`] holds the arithmetic that wraps an index around an edge.
//! * [`game`] holds the board, the rule of life, the game that advances the
//!   board, the text form of a pattern, and the laws proved of all of them.
//! * [`speed`] and [`widget`] hold the state behind an interactive display:
//!   how fast the game runs and what each event does to it.
//!
//! Every executable function states in its contract what it returns or
//! changes, over the mathematical model of the board in [`game::grid`].

pub mod game;
pub mod speed;
pub mod utils;
pub mod widget;
