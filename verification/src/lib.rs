//! Rules engine for a grid-based tank battle: the board, its players and the
//! resolution of one action at a time.

pub mod board;
