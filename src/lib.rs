//! Game-state engine of a falling-block puzzle: pieces, collision rules,
//! locking, line clearing, scoring and the timed input gates.

pub mod piece;
pub mod board;
pub mod game;
pub mod laws;
