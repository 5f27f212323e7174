//! Whose turn it is to allocate, and what a run leaves to its successor.
pub mod recovery;
pub mod retained;
pub mod turns;
