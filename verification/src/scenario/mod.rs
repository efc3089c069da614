//! The scenario: the grid index, the world of figures, and the queue of
//! reversible commands that changes them.

pub mod command;
pub mod map;
pub mod replay;
pub mod world;
