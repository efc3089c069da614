//! Reversible command engine and combat resolution for turn-based tactical
//! combat on a hexagonal grid.
//!
//! Figures live in a [`scenario::world::World`]; every change to it is a
//! [`scenario::command::ScenarioCommand`] that the
//! [`scenario::command::ScenarioCommandQueue`] executes, records and can undo.

pub mod figure;
pub mod scenario;
