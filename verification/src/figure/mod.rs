//! What a figure is made of: health, conditions, the modifier tray, a pending
//! attack and a place on the grid.

use vstd::prelude::*;

pub mod attack;
pub mod condition;
pub mod health;
pub mod modifier;
pub mod movement;

verus! {

/// The stable handle of one figure: its place in the world's table.
#[derive(Debug, Clone, Copy, PartialEq, Eq, Hash, Structural)]
pub struct FigureId(pub u32);

impl FigureId {
    pub fn new(id: u32) -> (figure: FigureId)
        ensures
            figure == FigureId(id),
    {
        FigureId(id)
    }

    /// The handle as a table index.
    pub open spec fn index_spec(self) -> int {
        self.0 as int
    }

    /// The handle as a table index.
    pub fn index(self) -> (index: usize)
        ensures
            index == self.index_spec(),
    {
        self.0 as usize
    }
}

} // verus!
