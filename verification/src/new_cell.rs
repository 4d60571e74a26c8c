//! Marker wrapping a cell that entered the simulation since the last
//! registration pass.
use vstd::prelude::*;

use crate::cell::Cell;
use crate::cell::Cell2d;
use crate::cell::Cell3d;
use crate::coordinates::IVec2;
use crate::coordinates::IVec3;

verus! {

/// A newly spawned cell, waiting to be registered into the spatial index.
#[derive(Debug)]
pub struct NewCell<T: Cell>(pub T);

/// A newly spawned classic 2D cell.
pub type NewCell2d = NewCell<Cell2d>;

/// A newly spawned classic 3D cell.
pub type NewCell3d = NewCell<Cell3d>;

impl NewCell<Cell2d> {
    /// Marks a new cell at `coords`.
    pub fn new(coords: IVec2) -> (r: Self)
        ensures
            r.0 == (Cell2d { coords }),
    {
        NewCell(Cell2d { coords })
    }
}

impl NewCell<Cell3d> {
    /// Marks a new cell at `coords`.
    pub fn new(coords: IVec3) -> (r: Self)
        ensures
            r.0 == (Cell3d { coords }),
    {
        NewCell(Cell3d { coords })
    }
}

} // verus!
