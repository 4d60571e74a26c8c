//! Marker wrapping the initial state of a newly spawned cell.
use vstd::prelude::*;

use crate::cell_state::CellState;
use crate::cell_state::ClassicCellState;
use crate::cell_state::WorldWireCellState;

verus! {

/// The initial state a newly spawned cell starts with.
#[derive(Debug)]
pub struct NewState<T: CellState>(pub T);

/// A new classic life state.
pub type NewClassicCellState = NewState<ClassicCellState>;

/// A new signal-propagation state.
pub type NewWireWorldCellState = NewState<WorldWireCellState>;

impl NewState<ClassicCellState> {
    /// Wraps a live (`true`) or dead (`false`) initial state.
    pub fn new(value: bool) -> (r: Self)
        ensures
            r.0 == ClassicCellState(value),
    {
        NewState(ClassicCellState(value))
    }
}

impl NewState<WorldWireCellState> {
    /// Wraps an initial signal-propagation state.
    pub fn new(state: WorldWireCellState) -> (r: Self)
        ensures
            r.0 == state,
    {
        NewState(state)
    }
}

} // verus!
