//! Conway's game of life rule (2333).
use vstd::prelude::*;

use crate::cell_state::occurrences_of;
use crate::cell_state::lemma_occurrences_extend;
use crate::cell_state::lemma_occurrences_permutation;
use crate::cell_state::CellState;

verus! {

/// Classic cellular automaton state and rules following Conway's game of life
/// classic **2333** rules:
///
/// - Any live cell with fewer than two live neighbours dies, as if by
///   underpopulation.
/// - Any live cell with two or three live neighbours lives on to the next
///   generation.
/// - Any live cell with more than three live neighbours dies, as if by
///   overpopulation.
/// - Any dead cell with exactly three live neighbours becomes a live cell, as
///   if by reproduction.
///
/// A dead cell is `false`, a live cell is `true`
#[derive(Debug, Copy, Clone, Eq, PartialEq, Structural)]
pub struct ConwayCellState(pub bool);

impl ConwayCellState {
    /// How many of `neighbors` are alive.
    pub open spec fn spec_alive_count(neighbors: Seq<ConwayCellState>) -> nat {
        occurrences_of(neighbors, ConwayCellState(true))
    }
}

impl CellState for ConwayCellState {
    /// A live cell stays alive with two or three live neighbors; a dead cell
    /// comes alive with exactly three.
    open spec fn spec_new_state(&self, neighbors: Seq<Self>) -> Self {
        let alive = Self::spec_alive_count(neighbors);
        ConwayCellState((self.0 && (alive == 2 || alive == 3)) || (!self.0 && alive == 3))
    }

    fn new_cell_state(&self, neighbor_cells: &Vec<Self>) -> Self {
        let mut alive_cells_count: usize = 0;
        let mut i: usize = 0;
        while i < neighbor_cells.len()
            invariant
                i <= neighbor_cells@.len(),
                alive_cells_count <= i,
                alive_cells_count == Self::spec_alive_count(neighbor_cells@.take(i as int)),
            decreases neighbor_cells@.len() - i,
        {
            proof {
                lemma_occurrences_extend(neighbor_cells@, ConwayCellState(true), i as int);
            }
            if neighbor_cells[i].0 {
                alive_cells_count = alive_cells_count + 1;
            }
            i = i + 1;
        }
        proof {
            assert(neighbor_cells@.take(neighbor_cells@.len() as int) =~= neighbor_cells@);
        }
        let alive = (self.0 && (alive_cells_count == 2 || alive_cells_count == 3)) || (!self.0
            && alive_cells_count == 3);
        ConwayCellState(alive)
    }

    fn state_eq(&self, other: &Self) -> bool {
        self.0 == other.0
    }

    fn state_clone(&self) -> Self {
        ConwayCellState(self.0)
    }

    proof fn new_state_order_independent(&self, a: Seq<Self>, b: Seq<Self>) {
        lemma_occurrences_permutation(a, b, ConwayCellState(true));
    }
}

impl Default for ConwayCellState {
    /// A dead cell.
    fn default() -> (r: Self)
        ensures
            r == ConwayCellState(false),
    {
        ConwayCellState(false)
    }
}

impl From<bool> for ConwayCellState {
    fn from(val: bool) -> Self {
        ConwayCellState(val)
    }
}

impl vstd::std_specs::convert::FromSpecImpl<bool> for ConwayCellState {
    open spec fn obeys_from_spec() -> bool {
        true
    }

    open spec fn from_spec(val: bool) -> Self {
        ConwayCellState(val)
    }
}

} // verus!
