//! The 4555 life rule for 3D worlds.
use vstd::prelude::*;

use crate::cell_state::occurrences_of;
use crate::cell_state::lemma_occurrences_extend;
use crate::cell_state::lemma_occurrences_permutation;
use crate::cell_state::CellState;

verus! {

/// Classic cellular automaton state and rules following Conway's game of life
/// **4555** rules:
///
/// - Any live cell with fewer than four live neighbours dies, as if by
///   underpopulation.
/// - Any live cell with four or five live neighbours lives on to the next
///   generation.
/// - Any live cell with more than five live neighbours dies, as if by
///   overpopulation.
/// - Any dead cell with exactly five live neighbours becomes a live cell, as
///   if by reproduction.
///
/// A dead cell is `false`, a live cell is `true`
#[derive(Debug, Copy, Clone, Eq, PartialEq, Structural)]
pub struct ConwayCell4555State(pub bool);

impl ConwayCell4555State {
    /// How many of `neighbors` are alive.
    pub open spec fn spec_alive_count(neighbors: Seq<ConwayCell4555State>) -> nat {
        occurrences_of(neighbors, ConwayCell4555State(true))
    }
}

impl CellState for ConwayCell4555State {
    /// A live cell stays alive with four or five live neighbors; a dead cell
    /// comes alive with exactly five.
    open spec fn spec_new_state(&self, neighbors: Seq<Self>) -> Self {
        let alive = Self::spec_alive_count(neighbors);
        ConwayCell4555State((self.0 && (alive == 4 || alive == 5)) || (!self.0 && alive == 5))
    }

    fn new_cell_state(&self, neighbor_cells: &Vec<Self>) -> Self {
        let mut alive_cells_count: usize = 0;
        let mut i: usize = 0;
        while i < neighbor_cells.len()
            invariant
                i <= neighbor_cells@.len(),
                alive_cells_count <= i,
                alive_cells_count == Self::spec_alive_count(neighbor_cells@.take(i as int)),
            decreases neighbor_cells@.len() - i,
        {
            proof {
                lemma_occurrences_extend(neighbor_cells@, ConwayCell4555State(true), i as int);
            }
            if neighbor_cells[i].0 {
                alive_cells_count = alive_cells_count + 1;
            }
            i = i + 1;
        }
        proof {
            assert(neighbor_cells@.take(neighbor_cells@.len() as int) =~= neighbor_cells@);
        }
        let alive = (self.0 && (alive_cells_count == 4 || alive_cells_count == 5)) || (!self.0
            && alive_cells_count == 5);
        ConwayCell4555State(alive)
    }

    fn state_eq(&self, other: &Self) -> bool {
        self.0 == other.0
    }

    fn state_clone(&self) -> Self {
        ConwayCell4555State(self.0)
    }

    proof fn new_state_order_independent(&self, a: Seq<Self>, b: Seq<Self>) {
        lemma_occurrences_permutation(a, b, ConwayCell4555State(true));
    }
}

impl Default for ConwayCell4555State {
    /// A dead cell.
    fn default() -> (r: Self)
        ensures
            r == ConwayCell4555State(false),
    {
        ConwayCell4555State(false)
    }
}

impl From<bool> for ConwayCell4555State {
    fn from(val: bool) -> Self {
        ConwayCell4555State(val)
    }
}

impl vstd::std_specs::convert::FromSpecImpl<bool> for ConwayCell4555State {
    open spec fn obeys_from_spec() -> bool {
        true
    }

    open spec fn from_spec(val: bool) -> Self {
        ConwayCell4555State(val)
    }
}

} // verus!
