//! The classic two-state life rule.
use vstd::prelude::*;

use crate::cell_state::occurrences_of;
use crate::cell_state::lemma_occurrences_extend;
use crate::cell_state::lemma_occurrences_permutation;
use crate::cell_state::CellState;

verus! {

/// Classic cellular automaton state and rules following Conway's game of life
/// rules:
///
/// - Any live cell with fewer than two live neighbours dies, as if by
///   underpopulation.
/// - Any live cell with two or three live neighbours lives on to the next
///   generation.
/// - Any live cell with more than three live neighbours dies, as if by
///   overpopulation.
/// - Any dead cell with exactly three live neighbours becomes a live cell, as
///   if by reproduction.
///
/// A dead cell is `false`, a live cell is `true`
#[derive(Debug, Clone, Eq, PartialEq, Structural)]
pub struct ClassicCellState(pub bool);

impl ClassicCellState {
    /// How many of `neighbors` are alive.
    pub open spec fn spec_alive_count(neighbors: Seq<ClassicCellState>) -> nat {
        occurrences_of(neighbors, ClassicCellState(true))
    }
}

impl CellState for ClassicCellState {
    /// A live cell stays alive with two or three live neighbors; a dead cell
    /// comes alive with exactly three.
    open spec fn spec_new_state(&self, neighbors: Seq<Self>) -> Self {
        let alive = Self::spec_alive_count(neighbors);
        if self.0 {
            ClassicCellState(2 <= alive <= 3)
        } else {
            ClassicCellState(alive == 3)
        }
    }

    fn new_cell_state(&self, neighbor_cells: &Vec<Self>) -> Self {
        let mut alive_cells_count: usize = 0;
        let mut i: usize = 0;
        while i < neighbor_cells.len()
            invariant
                i <= neighbor_cells@.len(),
                alive_cells_count <= i,
                alive_cells_count == Self::spec_alive_count(neighbor_cells@.take(i as int)),
            decreases neighbor_cells@.len() - i,
        {
            proof {
                lemma_occurrences_extend(neighbor_cells@, ClassicCellState(true), i as int);
            }
            if neighbor_cells[i].0 {
                alive_cells_count = alive_cells_count + 1;
            }
            i = i + 1;
        }
        proof {
            assert(neighbor_cells@.take(neighbor_cells@.len() as int) =~= neighbor_cells@);
        }
        if self.0 {
            ClassicCellState(2 <= alive_cells_count && alive_cells_count <= 3)
        } else {
            ClassicCellState(alive_cells_count == 3)
        }
    }

    fn state_eq(&self, other: &Self) -> bool {
        self.0 == other.0
    }

    fn state_clone(&self) -> Self {
        ClassicCellState(self.0)
    }

    proof fn new_state_order_independent(&self, a: Seq<Self>, b: Seq<Self>) {
        lemma_occurrences_permutation(a, b, ClassicCellState(true));
    }
}

impl Default for ClassicCellState {
    /// A dead cell.
    fn default() -> (r: Self)
        ensures
            r == ClassicCellState(false),
    {
        ClassicCellState(false)
    }
}

impl From<bool> for ClassicCellState {
    fn from(val: bool) -> Self {
        ClassicCellState(val)
    }
}

impl vstd::std_specs::convert::FromSpecImpl<bool> for ClassicCellState {
    open spec fn obeys_from_spec() -> bool {
        true
    }

    open spec fn from_spec(val: bool) -> Self {
        ClassicCellState(val)
    }
}

} // verus!
