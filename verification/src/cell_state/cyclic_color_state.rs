//! The cyclic rule over a fixed palette of nine state values.
use vstd::prelude::*;

use crate::cell_state::CellState;

verus! {

/// The number of values a cyclic cell can take.
pub const CYCLIC_COLOR_COUNT: usize = 9;

/// Basic cyclic cellular automaton state and rules. The rules are the
/// following:
///
/// > As with any cellular automaton, the cyclic cellular automaton consists of
/// > a regular grid of cells in one or more dimensions.
/// > The cells can take on any of `n` states, ranging from `0`to `n − 1`. The
/// > first generation starts out with random states in each of the cells.
/// > In each subsequent generation, if a cell has a neighboring cell whose
/// > value is the successor of the cell's value, the cell is *consumed* and
/// > takes on the succeeding value.
/// > (Note that `0` is the successor of `n − 1`.
///
/// For this type we use `9` for `n`.
#[derive(Debug, Copy, Clone, PartialEq, Eq, Structural)]
pub struct CyclicColorCellState(pub usize);

impl CyclicColorCellState {
    /// The number of values in the cycle.
    pub fn max_index() -> (r: usize)
        ensures
            r == CYCLIC_COLOR_COUNT,
    {
        CYCLIC_COLOR_COUNT
    }

    /// The state holding the successor of this cell's value: the value that
    /// consumes this cell when a neighbor holds it.
    pub open spec fn spec_successor(self) -> CyclicColorCellState {
        CyclicColorCellState((((self.0 + 1) % (CYCLIC_COLOR_COUNT as int)) as usize))
    }
}

impl CellState for CyclicColorCellState {
    /// A cell holding `v` becomes `(v + 1) % 9` exactly when some neighbor
    /// holds `(v + 1) % 9`; otherwise it is unchanged.
    open spec fn spec_new_state(&self, neighbors: Seq<Self>) -> Self {
        let next = self.spec_successor();
        if neighbors.contains(next) {
            next
        } else {
            *self
        }
    }

    fn new_cell_state(&self, neighbor_cells: &Vec<Self>) -> Self {
        proof {
            vstd::arithmetic::div_mod::lemma_add_mod_noop(
                self.0 as int,
                1,
                CYCLIC_COLOR_COUNT as int,
            );
        }
        let new_index: usize = (self.0 % CYCLIC_COLOR_COUNT + 1) % CYCLIC_COLOR_COUNT;
        let mut consumed = false;
        let mut i: usize = 0;
        while i < neighbor_cells.len()
            invariant
                i <= neighbor_cells@.len(),
                new_index == self.spec_successor().0,
                consumed <==> (exists|j: int|
                    0 <= j < i && neighbor_cells@[j] == self.spec_successor()),
            decreases neighbor_cells@.len() - i,
        {
            if neighbor_cells[i].0 == new_index {
                consumed = true;
            }
            i = i + 1;
        }
        if consumed {
            CyclicColorCellState(new_index)
        } else {
            CyclicColorCellState(self.0)
        }
    }

    fn state_eq(&self, other: &Self) -> bool {
        self.0 == other.0
    }

    fn state_clone(&self) -> Self {
        CyclicColorCellState(self.0)
    }

    proof fn new_state_order_independent(&self, a: Seq<Self>, b: Seq<Self>) {
        crate::cell_state::lemma_contains_permutation(a, b, self.spec_successor());
    }
}

impl Default for CyclicColorCellState {
    /// The first value of the cycle.
    fn default() -> (r: Self)
        ensures
            r == CyclicColorCellState(0),
    {
        CyclicColorCellState(0)
    }
}

} // verus!
