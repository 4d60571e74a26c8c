//! The immigration variation: two competing live colors.
use vstd::prelude::*;

use crate::cell_state::occurrences_of;
use crate::cell_state::lemma_occurrences_extend;
use crate::cell_state::lemma_occurrences_permutation;
use crate::cell_state::CellState;

verus! {

/// Classic cellular automaton state and rules following Conway's game of life
/// variation: The immigration game.
///
/// - Any live cell with fewer than two live neighbours dies, as if by
///   underpopulation.
/// - Any live cell with two or three live neighbours lives on to the next
///   generation.
/// - Any live cell with more than three live neighbours dies, as if by
///   overpopulation.
/// - Any dead cell with exactly three live neighbours becomes a live cell, as
///   if by reproduction and takes the state of the majority of the live
///   neighbors.
#[derive(Debug, Copy, Clone, Eq, PartialEq, Structural)]
pub enum ImmigrationCellState {
    /// A dead cell
    Dead,
    /// Alive cell with a boolean sub-state
    Alive(bool),
}

impl ImmigrationCellState {
    /// How many of `neighbors` are alive with sub-state `value`.
    pub open spec fn spec_alive_count_of(
        neighbors: Seq<ImmigrationCellState>,
        value: bool,
    ) -> nat {
        occurrences_of(neighbors, ImmigrationCellState::Alive(value))
    }

    /// Is the cell considered alive
    pub fn is_alive(&self) -> (r: bool)
        ensures
            r == (*self is Alive),
    {
        match self {
            ImmigrationCellState::Alive(_) => true,
            ImmigrationCellState::Dead => false,
        }
    }
}

impl CellState for ImmigrationCellState {
    /// A live cell survives with two or three live neighbors; a dead cell
    /// with exactly three live neighbors comes alive with the sub-state the
    /// strict majority of them holds; every other cell is dead next tick.
    open spec fn spec_new_state(&self, neighbors: Seq<Self>) -> Self {
        let a = Self::spec_alive_count_of(neighbors, true);
        let b = Self::spec_alive_count_of(neighbors, false);
        let alive_count = a + b;
        if (*self is Alive) && (alive_count == 2 || alive_count == 3) {
            *self
        } else if (*self is Dead) && alive_count == 3 {
            ImmigrationCellState::Alive(a > b)
        } else {
            ImmigrationCellState::Dead
        }
    }

    fn new_cell_state(&self, neighbor_cells: &Vec<Self>) -> Self {
        let mut a: usize = 0;
        let mut b: usize = 0;
        let mut i: usize = 0;
        while i < neighbor_cells.len()
            invariant
                i <= neighbor_cells@.len(),
                a + b <= i,
                a == Self::spec_alive_count_of(neighbor_cells@.take(i as int), true),
                b == Self::spec_alive_count_of(neighbor_cells@.take(i as int), false),
            decreases neighbor_cells@.len() - i,
        {
            proof {
                lemma_occurrences_extend(
                    neighbor_cells@,
                    ImmigrationCellState::Alive(true),
                    i as int,
                );
                lemma_occurrences_extend(
                    neighbor_cells@,
                    ImmigrationCellState::Alive(false),
                    i as int,
                );
            }
            match neighbor_cells[i] {
                ImmigrationCellState::Dead => {},
                ImmigrationCellState::Alive(s) => {
                    if s {
                        a = a + 1;
                    } else {
                        b = b + 1;
                    }
                },
            }
            i = i + 1;
        }
        proof {
            assert(neighbor_cells@.take(neighbor_cells@.len() as int) =~= neighbor_cells@);
        }
        let alive_cells_count = a + b;
        match *self {
            ImmigrationCellState::Alive(_) => {
                if alive_cells_count == 2 || alive_cells_count == 3 {
                    *self
                } else {
                    ImmigrationCellState::Dead
                }
            },
            ImmigrationCellState::Dead => {
                if alive_cells_count == 3 {
                    ImmigrationCellState::Alive(a > b)
                } else {
                    ImmigrationCellState::Dead
                }
            },
        }
    }

    fn state_eq(&self, other: &Self) -> bool {
        match (self, other) {
            (ImmigrationCellState::Dead, ImmigrationCellState::Dead) => true,
            (ImmigrationCellState::Alive(x), ImmigrationCellState::Alive(y)) => *x == *y,
            _ => false,
        }
    }

    fn state_clone(&self) -> Self {
        match *self {
            ImmigrationCellState::Dead => ImmigrationCellState::Dead,
            ImmigrationCellState::Alive(s) => ImmigrationCellState::Alive(s),
        }
    }

    proof fn new_state_order_independent(&self, a: Seq<Self>, b: Seq<Self>) {
        lemma_occurrences_permutation(a, b, ImmigrationCellState::Alive(true));
        lemma_occurrences_permutation(a, b, ImmigrationCellState::Alive(false));
    }
}

impl Default for ImmigrationCellState {
    /// A dead cell.
    fn default() -> (r: Self)
        ensures
            r == ImmigrationCellState::Dead,
    {
        ImmigrationCellState::Dead
    }
}

} // verus!
