//! An earlier formulation of the signal-propagation rule.
use vstd::prelude::*;

use crate::cell_state::occurrences_of;
use crate::cell_state::lemma_occurrences_extend;
use crate::cell_state::lemma_occurrences_permutation;
use crate::cell_state::CellState;

verus! {

/// Wireworld is a cellular automaton that simulates electronic devices and
/// logic gates by having cells represent electrons traveling across
/// conductors. Wireworld uses three possible cell states and has the
/// following rules:
///
/// - Electron heads (`ElectronHead`) become electron tails in the succeeding
///   generation.
/// - Electron tails (`ElectronTail`) become conductors.
/// - Conductors (`Conductor`) become electron heads if exactly one or two
///   neighboring cells are electron heads. Otherwise, they remain as
///   conductors.
#[derive(Copy, Clone, Debug, Eq, PartialEq, Structural)]
pub enum WorldWireCellState {
    /// Conductor cell state
    Conductor,
    /// Electron head cell state
    ElectronHead,
    /// Electron tail cell state
    ElectronTail,
}

impl WorldWireCellState {
    /// How many of `neighbors` are electron heads.
    pub open spec fn spec_head_count(neighbors: Seq<WorldWireCellState>) -> nat {
        occurrences_of(neighbors, WorldWireCellState::ElectronHead)
    }
}

impl CellState for WorldWireCellState {
    /// A head decays to a tail and a tail to a conductor, whatever the
    /// neighbors hold; a conductor ignites to a head exactly when one or two
    /// neighbors are heads.
    open spec fn spec_new_state(&self, neighbors: Seq<Self>) -> Self {
        match *self {
            WorldWireCellState::Conductor => {
                let heads = Self::spec_head_count(neighbors);
                if heads == 1 || heads == 2 {
                    WorldWireCellState::ElectronHead
                } else {
                    WorldWireCellState::Conductor
                }
            },
            WorldWireCellState::ElectronHead => WorldWireCellState::ElectronTail,
            WorldWireCellState::ElectronTail => WorldWireCellState::Conductor,
        }
    }

    fn new_cell_state(&self, neighbor_cells: &Vec<Self>) -> Self {
        match *self {
            WorldWireCellState::Conductor => {
                let mut electron_head_count: usize = 0;
                let mut i: usize = 0;
                while i < neighbor_cells.len()
                    invariant
                        i <= neighbor_cells@.len(),
                        electron_head_count <= i,
                        electron_head_count == Self::spec_head_count(
                            neighbor_cells@.take(i as int),
                        ),
                    decreases neighbor_cells@.len() - i,
                {
                    proof {
                        lemma_occurrences_extend(
                            neighbor_cells@,
                            WorldWireCellState::ElectronHead,
                            i as int,
                        );
                    }
                    if neighbor_cells[i].state_eq(&WorldWireCellState::ElectronHead) {
                        electron_head_count = electron_head_count + 1;
                    }
                    i = i + 1;
                }
                proof {
                    assert(neighbor_cells@.take(neighbor_cells@.len() as int) =~= neighbor_cells@);
                }
                if electron_head_count == 1 || electron_head_count == 2 {
                    WorldWireCellState::ElectronHead
                } else {
                    WorldWireCellState::Conductor
                }
            },
            WorldWireCellState::ElectronHead => WorldWireCellState::ElectronTail,
            WorldWireCellState::ElectronTail => WorldWireCellState::Conductor,
        }
    }

    fn state_eq(&self, other: &Self) -> bool {
        match (self, other) {
            (WorldWireCellState::Conductor, WorldWireCellState::Conductor) => true,
            (WorldWireCellState::ElectronHead, WorldWireCellState::ElectronHead) => true,
            (WorldWireCellState::ElectronTail, WorldWireCellState::ElectronTail) => true,
            _ => false,
        }
    }

    fn state_clone(&self) -> Self {
        match *self {
            WorldWireCellState::Conductor => WorldWireCellState::Conductor,
            WorldWireCellState::ElectronHead => WorldWireCellState::ElectronHead,
            WorldWireCellState::ElectronTail => WorldWireCellState::ElectronTail,
        }
    }

    proof fn new_state_order_independent(&self, a: Seq<Self>, b: Seq<Self>) {
        lemma_occurrences_permutation(a, b, WorldWireCellState::ElectronHead);
    }
}

impl Default for WorldWireCellState {
    /// A conductor.
    fn default() -> (r: Self)
        ensures
            r == WorldWireCellState::Conductor,
    {
        WorldWireCellState::Conductor
    }
}

} // verus!
