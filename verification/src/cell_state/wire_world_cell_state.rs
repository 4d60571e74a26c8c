//! The signal-propagation rule simulating electrons on conductors.
use vstd::prelude::*;

use crate::cell_state::occurrences_of;
use crate::cell_state::lemma_occurrences_extend;
use crate::cell_state::lemma_occurrences_permutation;
use crate::cell_state::CellState;

verus! {

/// Wireworld is a cellular automaton that simulates electronic devices and
/// logic gates by having cells represent electrons traveling across conductors.
///
/// Wireworld uses three possible cell states and has the following rules:
///
/// - Electron heads (`ElectronHead`) become electron tails in the succeeding
///   generation.
/// - Electron tails (`ElectronTail`) become conductors.
/// - Conductors (`Conductor`) become electron heads if exactly one or two
///   neighboring cells are electron heads. Otherwise, they remain as
///   conductors.
#[derive(Copy, Clone, Debug, Eq, PartialEq, Structural)]
pub enum WireWorldCellState {
    /// Conductor cell state
    Conductor,
    /// Electron head cell state
    ElectronHead,
    /// Electron tail cell state
    ElectronTail,
}

impl WireWorldCellState {
    /// How many of `neighbors` are electron heads.
    pub open spec fn spec_head_count(neighbors: Seq<WireWorldCellState>) -> nat {
        occurrences_of(neighbors, WireWorldCellState::ElectronHead)
    }
}

impl CellState for WireWorldCellState {
    /// A head decays to a tail and a tail to a conductor, whatever the
    /// neighbors hold; a conductor ignites to a head exactly when one or two
    /// neighbors are heads.
    open spec fn spec_new_state(&self, neighbors: Seq<Self>) -> Self {
        match *self {
            WireWorldCellState::Conductor => {
                let heads = Self::spec_head_count(neighbors);
                if heads == 1 || heads == 2 {
                    WireWorldCellState::ElectronHead
                } else {
                    WireWorldCellState::Conductor
                }
            },
            WireWorldCellState::ElectronHead => WireWorldCellState::ElectronTail,
            WireWorldCellState::ElectronTail => WireWorldCellState::Conductor,
        }
    }

    fn new_cell_state(&self, neighbor_cells: &Vec<Self>) -> Self {
        match *self {
            WireWorldCellState::Conductor => {
                let mut electron_head_count: usize = 0;
                let mut i: usize = 0;
                while i < neighbor_cells.len()
                    invariant
                        i <= neighbor_cells@.len(),
                        electron_head_count <= i,
                        electron_head_count == Self::spec_head_count(
                            neighbor_cells@.take(i as int),
                        ),
                    decreases neighbor_cells@.len() - i,
                {
                    proof {
                        lemma_occurrences_extend(
                            neighbor_cells@,
                            WireWorldCellState::ElectronHead,
                            i as int,
                        );
                    }
                    if neighbor_cells[i].state_eq(&WireWorldCellState::ElectronHead) {
                        electron_head_count = electron_head_count + 1;
                    }
                    i = i + 1;
                }
                proof {
                    assert(neighbor_cells@.take(neighbor_cells@.len() as int) =~= neighbor_cells@);
                }
                if electron_head_count == 1 || electron_head_count == 2 {
                    WireWorldCellState::ElectronHead
                } else {
                    WireWorldCellState::Conductor
                }
            },
            WireWorldCellState::ElectronHead => WireWorldCellState::ElectronTail,
            WireWorldCellState::ElectronTail => WireWorldCellState::Conductor,
        }
    }

    fn state_eq(&self, other: &Self) -> bool {
        match (self, other) {
            (WireWorldCellState::Conductor, WireWorldCellState::Conductor) => true,
            (WireWorldCellState::ElectronHead, WireWorldCellState::ElectronHead) => true,
            (WireWorldCellState::ElectronTail, WireWorldCellState::ElectronTail) => true,
            _ => false,
        }
    }

    fn state_clone(&self) -> Self {
        match *self {
            WireWorldCellState::Conductor => WireWorldCellState::Conductor,
            WireWorldCellState::ElectronHead => WireWorldCellState::ElectronHead,
            WireWorldCellState::ElectronTail => WireWorldCellState::ElectronTail,
        }
    }

    proof fn new_state_order_independent(&self, a: Seq<Self>, b: Seq<Self>) {
        lemma_occurrences_permutation(a, b, WireWorldCellState::ElectronHead);
    }
}

impl Default for WireWorldCellState {
    /// A conductor.
    fn default() -> (r: Self)
        ensures
            r == WireWorldCellState::Conductor,
    {
        WireWorldCellState::Conductor
    }
}

} // verus!
