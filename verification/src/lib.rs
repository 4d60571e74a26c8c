//! A generic cellular-automaton update engine.
//!
//! A simulation is a population of cells, each with a position in some
//! coordinate space and a typed state. Every tick the engine computes, for
//! each cell, a next state from the states of its neighbors under a pluggable
//! transition rule, and reports exactly the cells whose state changed.
use vstd::prelude::*;

mod cell;
mod cell_state;
mod cells;
mod coordinates;
mod map;
mod new_cell;
mod new_state;
mod rule_set;
mod simulation;

pub use cell::Cell;
pub use cell::Cell2d;
pub use cell::Cell3d;
pub use cell::HexagonCell2d;
pub use cell::MooreCell2d;
pub use cell::MooreCell3d;
pub use cell::NeumannCell2d;
pub use cell::NeumannCell3d;
pub use cell_state::lemma_contains_permutation;
pub use cell_state::lemma_occurrences_multiset;
pub use cell_state::lemma_occurrences_permutation;
pub use cell_state::lemma_rule_determinism;
pub use cell_state::occurrences_of;
pub use cell_state::CellState;
pub use cell_state::ClassicCellState;
pub use cell_state::ConwayCell4555State;
pub use cell_state::ConwayCellState;
pub use cell_state::CyclicColorCellState;
pub use cell_state::ImmigrationCellState;
pub use cell_state::WireWorldCellState;
pub use cell_state::WorldWireCellState;
pub use cell_state::CYCLIC_COLOR_COUNT;
pub use cells::all_in_range;
pub use cells::apply_changes;
pub use cells::changes_in_range;
pub use cells::deregister_ops;
pub use cells::distinct_coords;
pub use cells::distinct_entities;
pub use cells::entity_state_at;
pub use cells::gather_neighbor_states;
pub use cells::handle_cell;
pub use cells::handle_cells;
pub use cells::handle_cells_indexed;
pub use cells::handle_new_cells;
pub use cells::handle_removed_cells;
pub use cells::index_consistent_with;
pub use cells::last_change;
pub use cells::lemma_changeset_records_changes;
pub use cells::lemma_no_op_suppression;
pub use cells::lemma_pause_idempotence;
pub use cells::lemma_registration_establishes_consistency;
pub use cells::population_cells;
pub use cells::register_ops;
pub use cells::snapshot_at;
pub use cells::spec_apply_changes;
pub use cells::spec_changeset;
pub use cells::spec_displacements;
pub use cells::spec_next_state;
pub use cells::spec_run;
pub use cells::spec_step;
pub use cells::step;
pub use cells::CellRecord;
pub use coordinates::IVec2;
pub use coordinates::IVec3;
pub use map::apply_index_ops;
pub use map::latest_occupant;
pub use map::lemma_index_consistency;
pub use map::lookup_many;
pub use map::CellMap;
pub use map::IndexOp;
pub use new_cell::NewCell;
pub use new_cell::NewCell2d;
pub use new_cell::NewCell3d;
pub use new_state::NewClassicCellState;
pub use new_state::NewState;
pub use new_state::NewWireWorldCellState;
pub use rule_set::RuleSet;
pub use simulation::SimulationBatch;
pub use simulation::SimulationPause;
pub use simulation::DEFAULT_BATCH_SIZE;

verus! {

/// Stable handle identifying a cell of the population.
#[derive(Clone, Copy, Debug, PartialEq, Eq, Structural, Hash)]
pub struct Entity(pub u64);

} // verus!
