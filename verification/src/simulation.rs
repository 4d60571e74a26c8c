//! Simulation-wide switches checked by the generation update engine.
use vstd::prelude::*;

verus! {

/// Default simulation batch size
pub const DEFAULT_BATCH_SIZE: usize = 1024;

/// Switch for batched evaluation: when handed to the engine, cells are
/// evaluated in fixed-size batches whose staged changes are committed
/// together after every batch completed. The changeset is the same as in
/// direct evaluation.
#[derive(Debug, Copy, Clone)]
pub struct SimulationBatch {
    /// Batch size for batched execution
    pub batch_size: usize,
}

impl Default for SimulationBatch {
    /// Batches of [`DEFAULT_BATCH_SIZE`] cells.
    fn default() -> (r: Self)
        ensures
            r.batch_size == DEFAULT_BATCH_SIZE,
    {
        Self { batch_size: DEFAULT_BATCH_SIZE }
    }
}

/// Switch to pause the cellular automaton simulation: while it is handed to
/// the engine, a tick computes nothing and produces no changes.
#[derive(Debug, Copy, Clone)]
pub struct SimulationPause;

} // verus!
