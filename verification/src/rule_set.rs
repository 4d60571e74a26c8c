//! Configurable neighbor-count thresholds for life-like rules.
use vstd::prelude::*;

verus! {

/// A set of rules for the game of life
#[derive(Debug, Clone)]
pub struct RuleSet {
    /// Any live cell with fewer than `underpopulation_threshold` live
    /// neighbours dies (referred to as underpopulation or exposure)
    pub underpopulation_threshold: u8,
    /// Any live cell with more than `overpopulation_threshold` live
    /// neighbours dies (referred to as overpopulation or overcrowding)
    pub overpopulation_threshold: u8,
    /// Any dead cell with exactly `reproduction_value` live neighbours will
    /// come to life.
    ///
    /// You can set multiple values
    pub reproduction_value: Vec<u8>,
}

impl Default for RuleSet {
    /// The classic thresholds: survival with two or three live neighbors,
    /// reproduction with exactly three.
    fn default() -> (r: Self)
        ensures
            r.underpopulation_threshold == 2,
            r.overpopulation_threshold == 3,
            r.reproduction_value@ == seq![3u8],
    {
        let reproduction_value: Vec<u8> = vec![3];
        proof {
            assert(reproduction_value@ =~= seq![3u8]);
        }
        Self { underpopulation_threshold: 2, overpopulation_threshold: 3, reproduction_value }
    }
}

} // verus!
