//! The transition-rule abstraction: a cell's state type and the pure function
//! computing its next state from its neighbors' states.
use vstd::multiset::Multiset;
use vstd::prelude::*;

mod classic_state;
mod conway_state;
mod conway_state_3d;
mod cyclic_color_state;
mod immigration_state;
mod wire_world_cell_state;
mod world_wire_state;

pub use classic_state::ClassicCellState;
pub use conway_state::ConwayCellState;
pub use conway_state_3d::ConwayCell4555State;
pub use cyclic_color_state::CyclicColorCellState;
pub use cyclic_color_state::CYCLIC_COLOR_COUNT;
pub use immigration_state::ImmigrationCellState;
pub use wire_world_cell_state::WireWorldCellState;
pub use world_wire_state::WorldWireCellState;

verus! {

/// How many entries of `s` equal `v`.
///
/// The built-in rules aggregate their neighbors by counting occurrences of
/// particular state values, which keeps every rule insensitive to the order
/// in which neighbors are listed (see [`lemma_occurrences_permutation`]).
pub open spec fn occurrences_of<S>(s: Seq<S>, v: S) -> nat
    decreases s.len(),
{
    if s.len() == 0 {
        0
    } else {
        occurrences_of(s.drop_last(), v) + (if s.last() == v {
            1nat
        } else {
            0nat
        })
    }
}

/// Counting occurrences in a sequence is counting in its multiset.
pub proof fn lemma_occurrences_multiset<S>(s: Seq<S>, v: S)
    ensures
        occurrences_of(s, v) == s.to_multiset().count(v),
    decreases s.len(),
{
    broadcast use vstd::seq_lib::group_to_multiset_ensures;

    if s.len() == 0 {
        assert(s.to_multiset() =~= Multiset::<S>::empty());
    } else {
        let s0 = s.drop_last();
        lemma_occurrences_multiset(s0, v);
        assert(s =~= s0.push(s.last()));
        assert(s0.push(s.last()).to_multiset() =~= s0.to_multiset().insert(s.last()));
    }
}

/// Two sequences holding the same values with the same multiplicities hold
/// each value equally often.
pub proof fn lemma_occurrences_permutation<S>(a: Seq<S>, b: Seq<S>, v: S)
    requires
        a.to_multiset() == b.to_multiset(),
    ensures
        occurrences_of(a, v) == occurrences_of(b, v),
{
    lemma_occurrences_multiset(a, v);
    lemma_occurrences_multiset(b, v);
}

/// Two sequences holding the same values with the same multiplicities contain
/// the same values.
pub proof fn lemma_contains_permutation<S>(a: Seq<S>, b: Seq<S>, v: S)
    requires
        a.to_multiset() == b.to_multiset(),
    ensures
        a.contains(v) == b.contains(v),
{
    broadcast use vstd::seq_lib::group_to_multiset_ensures;

    assert(a.contains(v) <==> a.to_multiset().count(v) > 0);
    assert(b.contains(v) <==> b.to_multiset().count(v) > 0);
}

/// Extending a counted prefix by one entry raises the count by one exactly
/// when the new entry matches.
pub proof fn lemma_occurrences_extend<S>(s: Seq<S>, v: S, i: int)
    requires
        0 <= i < s.len(),
    ensures
        occurrences_of(s.take(i + 1), v) == occurrences_of(s.take(i), v) + (if s[i] == v {
            1nat
        } else {
            0nat
        }),
{
    assert(s.take(i + 1).drop_last() =~= s.take(i));
    assert(s.take(i + 1).last() == s[i]);
}

/// The state of a cell, together with the transition rule producing a cell's
/// next state from its current one and the states of its neighbors.
///
/// The rule is a pure function of its inputs and must not depend on the order
/// in which the neighbors are listed: implementations discharge
/// [`CellState::new_state_order_independent`], so the engine may gather and
/// evaluate cells in any order, or in parallel batches, without changing the
/// outcome.
pub trait CellState: Sized + Clone {
    /// The next state of a cell holding `self` whose neighbors hold
    /// `neighbors`, as a mathematical function.
    spec fn spec_new_state(&self, neighbors: Seq<Self>) -> Self;

    /// Defines the new state for a cell given the `neighbor_cells` states and
    /// `self`.
    ///
    /// This method defines the cellular automaton rules.
    fn new_cell_state(&self, neighbor_cells: &Vec<Self>) -> (r: Self)
        ensures
            r == self.spec_new_state(neighbor_cells@),
    ;

    /// Decides whether two states represent the same automaton configuration;
    /// the engine uses this to suppress commits that would not change
    /// anything.
    fn state_eq(&self, other: &Self) -> (r: bool)
        ensures
            r == (*self == *other),
    ;

    /// Duplicates the state.
    fn state_clone(&self) -> (r: Self)
        ensures
            r == *self,
    ;

    /// The rule aggregates its neighbors commutatively: listing the same
    /// neighbor states in another order never changes the outcome.
    proof fn new_state_order_independent(&self, a: Seq<Self>, b: Seq<Self>)
        requires
            a.to_multiset() == b.to_multiset(),
        ensures
            self.spec_new_state(a) == self.spec_new_state(b),
    ;
}

/// Rule determinism: a transition rule is a pure function of the cell's state
/// and the multiset of its neighbors' states. Evaluating it twice on the same
/// state, with the same neighbor states in any order, gives equal results.
pub proof fn lemma_rule_determinism<S: CellState>(state: S, a: Seq<S>, b: Seq<S>)
    requires
        a.to_multiset() == b.to_multiset(),
    ensures
        state.spec_new_state(a) == state.spec_new_state(b),
{
    state.new_state_order_independent(a, b);
}

} // verus!
