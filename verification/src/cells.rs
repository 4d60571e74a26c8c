//! The generation update engine: computing each tick's changeset from a
//! consistent snapshot of the previous generation.
use vstd::prelude::*;

use crate::cell::Cell;
use crate::cell_state::CellState;
use crate::map::apply_index_ops;
use crate::map::CellMap;
use crate::map::IndexOp;
use crate::simulation::SimulationBatch;
use crate::simulation::SimulationPause;
use crate::Entity;

verus! {

/// One live cell of the population: its stable handle, its position-bearing
/// cell component and its current state.
pub struct CellRecord<C: Cell, S: CellState> {
    /// Stable handle of the cell.
    pub entity: Entity,
    /// The coordinate-system component.
    pub cell: C,
    /// The current state.
    pub state: S,
}

/// The state occupying position `c` in the population snapshot, if any; with
/// several records at one position the latest record wins, mirroring the way
/// the snapshot is collected position by position.
pub open spec fn snapshot_at<C: Cell, S: CellState>(
    pop: Seq<CellRecord<C, S>>,
    c: C::Coordinates,
) -> Option<S>
    decreases pop.len(),
{
    if pop.len() == 0 {
        None
    } else if pop.last().cell.spec_coords() == c {
        Some(pop.last().state)
    } else {
        snapshot_at(pop.drop_last(), c)
    }
}

/// The neighbor states gathered for the positions `coords`, in order;
/// unoccupied positions contribute nothing.
pub open spec fn gather_neighbor_states<C: Cell, S: CellState>(
    pop: Seq<CellRecord<C, S>>,
    coords: Seq<C::Coordinates>,
) -> Seq<S>
    decreases coords.len(),
{
    if coords.len() == 0 {
        Seq::empty()
    } else {
        gather_neighbor_states(pop, coords.drop_last()) + (match snapshot_at(pop, coords.last()) {
            Some(s) => seq![s],
            None => Seq::empty(),
        })
    }
}

/// The state `rec` takes next tick: its rule applied to the neighbor states
/// the previous generation holds around it.
pub open spec fn spec_next_state<C: Cell, S: CellState>(
    pop: Seq<CellRecord<C, S>>,
    rec: CellRecord<C, S>,
) -> S {
    rec.state.spec_new_state(gather_neighbor_states(pop, rec.cell.spec_neighbors()))
}

/// Every cell of the population is far enough from the edge of the
/// coordinate space that its neighborhood is representable.
pub open spec fn all_in_range<C: Cell, S: CellState>(pop: Seq<CellRecord<C, S>>) -> bool {
    forall|i: int| 0 <= i < pop.len() ==> #[trigger] pop[i].cell.coords_in_range()
}

/// Resolves one position against the population snapshot.
fn find_state<C: Cell, S: CellState>(
    population: &Vec<CellRecord<C, S>>,
    c: &C::Coordinates,
) -> (r: Option<S>)
    ensures
        r == snapshot_at(population@, *c),
{
    let mut r: Option<S> = None;
    let mut i: usize = 0;
    while i < population.len()
        invariant
            i <= population@.len(),
            r == snapshot_at(population@.take(i as int), *c),
        decreases population@.len() - i,
    {
        proof {
            assert(population@.take(i + 1).drop_last() =~= population@.take(i as int));
            assert(population@.take(i + 1).last() == population@[i as int]);
        }
        let rec = &population[i];
        if C::coordinates_eq(rec.cell.coords(), c) {
            r = Some(rec.state.state_clone());
        }
        i = i + 1;
    }
    proof {
        assert(population@.take(population@.len() as int) =~= population@);
    }
    r
}

/// Gathers the states at `coords` from the population snapshot, skipping
/// unoccupied positions.
fn gather_states<C: Cell, S: CellState>(
    population: &Vec<CellRecord<C, S>>,
    coords: &Vec<C::Coordinates>,
) -> (r: Vec<S>)
    ensures
        r@ == gather_neighbor_states(population@, coords@),
{
    let mut r: Vec<S> = Vec::new();
    let mut i: usize = 0;
    while i < coords.len()
        invariant
            i <= coords@.len(),
            r@ == gather_neighbor_states(population@, coords@.take(i as int)),
        decreases coords@.len() - i,
    {
        proof {
            assert(coords@.take(i + 1).drop_last() =~= coords@.take(i as int));
            assert(coords@.take(i + 1).last() == coords@[i as int]);
        }
        match find_state(population, &coords[i]) {
            Some(s) => r.push(s),
            None => {},
        }
        i = i + 1;
    }
    proof {
        assert(coords@.take(coords@.len() as int) =~= coords@);
    }
    r
}

/// Evaluates one cell against the previous generation: gathers the states of
/// its neighbors, applies the transition rule, and reports the next state
/// exactly when it differs from the current one.
pub fn handle_cell<C: Cell, S: CellState>(
    cell: &C,
    state: &S,
    population: &Vec<CellRecord<C, S>>,
) -> (r: Option<S>)
    requires
        cell.coords_in_range(),
    ensures
        ({
            let next = state.spec_new_state(
                gather_neighbor_states(population@, cell.spec_neighbors()),
            );
            r == if next == *state {
                None::<S>
            } else {
                Some(next)
            }
        }),
{
    let neighbor_coords = cell.neighbor_coordinates();
    let neighbor_states = gather_states(population, &neighbor_coords);
    let new_state = state.new_cell_state(&neighbor_states);
    if new_state.state_eq(state) {
        None
    } else {
        Some(new_state)
    }
}

/// The changeset contributed by the records of `pop` with indices in
/// `[lo, hi)`: for each such record whose computed next state differs from
/// its current state, in order, the pair of its handle and its next state.
pub open spec fn changes_in_range<C: Cell, S: CellState>(
    pop: Seq<CellRecord<C, S>>,
    lo: int,
    hi: int,
) -> Seq<(Entity, S)>
    decreases hi - lo,
{
    if hi <= lo {
        Seq::empty()
    } else {
        let prev = changes_in_range(pop, lo, hi - 1);
        let rec = pop[hi - 1];
        let next = spec_next_state(pop, rec);
        if next == rec.state {
            prev
        } else {
            prev.push((rec.entity, next))
        }
    }
}

/// The full changeset of one tick over `pop`.
pub open spec fn spec_changeset<C: Cell, S: CellState>(pop: Seq<CellRecord<C, S>>) -> Seq<
    (Entity, S),
> {
    changes_in_range(pop, 0, pop.len() as int)
}

/// The changeset over `[lo, hi)` splits at any point in between.
proof fn lemma_changes_split<C: Cell, S: CellState>(
    pop: Seq<CellRecord<C, S>>,
    lo: int,
    mid: int,
    hi: int,
)
    requires
        lo <= mid <= hi,
    ensures
        changes_in_range(pop, lo, hi) == changes_in_range(pop, lo, mid) + changes_in_range(
            pop,
            mid,
            hi,
        ),
    decreases hi - mid,
{
    if hi == mid {
        assert(changes_in_range(pop, lo, mid) + changes_in_range(pop, mid, hi)
            =~= changes_in_range(pop, lo, hi));
    } else {
        lemma_changes_split(pop, lo, mid, hi - 1);
        let a = changes_in_range(pop, lo, mid);
        let b = changes_in_range(pop, mid, hi - 1);
        let rec = pop[hi - 1];
        let next = spec_next_state(pop, rec);
        if next == rec.state {
        } else {
            assert((a + b).push((rec.entity, next)) =~= a + b.push((rec.entity, next)));
        }
    }
}

/// Runs one tick of the simulation over the population.
///
/// While the pause switch is handed in, nothing is computed and no changes
/// are produced. Otherwise every cell is evaluated against the same snapshot
/// of the previous generation — directly, or in batches of the given size
/// whose staged changes are committed batch by batch — and the changeset
/// holds exactly the cells whose state changes, with their new states, in
/// population order. Both execution modes produce the same changeset.
pub fn handle_cells<C: Cell, S: CellState>(
    population: &Vec<CellRecord<C, S>>,
    pause: Option<&SimulationPause>,
    batch: Option<&SimulationBatch>,
) -> (changes: Vec<(Entity, S)>)
    requires
        all_in_range(population@),
    ensures
        pause is Some ==> changes@ == Seq::<(Entity, S)>::empty(),
        pause is None ==> changes@ == spec_changeset(population@),
{
    if pause.is_some() {
        let changes: Vec<(Entity, S)> = Vec::new();
        proof {
            assert(changes@ =~= Seq::<(Entity, S)>::empty());
        }
        return changes;
    }
    match batch {
        Some(b) => handle_cells_batched(population, b.batch_size),
        None => {
            let mut changes: Vec<(Entity, S)> = Vec::new();
            let mut i: usize = 0;
            while i < population.len()
                invariant
                    all_in_range(population@),
                    i <= population@.len(),
                    changes@ == changes_in_range(population@, 0, i as int),
                decreases population@.len() - i,
            {
                let rec = &population[i];
                match handle_cell(&rec.cell, &rec.state, population) {
                    Some(new_state) => changes.push((rec.entity, new_state)),
                    None => {},
                }
                i = i + 1;
            }
            changes
        },
    }
}

/// Evaluates the population in fixed-size batches, staging each batch's
/// changes and committing them to the changeset after the batch completed.
fn handle_cells_batched<C: Cell, S: CellState>(
    population: &Vec<CellRecord<C, S>>,
    batch_size: usize,
) -> (changes: Vec<(Entity, S)>)
    requires
        all_in_range(population@),
    ensures
        changes@ == spec_changeset(population@),
{
    let step: usize = if batch_size == 0 {
        1
    } else {
        batch_size
    };
    let mut changes: Vec<(Entity, S)> = Vec::new();
    let mut i: usize = 0;
    while i < population.len()
        invariant
            all_in_range(population@),
            step >= 1,
            i <= population@.len(),
            changes@ == changes_in_range(population@, 0, i as int),
        decreases population@.len() - i,
    {
        let remaining = population.len() - i;
        let count = if step < remaining {
            step
        } else {
            remaining
        };
        let end = i + count;
        let mut staged: Vec<(Entity, S)> = Vec::new();
        let mut j: usize = i;
        while j < end
            invariant
                all_in_range(population@),
                i <= j <= end,
                end <= population@.len(),
                staged@ == changes_in_range(population@, i as int, j as int),
            decreases end - j,
        {
            let rec = &population[j];
            match handle_cell(&rec.cell, &rec.state, population) {
                Some(new_state) => staged.push((rec.entity, new_state)),
                None => {},
            }
            j = j + 1;
        }
        changes.append(&mut staged);
        proof {
            lemma_changes_split(population@, 0, i as int, end as int);
        }
        i = end;
    }
    changes
}

/// The latest state staged for handle `e` in `changes`, if any.
pub open spec fn last_change<S>(changes: Seq<(Entity, S)>, e: Entity) -> Option<S>
    decreases changes.len(),
{
    if changes.len() == 0 {
        None
    } else if changes.last().0 == e {
        Some(changes.last().1)
    } else {
        last_change(changes.drop_last(), e)
    }
}

/// The population after committing `changes`: every record keeps its handle
/// and its cell, and takes the latest state staged for its handle, or keeps
/// its state when none is.
pub open spec fn spec_apply_changes<C: Cell, S: CellState>(
    pop: Seq<CellRecord<C, S>>,
    changes: Seq<(Entity, S)>,
) -> Seq<CellRecord<C, S>> {
    Seq::new(
        pop.len(),
        |i: int|
            CellRecord {
                entity: pop[i].entity,
                cell: pop[i].cell,
                state: match last_change(changes, pop[i].entity) {
                    Some(s) => s,
                    None => pop[i].state,
                },
            },
    )
}

/// The population after one whole tick: unchanged while paused, otherwise
/// with the tick's changeset committed.
pub open spec fn spec_step<C: Cell, S: CellState>(
    pop: Seq<CellRecord<C, S>>,
    paused: bool,
) -> Seq<CellRecord<C, S>> {
    if paused {
        pop
    } else {
        spec_apply_changes(pop, spec_changeset(pop))
    }
}

/// The population after `n` whole ticks.
pub open spec fn spec_run<C: Cell, S: CellState>(
    pop: Seq<CellRecord<C, S>>,
    paused: bool,
    n: nat,
) -> Seq<CellRecord<C, S>>
    decreases n,
{
    if n == 0 {
        pop
    } else {
        spec_step(spec_run(pop, paused, (n - 1) as nat), paused)
    }
}

/// Pause idempotence: with the pause switch active, any number of ticks
/// leaves every cell's state untouched — and, by the contract of
/// [`handle_cells`], no tick produces a changeset entry.
pub proof fn lemma_pause_idempotence<C: Cell, S: CellState>(
    pop: Seq<CellRecord<C, S>>,
    n: nat,
)
    ensures
        spec_run(pop, true, n) == pop,
    decreases n,
{
    if n > 0 {
        lemma_pause_idempotence(pop, (n - 1) as nat);
    }
}

/// The latest change staged for `e` in `changes`, if any.
fn find_last_change<S: CellState>(changes: &Vec<(Entity, S)>, e: Entity) -> (r: Option<S>)
    ensures
        r == last_change(changes@, e),
{
    let mut r: Option<S> = None;
    let mut i: usize = 0;
    while i < changes.len()
        invariant
            i <= changes@.len(),
            r == last_change(changes@.take(i as int), e),
        decreases changes@.len() - i,
    {
        proof {
            assert(changes@.take(i + 1).drop_last() =~= changes@.take(i as int));
            assert(changes@.take(i + 1).last() == changes@[i as int]);
        }
        let change = &changes[i];
        if change.0 == e {
            r = Some(change.1.state_clone());
        }
        i = i + 1;
    }
    proof {
        assert(changes@.take(changes@.len() as int) =~= changes@);
    }
    r
}

/// Commits a changeset: each record whose handle has a staged change takes
/// the latest state staged for it; every other record is untouched.
pub fn apply_changes<C: Cell, S: CellState>(
    population: &mut Vec<CellRecord<C, S>>,
    changes: &Vec<(Entity, S)>,
)
    ensures
        final(population)@ == spec_apply_changes(old(population)@, changes@),
{
    let ghost target = spec_apply_changes(population@, changes@);
    let mut result: Vec<CellRecord<C, S>> = Vec::new();
    let mut i: usize = 0;
    while i < population.len()
        invariant
            i <= population@.len(),
            target == spec_apply_changes(population@, changes@),
            result@.len() == i,
            forall|j: int| 0 <= j < i ==> result@[j] == target[j],
        decreases population@.len() - i,
    {
        let rec = &population[i];
        let state = match find_last_change(changes, rec.entity) {
            Some(s) => s,
            None => rec.state.state_clone(),
        };
        result.push(CellRecord { entity: rec.entity, cell: rec.cell.clone_cell(), state });
        i = i + 1;
    }
    *population = result;
    proof {
        assert(population@ =~= target);
    }
}

/// Runs one whole tick: evaluates the population (sequentially or batched)
/// and commits the resulting changeset. While paused, the population is left
/// untouched.
pub fn step<C: Cell, S: CellState>(
    population: &mut Vec<CellRecord<C, S>>,
    pause: Option<&SimulationPause>,
    batch: Option<&SimulationBatch>,
)
    requires
        all_in_range(old(population)@),
    ensures
        final(population)@ == spec_step(old(population)@, pause is Some),
{
    let changes = handle_cells(population, pause, batch);
    if pause.is_none() {
        apply_changes(population, &changes);
    } else {
        proof {
            assert(spec_step(population@, true) == population@);
        }
    }
}

/// No two records of the population share a handle.
pub open spec fn distinct_entities<C: Cell, S: CellState>(pop: Seq<CellRecord<C, S>>) -> bool {
    forall|i: int, j: int| 0 <= i < j < pop.len() ==> pop[i].entity != pop[j].entity
}

/// Every entry of a partial changeset is the recorded change of some record
/// in its range whose next state differs from its current one.
proof fn lemma_changes_membership<C: Cell, S: CellState>(
    pop: Seq<CellRecord<C, S>>,
    lo: int,
    hi: int,
)
    requires
        lo <= hi,
    ensures
        forall|j: int|
            0 <= j < changes_in_range(pop, lo, hi).len() ==> (exists|k: int|
                lo <= k < hi && #[trigger] changes_in_range(pop, lo, hi)[j] == (
                pop[k].entity,
                spec_next_state(pop, pop[k]),
                ) && spec_next_state(pop, pop[k]) != pop[k].state),
    decreases hi - lo,
{
    if hi > lo {
        lemma_changes_membership(pop, lo, hi - 1);
        let prev = changes_in_range(pop, lo, hi - 1);
        let rec = pop[hi - 1];
        let next = spec_next_state(pop, rec);
        if next != rec.state {
            assert forall|j: int|
                0 <= j < changes_in_range(pop, lo, hi).len() implies (exists|k: int|
                lo <= k < hi && #[trigger] changes_in_range(pop, lo, hi)[j] == (
                pop[k].entity,
                spec_next_state(pop, pop[k]),
                ) && spec_next_state(pop, pop[k]) != pop[k].state) by {
                if j < prev.len() {
                    let k = choose|k: int|
                        lo <= k < hi - 1 && #[trigger] prev[j] == (
                        pop[k].entity,
                        spec_next_state(pop, pop[k]),
                        ) && spec_next_state(pop, pop[k]) != pop[k].state;
                    assert(changes_in_range(pop, lo, hi)[j] == prev[j]);
                    assert(lo <= k < hi && changes_in_range(pop, lo, hi)[j] == (
                    pop[k].entity,
                    spec_next_state(pop, pop[k]),
                    ) && spec_next_state(pop, pop[k]) != pop[k].state);
                } else {
                    assert(changes_in_range(pop, lo, hi)[j] == (rec.entity, next));
                    assert(lo <= hi - 1 < hi && changes_in_range(pop, lo, hi)[j] == (
                    pop[hi - 1].entity,
                    spec_next_state(pop, pop[hi - 1]),
                    ) && spec_next_state(pop, pop[hi - 1]) != pop[hi - 1].state);
                }
            }
        }
    }
}

/// Every changeset entry records an actual change: it is the handle of some
/// record of the population paired with that record's computed next state,
/// and that next state differs from the record's current state.
pub proof fn lemma_changeset_records_changes<C: Cell, S: CellState>(pop: Seq<CellRecord<C, S>>)
    ensures
        forall|j: int|
            0 <= j < spec_changeset(pop).len() ==> (exists|k: int|
                0 <= k < pop.len() && #[trigger] spec_changeset(pop)[j] == (
                pop[k].entity,
                spec_next_state(pop, pop[k]),
                ) && spec_next_state(pop, pop[k]) != pop[k].state),
{
    lemma_changes_membership(pop, 0, pop.len() as int);
}

/// No-op suppression: a cell whose computed next state equals its current
/// state contributes no entry to the tick's changeset.
pub proof fn lemma_no_op_suppression<C: Cell, S: CellState>(pop: Seq<CellRecord<C, S>>, i: int)
    requires
        distinct_entities(pop),
        0 <= i < pop.len(),
        spec_next_state(pop, pop[i]) == pop[i].state,
    ensures
        forall|j: int|
            0 <= j < spec_changeset(pop).len() ==> #[trigger] spec_changeset(pop)[j].0
                != pop[i].entity,
{
    lemma_changes_membership(pop, 0, pop.len() as int);
    assert forall|j: int|
        0 <= j < spec_changeset(pop).len() implies #[trigger] spec_changeset(pop)[j].0
        != pop[i].entity by {
        let k = choose|k: int|
            0 <= k < pop.len() && #[trigger] changes_in_range(pop, 0, pop.len() as int)[j] == (
            pop[k].entity,
            spec_next_state(pop, pop[k]),
            ) && spec_next_state(pop, pop[k]) != pop[k].state;
        if k != i {
            assert(pop[k].entity != pop[i].entity);
        }
    }
}

/// The registrations performed for `cells`, in order: each cell's position
/// comes to resolve to its handle.
pub open spec fn register_ops<C: Cell>(cells: Seq<(Entity, C)>) -> Seq<
    IndexOp<C::Coordinates>,
> {
    cells.map_values(|p: (Entity, C)| IndexOp::Register(p.1.spec_coords(), p.0))
}

/// The deregistrations performed for `coords`, in order.
pub open spec fn deregister_ops<K>(coords: Seq<K>) -> Seq<IndexOp<K>> {
    coords.map_values(|c: K| IndexOp::Deregister(c))
}

/// The anomalies a registration pass reports: for each cell whose
/// registration displaced a different occupant of its position, the pair of
/// the cell's handle and the displaced handle, in registration order.
pub open spec fn spec_displacements<C: Cell>(
    m: Map<C::Coordinates, Entity>,
    cells: Seq<(Entity, C)>,
) -> Seq<(Entity, Entity)>
    decreases cells.len(),
{
    if cells.len() == 0 {
        Seq::empty()
    } else {
        let prev = spec_displacements(m, cells.drop_last());
        let m0 = apply_index_ops(m, register_ops(cells.drop_last()));
        let e = cells.last().0;
        let k = cells.last().1.spec_coords();
        prev + (if m0.contains_key(k) && m0[k] != e {
            seq![(e, m0[k])]
        } else {
            Seq::empty()
        })
    }
}

/// Registration pass: inserts every newly spawned cell into the spatial
/// index at its position. A registration that displaces a different cell at
/// the same position is not fatal — the most recent registration wins — but
/// each such displacement is reported, so the caller can log the anomaly.
pub fn handle_new_cells<C: Cell>(new_cells: &Vec<(Entity, C)>, map: &mut CellMap<C>) -> (replaced:
    Vec<(Entity, Entity)>)
    requires
        old(map).wf(),
    ensures
        final(map).wf(),
        final(map)@ == apply_index_ops(old(map)@, register_ops(new_cells@)),
        replaced@ == spec_displacements(old(map)@, new_cells@),
{
    let mut replaced: Vec<(Entity, Entity)> = Vec::new();
    let mut i: usize = 0;
    while i < new_cells.len()
        invariant
            map.wf(),
            i <= new_cells@.len(),
            map@ == apply_index_ops(old(map)@, register_ops(new_cells@.take(i as int))),
            replaced@ == spec_displacements(old(map)@, new_cells@.take(i as int)),
        decreases new_cells@.len() - i,
    {
        proof {
            assert(new_cells@.take(i + 1).drop_last() =~= new_cells@.take(i as int));
            assert(new_cells@.take(i + 1).last() == new_cells@[i as int]);
            assert(register_ops::<C>(new_cells@.take(i + 1)).drop_last() =~= register_ops::<C>(
                new_cells@.take(i as int),
            ));
            assert(register_ops::<C>(new_cells@.take(i + 1)).last() == IndexOp::<
                C::Coordinates,
            >::Register(new_cells@[i as int].1.spec_coords(), new_cells@[i as int].0));
        }
        let rec = &new_cells[i];
        let coords = C::clone_coordinates(rec.1.coords());
        let old_entity = map.insert_cell(coords, rec.0);
        match old_entity {
            Some(e) => {
                if e != rec.0 {
                    replaced.push((rec.0, e));
                }
            },
            None => {},
        }
        i = i + 1;
    }
    proof {
        assert(new_cells@.take(new_cells@.len() as int) =~= new_cells@);
    }
    replaced
}

/// Deregistration pass: removes every despawned cell's position from the
/// spatial index. Positions that are no longer present are ignored.
pub fn handle_removed_cells<C: Cell>(removed_cells: &Vec<C::Coordinates>, map: &mut CellMap<C>)
    requires
        old(map).wf(),
    ensures
        final(map).wf(),
        final(map)@ == apply_index_ops(old(map)@, deregister_ops(removed_cells@)),
{
    let mut i: usize = 0;
    while i < removed_cells.len()
        invariant
            map.wf(),
            i <= removed_cells@.len(),
            map@ == apply_index_ops(old(map)@, deregister_ops(removed_cells@.take(i as int))),
        decreases removed_cells@.len() - i,
    {
        proof {
            assert(removed_cells@.take(i + 1).drop_last() =~= removed_cells@.take(i as int));
            assert(removed_cells@.take(i + 1).last() == removed_cells@[i as int]);
            assert(deregister_ops(removed_cells@.take(i + 1)).drop_last() =~= deregister_ops(
                removed_cells@.take(i as int),
            ));
            assert(deregister_ops(removed_cells@.take(i + 1)).last() == IndexOp::<
                C::Coordinates,
            >::Deregister(removed_cells@[i as int]));
        }
        map.remove_cell(&removed_cells[i]);
        i = i + 1;
    }
    proof {
        assert(removed_cells@.take(removed_cells@.len() as int) =~= removed_cells@);
    }
}

/// No two records of the population share a position.
pub open spec fn distinct_coords<C: Cell, S: CellState>(pop: Seq<CellRecord<C, S>>) -> bool {
    forall|i: int, j: int|
        0 <= i < j < pop.len() ==> pop[i].cell.spec_coords() != pop[j].cell.spec_coords()
}

/// The state of the cell with handle `e`, if the population holds one; with
/// several records sharing a handle the latest record wins.
pub open spec fn entity_state_at<C: Cell, S: CellState>(
    pop: Seq<CellRecord<C, S>>,
    e: Entity,
) -> Option<S>
    decreases pop.len(),
{
    if pop.len() == 0 {
        None
    } else if pop.last().entity == e {
        Some(pop.last().state)
    } else {
        entity_state_at(pop.drop_last(), e)
    }
}

/// The spatial index agrees with the population: positions and handles are
/// unique, every record's position resolves to its handle, and no index
/// entry resolves a position to a live cell standing elsewhere (an entry
/// left behind by a departed cell is allowed — it resolves to no live cell
/// and is treated as an empty position).
pub open spec fn index_consistent_with<C: Cell, S: CellState>(
    m: Map<C::Coordinates, Entity>,
    pop: Seq<CellRecord<C, S>>,
) -> bool {
    &&& distinct_coords(pop)
    &&& distinct_entities(pop)
    &&& forall|i: int|
        0 <= i < pop.len() ==> m.contains_key(#[trigger] pop[i].cell.spec_coords())
            && m[pop[i].cell.spec_coords()] == pop[i].entity
    &&& forall|k: C::Coordinates, i: int|
        #![trigger m[k], pop[i].entity]
        m.contains_key(k) && 0 <= i < pop.len() && m[k] == pop[i].entity ==> pop[
            i
        ].cell.spec_coords() == k
}

/// The handle/cell pairs a registration pass receives for a population.
pub open spec fn population_cells<C: Cell, S: CellState>(pop: Seq<CellRecord<C, S>>) -> Seq<
    (Entity, C),
> {
    pop.map_values(|r: CellRecord<C, S>| (r.entity, r.cell))
}

/// Registering cells with pairwise distinct positions over a fresh index
/// yields exactly the map from each cell's position to its handle.
proof fn lemma_register_all_fresh<C: Cell>(cells: Seq<(Entity, C)>)
    requires
        forall|i: int, j: int|
            0 <= i < j < cells.len() ==> cells[i].1.spec_coords() != cells[j].1.spec_coords(),
    ensures
        ({
            let m = apply_index_ops(Map::<C::Coordinates, Entity>::empty(), register_ops(cells));
            &&& forall|k: C::Coordinates|
                #[trigger] m.contains_key(k) <==> exists|i: int|
                    0 <= i < cells.len() && #[trigger] cells[i].1.spec_coords() == k
            &&& forall|i: int|
                0 <= i < cells.len() ==> m.contains_key(#[trigger] cells[i].1.spec_coords())
                    && m[cells[i].1.spec_coords()] == cells[i].0
        }),
    decreases cells.len(),
{
    if cells.len() > 0 {
        let cells0 = cells.drop_last();
        lemma_register_all_fresh(cells0);
        assert(register_ops(cells).drop_last() =~= register_ops(cells0));
        assert(register_ops(cells).last() == IndexOp::<C::Coordinates>::Register(
            cells.last().1.spec_coords(),
            cells.last().0,
        ));
        let m0 = apply_index_ops(Map::<C::Coordinates, Entity>::empty(), register_ops(cells0));
        let m = apply_index_ops(Map::<C::Coordinates, Entity>::empty(), register_ops(cells));
        let lk = cells.last().1.spec_coords();
        assert(m == m0.insert(lk, cells.last().0));
        assert forall|k: C::Coordinates| #[trigger] m.contains_key(k) implies exists|i: int|
            0 <= i < cells.len() && #[trigger] cells[i].1.spec_coords() == k by {
            if k == lk {
                assert(cells[cells.len() - 1].1.spec_coords() == k);
            } else {
                let i = choose|i: int|
                    0 <= i < cells0.len() && #[trigger] cells0[i].1.spec_coords() == k;
                assert(cells[i].1.spec_coords() == k);
            }
        }
        assert forall|k: C::Coordinates|
            (exists|i: int|
                0 <= i < cells.len() && #[trigger] cells[i].1.spec_coords()
                    == k) implies #[trigger] m.contains_key(k) by {
            let i = choose|i: int| 0 <= i < cells.len() && #[trigger] cells[i].1.spec_coords() == k;
            if i < cells.len() - 1 {
                assert(cells0[i].1.spec_coords() == k);
            }
        }
        assert forall|i: int| 0 <= i < cells.len() implies m.contains_key(
            #[trigger] cells[i].1.spec_coords(),
        ) && m[cells[i].1.spec_coords()] == cells[i].0 by {
            if i < cells.len() - 1 {
                assert(cells0[i] == cells[i]);
                assert(cells[i].1.spec_coords() != lk);
            }
        }
    }
}

/// Lifecycle bookkeeping feeds the index-backed engine mode: a registration
/// pass for a population with distinct positions and handles, over a fresh
/// index, leaves the index consistent with that population — the condition
/// under which [`handle_cells_indexed`] produces exactly the changeset of
/// [`handle_cells`].
pub proof fn lemma_registration_establishes_consistency<C: Cell, S: CellState>(
    pop: Seq<CellRecord<C, S>>,
)
    requires
        distinct_coords(pop),
        distinct_entities(pop),
    ensures
        index_consistent_with(
            apply_index_ops(
                Map::<C::Coordinates, Entity>::empty(),
                register_ops(population_cells(pop)),
            ),
            pop,
        ),
{
    let cells = population_cells(pop);
    assert(forall|i: int|
        0 <= i < pop.len() ==> (#[trigger] cells[i]) == (pop[i].entity, pop[i].cell));
    lemma_register_all_fresh(cells);
    let m = apply_index_ops(Map::<C::Coordinates, Entity>::empty(), register_ops(cells));
    assert forall|i: int| 0 <= i < pop.len() implies m.contains_key(
        #[trigger] pop[i].cell.spec_coords(),
    ) && m[pop[i].cell.spec_coords()] == pop[i].entity by {
        assert(cells[i].1.spec_coords() == pop[i].cell.spec_coords());
    }
    assert forall|k: C::Coordinates, i: int|
        #![trigger m[k], pop[i].entity]
        m.contains_key(k) && 0 <= i < pop.len() && m[k] == pop[i].entity implies pop[
        i
    ].cell.spec_coords() == k by {
        let j = choose|j: int| 0 <= j < cells.len() && #[trigger] cells[j].1.spec_coords() == k;
        assert(m[k] == cells[j].0);
        assert(pop[j].entity == pop[i].entity);
        if i != j {
            assert(pop[i].entity != pop[j].entity);
        }
    }
}

/// With distinct positions, the snapshot at a record's position holds that
/// record's state.
proof fn lemma_snapshot_at_found<C: Cell, S: CellState>(
    pop: Seq<CellRecord<C, S>>,
    i: int,
)
    requires
        distinct_coords(pop),
        0 <= i < pop.len(),
    ensures
        snapshot_at(pop, pop[i].cell.spec_coords()) == Some(pop[i].state),
    decreases pop.len(),
{
    if i < pop.len() - 1 {
        assert(distinct_coords(pop.drop_last()));
        assert(pop.drop_last()[i] == pop[i]);
        lemma_snapshot_at_found(pop.drop_last(), i);
    }
}

/// The snapshot at a position no record holds is empty.
proof fn lemma_snapshot_at_missing<C: Cell, S: CellState>(
    pop: Seq<CellRecord<C, S>>,
    c: C::Coordinates,
)
    requires
        forall|i: int| 0 <= i < pop.len() ==> #[trigger] pop[i].cell.spec_coords() != c,
    ensures
        snapshot_at(pop, c) == None::<S>,
    decreases pop.len(),
{
    if pop.len() > 0 {
        lemma_snapshot_at_missing(pop.drop_last(), c);
    }
}

/// With distinct handles, looking a record's handle up yields that record's
/// state.
proof fn lemma_entity_state_found<C: Cell, S: CellState>(
    pop: Seq<CellRecord<C, S>>,
    i: int,
)
    requires
        distinct_entities(pop),
        0 <= i < pop.len(),
    ensures
        entity_state_at(pop, pop[i].entity) == Some(pop[i].state),
    decreases pop.len(),
{
    if i < pop.len() - 1 {
        assert(distinct_entities(pop.drop_last()));
        assert(pop.drop_last()[i] == pop[i]);
        lemma_entity_state_found(pop.drop_last(), i);
    }
}

/// Looking up a handle no record holds yields nothing.
proof fn lemma_entity_state_missing<C: Cell, S: CellState>(
    pop: Seq<CellRecord<C, S>>,
    e: Entity,
)
    requires
        forall|i: int| 0 <= i < pop.len() ==> #[trigger] pop[i].entity != e,
    ensures
        entity_state_at(pop, e) == None::<S>,
    decreases pop.len(),
{
    if pop.len() > 0 {
        lemma_entity_state_missing(pop.drop_last(), e);
    }
}

/// Resolves a handle against the population.
fn find_state_by_entity<C: Cell, S: CellState>(
    population: &Vec<CellRecord<C, S>>,
    e: Entity,
) -> (r: Option<S>)
    ensures
        r == entity_state_at(population@, e),
{
    let mut r: Option<S> = None;
    let mut i: usize = 0;
    while i < population.len()
        invariant
            i <= population@.len(),
            r == entity_state_at(population@.take(i as int), e),
        decreases population@.len() - i,
    {
        proof {
            assert(population@.take(i + 1).drop_last() =~= population@.take(i as int));
            assert(population@.take(i + 1).last() == population@[i as int]);
        }
        let rec = &population[i];
        if rec.entity == e {
            r = Some(rec.state.state_clone());
        }
        i = i + 1;
    }
    proof {
        assert(population@.take(population@.len() as int) =~= population@);
    }
    r
}

/// Resolves one position through the spatial index instead of scanning the
/// population: the index hands back the occupying handle, and the handle is
/// resolved to its record. An index entry whose cell has left the population
/// resolves to nothing, exactly as an unoccupied position does.
fn find_state_indexed<C: Cell, S: CellState>(
    map: &CellMap<C>,
    population: &Vec<CellRecord<C, S>>,
    c: &C::Coordinates,
) -> (r: Option<S>)
    requires
        map.wf(),
        index_consistent_with(map@, population@),
    ensures
        r == snapshot_at(population@, *c),
{
    let r = match map.get_cell(c) {
        Some(e) => find_state_by_entity(population, e),
        None => None,
    };
    proof {
        let pop = population@;
        if exists|i: int| 0 <= i < pop.len() && #[trigger] pop[i].cell.spec_coords() == *c {
            let i = choose|i: int|
                0 <= i < pop.len() && #[trigger] pop[i].cell.spec_coords() == *c;
            lemma_snapshot_at_found(pop, i);
            lemma_entity_state_found(pop, i);
        } else {
            lemma_snapshot_at_missing(pop, *c);
            if map@.contains_key(*c) {
                let e = map@[*c];
                assert(forall|i: int| 0 <= i < pop.len() ==> #[trigger] pop[i].entity != e);
                lemma_entity_state_missing(pop, e);
            }
        }
    }
    r
}

/// Runs one tick resolving neighbors through the spatial index instead of
/// scanning the population, as the index-maintaining engine mode does. With
/// an index that agrees with the population it produces exactly the
/// changeset of [`handle_cells`]: both engine modes give identical results
/// on identical inputs.
pub fn handle_cells_indexed<C: Cell, S: CellState>(
    population: &Vec<CellRecord<C, S>>,
    map: &CellMap<C>,
    pause: Option<&SimulationPause>,
) -> (changes: Vec<(Entity, S)>)
    requires
        all_in_range(population@),
        map.wf(),
        index_consistent_with(map@, population@),
    ensures
        pause is Some ==> changes@ == Seq::<(Entity, S)>::empty(),
        pause is None ==> changes@ == spec_changeset(population@),
{
    if pause.is_some() {
        let changes: Vec<(Entity, S)> = Vec::new();
        proof {
            assert(changes@ =~= Seq::<(Entity, S)>::empty());
        }
        return changes;
    }
    let mut changes: Vec<(Entity, S)> = Vec::new();
    let mut i: usize = 0;
    while i < population.len()
        invariant
            all_in_range(population@),
            map.wf(),
            index_consistent_with(map@, population@),
            i <= population@.len(),
            changes@ == changes_in_range(population@, 0, i as int),
        decreases population@.len() - i,
    {
        let rec = &population[i];
        let neighbor_coords = rec.cell.neighbor_coordinates();
        let mut neighbor_states: Vec<S> = Vec::new();
        let mut j: usize = 0;
        while j < neighbor_coords.len()
            invariant
                map.wf(),
                index_consistent_with(map@, population@),
                j <= neighbor_coords@.len(),
                neighbor_states@ == gather_neighbor_states(
                    population@,
                    neighbor_coords@.take(j as int),
                ),
            decreases neighbor_coords@.len() - j,
        {
            proof {
                assert(neighbor_coords@.take(j + 1).drop_last() =~= neighbor_coords@.take(
                    j as int,
                ));
                assert(neighbor_coords@.take(j + 1).last() == neighbor_coords@[j as int]);
            }
            match find_state_indexed(map, population, &neighbor_coords[j]) {
                Some(s) => neighbor_states.push(s),
                None => {},
            }
            j = j + 1;
        }
        proof {
            assert(neighbor_coords@.take(neighbor_coords@.len() as int) =~= neighbor_coords@);
        }
        let new_state = rec.state.new_cell_state(&neighbor_states);
        if !new_state.state_eq(&rec.state) {
            changes.push((rec.entity, new_state));
        }
        i = i + 1;
    }
    changes
}

} // verus!
