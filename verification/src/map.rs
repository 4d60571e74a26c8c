//! The spatial index mapping positions to the entities occupying them.
use vstd::prelude::*;

use crate::cell::Cell;
use crate::Entity;

verus! {

/// The mapping described by a list of key/value pairs, later entries
/// superseding earlier ones at the same key.
spec fn pairs_to_map<K, V>(s: Seq<(K, V)>) -> Map<K, V>
    decreases s.len(),
{
    if s.len() == 0 {
        Map::empty()
    } else {
        pairs_to_map(s.drop_last()).insert(s.last().0, s.last().1)
    }
}

/// No two entries share a key.
spec fn distinct_keys<K, V>(s: Seq<(K, V)>) -> bool {
    forall|i: int, j: int| 0 <= i < j < s.len() ==> s[i].0 != s[j].0
}

/// A key is in the mapping exactly when some entry holds it.
proof fn lemma_pairs_to_map_contains<K, V>(s: Seq<(K, V)>, k: K)
    ensures
        pairs_to_map(s).contains_key(k) <==> (exists|i: int| 0 <= i < s.len() && s[i].0 == k),
    decreases s.len(),
{
    if s.len() > 0 {
        let s0 = s.drop_last();
        lemma_pairs_to_map_contains(s0, k);
        if s.last().0 == k {
            assert(s[s.len() - 1].0 == k);
        } else if exists|i: int| 0 <= i < s0.len() && s0[i].0 == k {
            let i = choose|i: int| 0 <= i < s0.len() && s0[i].0 == k;
            assert(s[i].0 == k);
        } else if exists|i: int| 0 <= i < s.len() && s[i].0 == k {
            let i = choose|i: int| 0 <= i < s.len() && s[i].0 == k;
            assert(s0[i].0 == k);
        }
    }
}

/// With distinct keys, each entry's key maps to that entry's value.
proof fn lemma_pairs_to_map_get<K, V>(s: Seq<(K, V)>, i: int)
    requires
        distinct_keys(s),
        0 <= i < s.len(),
    ensures
        pairs_to_map(s).contains_key(s[i].0),
        pairs_to_map(s)[s[i].0] == s[i].1,
    decreases s.len(),
{
    let s0 = s.drop_last();
    if i < s.len() - 1 {
        assert(distinct_keys(s0));
        lemma_pairs_to_map_get(s0, i);
        assert(s0[i] == s[i]);
        assert(s.last().0 != s[i].0);
    }
}

/// Removing an entry removes exactly its key from the mapping.
proof fn lemma_pairs_to_map_remove<K, V>(s: Seq<(K, V)>, i: int)
    requires
        distinct_keys(s),
        0 <= i < s.len(),
    ensures
        pairs_to_map(s.remove(i)) == pairs_to_map(s).remove(s[i].0),
    decreases s.len(),
{
    let s0 = s.drop_last();
    let k = s[i].0;
    if i == s.len() - 1 {
        assert(s.remove(i) =~= s0);
        lemma_pairs_to_map_contains(s0, k);
        assert(forall|j: int| 0 <= j < s0.len() ==> s[j].0 == s0[j].0);
        assert(!pairs_to_map(s0).contains_key(k));
        assert(pairs_to_map(s0).insert(k, s.last().1).remove(k) =~= pairs_to_map(s0));
    } else {
        assert(distinct_keys(s0));
        lemma_pairs_to_map_remove(s0, i);
        s.remove_ensures(i);
        s0.remove_ensures(i);
        assert(s.remove(i).drop_last() =~= s0.remove(i));
        assert(s.remove(i).last() == s.last());
        let lk = s.last().0;
        let lv = s.last().1;
        assert(lk != k);
        assert(pairs_to_map(s.remove(i)) == pairs_to_map(s0.remove(i)).insert(lk, lv));
        assert(pairs_to_map(s0).remove(k).insert(lk, lv) =~= pairs_to_map(s0).insert(
            lk,
            lv,
        ).remove(k));
    }
}

/// Global cell container: the spatial index resolving a position to the
/// entity occupying it.
///
/// Viewed as a [`Map`] from coordinates to entities. At most one entity
/// occupies a position at a time; a second registration at the same position
/// supersedes the first (see `insert_cell`).
pub struct CellMap<C: Cell> {
    entries: Vec<(C::Coordinates, Entity)>,
}

impl<C: Cell> View for CellMap<C> {
    type V = Map<C::Coordinates, Entity>;

    closed spec fn view(&self) -> Map<C::Coordinates, Entity> {
        pairs_to_map(self.entries@)
    }
}

impl<C: Cell> CellMap<C> {
    /// The index's internal invariant: no position occurs twice in the entry
    /// list. Constructors establish it and every method preserves it.
    pub closed spec fn wf(&self) -> bool {
        distinct_keys(self.entries@)
    }

    /// The position of `coordinates` in the entry list, if present.
    fn find_index(&self, coordinates: &C::Coordinates) -> (r: Option<usize>)
        ensures
            match r {
                Some(i) => i < self.entries@.len() && self.entries@[i as int].0 == *coordinates,
                None => forall|i: int|
                    0 <= i < self.entries@.len() ==> self.entries@[i].0 != *coordinates,
            },
    {
        let mut i: usize = 0;
        while i < self.entries.len()
            invariant
                i <= self.entries@.len(),
                forall|j: int| 0 <= j < i ==> self.entries@[j].0 != *coordinates,
            decreases self.entries@.len() - i,
        {
            if C::coordinates_eq(&self.entries[i].0, coordinates) {
                return Some(i);
            }
            i = i + 1;
        }
        None
    }

    /// Adds a `Cell` entity to the map at `coordinates`.
    ///
    /// # Returns
    ///
    /// If the map did not have this key present, `None` is returned.
    /// If the map did have this key present, the value is updated, and the
    /// old value is returned: the previous occupant is displaced and the most
    /// recent registration wins the position.
    pub fn insert_cell(&mut self, coordinates: C::Coordinates, entity: Entity) -> (r: Option<
        Entity,
    >)
        requires
            old(self).wf(),
        ensures
            final(self).wf(),
            final(self)@ == old(self)@.insert(coordinates, entity),
            r == if old(self)@.contains_key(coordinates) {
                Some(old(self)@[coordinates])
            } else {
                None::<Entity>
            },
    {
        let ghost s = self.entries@;
        match self.find_index(&coordinates) {
            Some(i) => {
                proof {
                    lemma_pairs_to_map_contains(s, coordinates);
                    lemma_pairs_to_map_get(s, i as int);
                    lemma_pairs_to_map_remove(s, i as int);
                    s.remove_ensures(i as int);
                }
                let pair = self.entries.remove(i);
                self.entries.push((coordinates, entity));
                proof {
                    let t = self.entries@;
                    assert(t.drop_last() =~= s.remove(i as int));
                    assert(forall|a: int, b: int|
                        0 <= a < b < s.remove(i as int).len() ==> s.remove(i as int)[a].0 != s.remove(
                            i as int,
                        )[b].0);
                    assert(forall|a: int|
                        0 <= a < s.remove(i as int).len() ==> s.remove(i as int)[a].0
                            != coordinates);
                    assert(distinct_keys(t));
                    assert(pairs_to_map(t) == pairs_to_map(s.remove(i as int)).insert(
                        coordinates,
                        entity,
                    ));
                    assert(pairs_to_map(s).remove(coordinates).insert(coordinates, entity)
                        =~= pairs_to_map(s).insert(coordinates, entity));
                }
                Some(pair.1)
            },
            None => {
                proof {
                    lemma_pairs_to_map_contains(s, coordinates);
                }
                self.entries.push((coordinates, entity));
                proof {
                    let t = self.entries@;
                    assert(t.drop_last() =~= s);
                    assert(distinct_keys(t));
                }
                None
            },
        }
    }

    /// Removes a cell from the map, returning the `Entity` value if it was
    /// present.
    pub fn remove_cell(&mut self, coordinates: &C::Coordinates) -> (r: Option<Entity>)
        requires
            old(self).wf(),
        ensures
            final(self).wf(),
            final(self)@ == old(self)@.remove(*coordinates),
            r == if old(self)@.contains_key(*coordinates) {
                Some(old(self)@[*coordinates])
            } else {
                None::<Entity>
            },
    {
        let ghost s = self.entries@;
        match self.find_index(coordinates) {
            Some(i) => {
                proof {
                    lemma_pairs_to_map_contains(s, *coordinates);
                    lemma_pairs_to_map_get(s, i as int);
                    lemma_pairs_to_map_remove(s, i as int);
                    s.remove_ensures(i as int);
                }
                let pair = self.entries.remove(i);
                proof {
                    let t = self.entries@;
                    assert(forall|a: int, b: int| 0 <= a < b < t.len() ==> t[a].0 != t[b].0);
                }
                Some(pair.1)
            },
            None => {
                proof {
                    lemma_pairs_to_map_contains(s, *coordinates);
                    assert(pairs_to_map(s).remove(*coordinates) =~= pairs_to_map(s));
                }
                None
            },
        }
    }

    /// Retrieves a cell entity using its `coordinates`.
    pub fn get_cell(&self, coordinates: &C::Coordinates) -> (r: Option<Entity>)
        requires
            self.wf(),
        ensures
            r == if self@.contains_key(*coordinates) {
                Some(self@[*coordinates])
            } else {
                None::<Entity>
            },
    {
        match self.find_index(coordinates) {
            Some(i) => {
                proof {
                    lemma_pairs_to_map_get(self.entries@, i as int);
                }
                Some(self.entries[i].1)
            },
            None => {
                proof {
                    lemma_pairs_to_map_contains(self.entries@, *coordinates);
                }
                None
            },
        }
    }

    /// Retrieves every cell entity matching `coords`, in order. Coordinates
    /// that are not stored in the cell map are ignored, so the result may be
    /// shorter than the input.
    pub fn get_cell_entities(&self, coords: &Vec<C::Coordinates>) -> (r: Vec<Entity>)
        requires
            self.wf(),
        ensures
            r@ == lookup_many(self@, coords@),
    {
        let mut r: Vec<Entity> = Vec::new();
        let mut i: usize = 0;
        while i < coords.len()
            invariant
                self.wf(),
                i <= coords@.len(),
                r@ == lookup_many(self@, coords@.take(i as int)),
            decreases coords@.len() - i,
        {
            match self.get_cell(&coords[i]) {
                Some(e) => r.push(e),
                None => {},
            }
            proof {
                assert(coords@.take(i + 1).drop_last() =~= coords@.take(i as int));
                assert(coords@.take(i + 1).last() == coords@[i as int]);
            }
            i = i + 1;
        }
        proof {
            assert(coords@.take(coords@.len() as int) =~= coords@);
        }
        r
    }

    /// Clears the entire map.
    pub fn clear(&mut self)
        ensures
            final(self).wf(),
            final(self)@ == Map::<C::Coordinates, Entity>::empty(),
    {
        self.entries.clear();
    }
}

impl<C: Cell> Default for CellMap<C> {
    /// An empty index.
    fn default() -> (r: Self)
        ensures
            r.wf(),
            r@ == Map::<C::Coordinates, Entity>::empty(),
    {
        CellMap { entries: Vec::new() }
    }
}

/// The entities occupying `coords` in `m`, in the order of `coords`;
/// positions absent from `m` contribute nothing.
pub open spec fn lookup_many<K, V>(m: Map<K, V>, coords: Seq<K>) -> Seq<V>
    decreases coords.len(),
{
    if coords.len() == 0 {
        Seq::empty()
    } else {
        lookup_many(m, coords.drop_last()) + (if m.contains_key(coords.last()) {
            seq![m[coords.last()]]
        } else {
            Seq::empty()
        })
    }
}

/// One lifecycle-bookkeeping action on the spatial index.
pub enum IndexOp<K> {
    /// A cell entered the simulation: its position now resolves to its
    /// handle.
    Register(K, Entity),
    /// A cell left the simulation: its position no longer resolves.
    Deregister(K),
}

/// The index after performing `ops` on `m`, in order.
pub open spec fn apply_index_ops<K>(m: Map<K, Entity>, ops: Seq<IndexOp<K>>) -> Map<K, Entity>
    decreases ops.len(),
{
    if ops.len() == 0 {
        m
    } else {
        let m0 = apply_index_ops(m, ops.drop_last());
        match ops.last() {
            IndexOp::Register(k, e) => m0.insert(k, e),
            IndexOp::Deregister(k) => m0.remove(k),
        }
    }
}

/// The handle of the most recently registered cell still occupying `k` after
/// `ops` ran on `m`: the handle of the last registration at `k`, unless a
/// later deregistration of `k` follows it; where `ops` never touches `k`,
/// whatever `m` held.
pub open spec fn latest_occupant<K>(m: Map<K, Entity>, ops: Seq<IndexOp<K>>, k: K) -> Option<
    Entity,
>
    decreases ops.len(),
{
    if ops.len() == 0 {
        if m.contains_key(k) {
            Some(m[k])
        } else {
            None
        }
    } else {
        match ops.last() {
            IndexOp::Register(k2, e) => if k2 == k {
                Some(e)
            } else {
                latest_occupant(m, ops.drop_last(), k)
            },
            IndexOp::Deregister(k2) => if k2 == k {
                None
            } else {
                latest_occupant(m, ops.drop_last(), k)
            },
        }
    }
}

/// Index consistency: after any sequence of registrations and
/// deregistrations, a position resolves to the handle of the most recently
/// registered cell still occupying it, and to nothing when no live cell
/// occupies it.
pub proof fn lemma_index_consistency<K>(m: Map<K, Entity>, ops: Seq<IndexOp<K>>, k: K)
    ensures
        ({
            let result = apply_index_ops(m, ops);
            latest_occupant(m, ops, k) == if result.contains_key(k) {
                Some(result[k])
            } else {
                None::<Entity>
            }
        }),
    decreases ops.len(),
{
    if ops.len() > 0 {
        lemma_index_consistency(m, ops.drop_last(), k);
    }
}

} // verus!
