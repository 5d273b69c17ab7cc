//! Storing of workers in a map keyed by their [`Id`].
//!
//! Workers are only spawned from the window, so the window is the one place
//! that holds every worker. Each worker is stored under an [`Id`] handed out
//! by [`Ids`]; the value stored is the handle by which the caller finds the
//! browser's worker object again.

use vstd::prelude::*;

verus! {

/// Declares `vec_map::VecMap` to the verifier.
#[verifier::external_type_specification]
#[verifier::external_body]
#[verifier::reject_recursive_types(V)]
pub struct ExVecMap<V>(vec_map::VecMap<V>);

/// What a `VecMap<u64>` holds: the value stored under each occupied key.
pub uninterp spec fn vec_map_entries(m: vec_map::VecMap<u64>) -> Map<usize, u64>;

/// `VecMap::new`: builds a map with no entry.
#[verifier::external_body]
fn vec_map_new() -> (created: vec_map::VecMap<u64>)
    ensures
        (vec_map_entries(created) == Map::<usize, u64>::empty()),
{
    vec_map::VecMap::new()
}

/// `VecMap::insert`: stores `value` under `key` and returns what was stored
/// there before. The map grows its vector to `key + 1` slots, so `key` has
/// to stay below `usize::MAX`.
#[verifier::external_body]
fn vec_map_insert(m: &mut vec_map::VecMap<u64>, key: usize, value: u64) -> (was: Option<u64>)
    requires
        key < usize::MAX,
    ensures
        vec_map_entries(*final(m)) == vec_map_entries(*old(m)).insert(key, value),
        was == (if vec_map_entries(*old(m)).contains_key(key) {
            Some(vec_map_entries(*old(m))[key])
        } else {
            None::<u64>
        }),
{
    m.insert(key, value)
}

/// `VecMap::remove`: takes the value stored under `key` out of the map.
#[verifier::external_body]
fn vec_map_remove(m: &mut vec_map::VecMap<u64>, key: usize) -> (was: Option<u64>)
    ensures
        vec_map_entries(*final(m)) == vec_map_entries(*old(m)).remove(key),
        was == (if vec_map_entries(*old(m)).contains_key(key) {
            Some(vec_map_entries(*old(m))[key])
        } else {
            None::<u64>
        }),
{
    m.remove(key)
}

/// ID for workers.
#[derive(Clone, Copy, Debug, PartialEq, Eq, Structural)]
pub struct Id(pub usize);

/// [`Id`] counter.
#[derive(Debug)]
pub struct Ids {
    /// The value the next [`Id`] gets.
    pub counter: usize,
}

/// The counter after one more [`Id`] was handed out: it wraps around like an
/// atomic `fetch_add`.
pub open spec fn next_counter(counter: usize) -> usize {
    if counter == usize::MAX {
        0
    } else {
        (counter + 1) as usize
    }
}

impl Ids {
    /// Creates a new [`Ids`], starting at `0`.
    pub fn new() -> (ids: Self)
        ensures
            ids.counter == 0,
    {
        Ids { counter: 0 }
    }

    /// Returns the next available [`Id`].
    pub fn next(&mut self) -> (id: Id)
        ensures
            id.0 == old(self).counter,
            final(self).counter == next_counter(old(self).counter),
    {
        let id = self.counter;
        self.counter = self.counter.wrapping_add(1);
        Id(id)
    }
}

/// Two [`Id`]s handed out one after the other by the same counter differ.
pub proof fn lemma_consecutive_ids_differ(counter: usize)
    ensures
        next_counter(counter) != counter,
{
}

/// The counter after `k` more [`Id`]s were handed out from `counter`.
pub open spec fn counter_after(counter: usize, k: nat) -> usize
    decreases k,
{
    if k == 0 {
        counter
    } else {
        next_counter(counter_after(counter, (k - 1) as nat))
    }
}

/// The counter after `k` [`Id`]s is the start plus `k`, wrapped around.
pub proof fn lemma_counter_after_wraps(counter: usize, k: nat)
    ensures
        counter_after(counter, k) as int == (counter + k) % (usize::MAX as int + 1),
    decreases k,
{
    let m = usize::MAX as int + 1;
    if k > 0 {
        lemma_counter_after_wraps(counter, (k - 1) as nat);
        let before = (counter + k - 1) % m;
        vstd::arithmetic::div_mod::lemma_add_mod_noop(counter + k - 1, 1, m);
        vstd::arithmetic::div_mod::lemma_small_mod(1, m as nat);
        if before + 1 < m {
            vstd::arithmetic::div_mod::lemma_small_mod((before + 1) as nat, m as nat);
        } else {
            vstd::arithmetic::div_mod::lemma_mod_self_0(m);
        }
    } else {
        vstd::arithmetic::div_mod::lemma_small_mod(counter as nat, m as nat);
    }
}

/// [`Id`]s never repeat: of the [`Id`]s one counter hands out, the `i`-th
/// and the `j`-th differ, as long as fewer than `usize::MAX + 1` lie between
/// them (the counter wraps around only after that many).
pub proof fn lemma_ids_never_repeat(counter: usize, i: nat, j: nat)
    requires
        i < j,
        j - i <= usize::MAX,
    ensures
        counter_after(counter, i) != counter_after(counter, j),
{
    let m = usize::MAX as int + 1;
    lemma_counter_after_wraps(counter, i);
    lemma_counter_after_wraps(counter, j);
    vstd::arithmetic::div_mod::lemma_mod_equivalence(counter + j, counter + i, m);
    vstd::arithmetic::div_mod::lemma_small_mod((j - i) as nat, m as nat);
}

/// Occupied error for [`Workers::push()`].
#[derive(Clone, Copy, Debug, PartialEq, Eq, Structural)]
pub struct Occupied;

/// [`Id`] to worker map.
pub struct Workers {
    /// The workers, by [`Id`].
    pub map: vec_map::VecMap<u64>,
}

impl Workers {
    /// The workers that are stored, by the value of their [`Id`].
    pub closed spec fn entries(&self) -> Map<usize, u64> {
        vec_map_entries(self.map)
    }

    /// Creates an empty [`Workers`].
    pub fn new() -> (workers: Self)
        ensures
            (workers.entries() == Map::<usize, u64>::empty()),
    {
        Workers { map: vec_map_new() }
    }

    /// Insert a worker with the given [`Id`].
    ///
    /// Returns [`Occupied`] if a worker was stored under this [`Id`] already;
    /// the new worker takes its place all the same.
    pub fn push(&mut self, id: Id, worker: u64) -> (result: Result<(), Occupied>)
        requires
            id.0 < usize::MAX,
        ensures
            final(self).entries() == old(self).entries().insert(id.0, worker),
            result is Err <==> old(self).entries().contains_key(id.0),
    {
        match vec_map_insert(&mut self.map, id.0, worker) {
            Some(_) => Err(Occupied),
            None => Ok(()),
        }
    }

    /// Remove a worker with the given [`Id`] from the map and returns it if
    /// it's present.
    pub fn remove(&mut self, id: Id) -> (worker: Option<u64>)
        ensures
            final(self).entries() == old(self).entries().remove(id.0),
            worker == (if old(self).entries().contains_key(id.0) {
                Some(old(self).entries()[id.0])
            } else {
                None::<u64>
            }),
    {
        vec_map_remove(&mut self.map, id.0)
    }
}

/// A worker pushed under a free [`Id`] is what a removal of that [`Id`]
/// gives back, and the map is then as it was before the push.
pub proof fn lemma_push_then_remove(before: Map<usize, u64>, id: usize, worker: u64)
    requires
        !before.contains_key(id),
    ensures
        before.insert(id, worker).contains_key(id),
        before.insert(id, worker)[id] == worker,
        before.insert(id, worker).remove(id) == before,
{
    assert(before.insert(id, worker).remove(id) =~= before);
}

} // verus!
