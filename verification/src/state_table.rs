//! Hash-keyed stores for projected search states.
//!
//! Both search algorithms deduplicate states by their projection key (see
//! `PhysState::spec_state_key`).  The keys live in hashbrown tables held in
//! opaque wrappers; each operation's contract states, over the named
//! contents, what the table's own documentation promises.  Declaring
//! hashbrown's map type itself is not possible here: its allocator type
//! parameter is bounded by a trait of a crate this one does not depend on.

use vstd::prelude::*;

verus! {

/// The projection key of one search state: coarsened position, coarsened
/// vertical velocity, health, and the up-move flag.
pub type StateKey = (i64, i64, i64, i64, bool);

/// A map from projection keys to indices into the search arena.
#[verifier::external_body]
pub struct StateMap {
    map: hashbrown::HashMap<StateKey, usize>,
}

/// What a [`StateMap`] holds.
pub uninterp spec fn state_map_of(m: StateMap) -> Map<StateKey, usize>;

/// Relies on hashbrown::HashMap::new: the new map is empty.
#[verifier::external_body]
pub fn state_map_new() -> (r: StateMap)
    ensures
        forall|k: StateKey| !state_map_of(r).dom().contains(k),
{
    StateMap { map: hashbrown::HashMap::new() }
}

/// Relies on hashbrown::HashMap::insert: afterwards the key maps to the
/// value and every other key is unchanged.
#[verifier::external_body]
pub fn state_map_insert(m: &mut StateMap, k: StateKey, v: usize)
    ensures
        state_map_of(*final(m)) == state_map_of(*old(m)).insert(k, v),
{
    m.map.insert(k, v);
}

/// Relies on hashbrown::HashMap::get: the value stored under the key, if
/// the key is present.
#[verifier::external_body]
pub fn state_map_get(m: &StateMap, k: StateKey) -> (r: Option<usize>)
    ensures
        r == (if state_map_of(*m).dom().contains(k) {
            Some(state_map_of(*m)[k])
        } else {
            None::<usize>
        }),
{
    m.map.get(&k).copied()
}

/// A set of projection keys.
#[verifier::external_body]
pub struct StateSet {
    set: hashbrown::HashSet<StateKey>,
}

/// What a [`StateSet`] holds.
pub uninterp spec fn state_set_of(s: StateSet) -> Set<StateKey>;

/// Relies on hashbrown::HashSet::new: the new set is empty.
#[verifier::external_body]
pub fn state_set_new() -> (r: StateSet)
    ensures
        forall|k: StateKey| !state_set_of(r).contains(k),
{
    StateSet { set: hashbrown::HashSet::new() }
}

/// Relies on hashbrown::HashSet::insert: the key is added, and the result
/// says whether it was absent before.
#[verifier::external_body]
pub fn state_set_insert(s: &mut StateSet, k: StateKey) -> (newly: bool)
    ensures
        newly == !state_set_of(*old(s)).contains(k),
        state_set_of(*final(s)) == state_set_of(*old(s)).insert(k),
{
    s.set.insert(k)
}

} // verus!
