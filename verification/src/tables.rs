//! The concurrent maps that hold the engine's per-element records.
//!
//! Each map is a `dashmap::DashMap` keyed by element number. Its contents are
//! named by a spec function per value type, and every method the engine uses
//! goes through a small wrapper whose contract states, over that name, what
//! the method does according to the dashmap source.

use vstd::prelude::*;
use dashmap::DashMap;
use crate::engine::{ActiveAnim, PersistentContext};
use crate::state::AnimState;

verus! {

#[verifier::external_type_specification]
#[verifier::external_body]
#[verifier::reject_recursive_types(K)]
#[verifier::reject_recursive_types(V)]
#[verifier::reject_recursive_types(S)]
pub struct ExDashMap<K, V, S>(DashMap<K, V, S>);

/// What a map of animation states holds.
pub uninterp spec fn state_table(m: DashMap<u64, AnimState>) -> Map<u64, AnimState>;

/// What a map of running animations holds.
pub uninterp spec fn active_table(m: DashMap<u64, ActiveAnim>) -> Map<u64, ActiveAnim>;

/// What a map of interrupted hovers holds.
pub uninterp spec fn interrupted_table(m: DashMap<u64, PersistentContext>) -> Map<u64, PersistentContext>;

/// What a map of held hovers holds.
pub uninterp spec fn held_table(m: DashMap<u64, PersistentContext>) -> Map<u64, PersistentContext>;

/// `DashMap::new`: an empty map.
#[verifier::external_body]
pub(crate) fn new_state_table() -> (r: DashMap<u64, AnimState>)
    ensures
        state_table(r).dom() == Set::<u64>::empty(),
{
    DashMap::new()
}

/// `DashMap::new`: an empty map.
#[verifier::external_body]
pub(crate) fn new_active_table() -> (r: DashMap<u64, ActiveAnim>)
    ensures
        active_table(r).dom() == Set::<u64>::empty(),
{
    DashMap::new()
}

/// `DashMap::new`: an empty map.
#[verifier::external_body]
pub(crate) fn new_held_table() -> (r: DashMap<u64, PersistentContext>)
    ensures
        held_table(r).dom() == Set::<u64>::empty(),
{
    DashMap::new()
}

/// `DashMap::new`: an empty map.
#[verifier::external_body]
pub(crate) fn new_interrupted_table() -> (r: DashMap<u64, PersistentContext>)
    ensures
        interrupted_table(r).dom() == Set::<u64>::empty(),
{
    DashMap::new()
}

/// `DashMap::get`, the found state copied out: the value stored under `key`,
/// if any.
#[verifier::external_body]
pub(crate) fn state_get(m: &DashMap<u64, AnimState>, key: u64) -> (r: Option<AnimState>)
    ensures
        r == (if state_table(*m).contains_key(key) { Some(state_table(*m)[key]) } else { None }),
{
    m.get(&key).map(|e| *e.value())
}

/// `DashMap::insert`: afterwards `key` maps to `value`, other keys unchanged.
#[verifier::external_body]
pub(crate) fn state_insert(m: &mut DashMap<u64, AnimState>, key: u64, value: AnimState)
    ensures
        state_table(*final(m)) == state_table(*old(m)).insert(key, value),
{
    m.insert(key, value);
}

/// `DashMap::get`, the found record cloned: the value stored under `key`,
/// if any.
#[verifier::external_body]
pub(crate) fn active_get(m: &DashMap<u64, ActiveAnim>, key: u64) -> (r: Option<ActiveAnim>)
    ensures
        r == (if active_table(*m).contains_key(key) { Some(active_table(*m)[key]) } else { None }),
{
    m.get(&key).map(|e| e.value().clone())
}

/// `DashMap::insert`: afterwards `key` maps to `value`, other keys unchanged.
#[verifier::external_body]
pub(crate) fn active_insert(m: &mut DashMap<u64, ActiveAnim>, key: u64, value: ActiveAnim)
    ensures
        active_table(*final(m)) == active_table(*old(m)).insert(key, value),
{
    m.insert(key, value);
}

/// `DashMap::remove`: the value that was stored under `key`, if any; the key
/// is gone afterwards.
#[verifier::external_body]
pub(crate) fn active_remove(m: &mut DashMap<u64, ActiveAnim>, key: u64) -> (r: Option<ActiveAnim>)
    ensures
        active_table(*final(m)) == active_table(*old(m)).remove(key),
        r == (if active_table(*old(m)).contains_key(key) {
            Some(active_table(*old(m))[key])
        } else {
            None
        }),
{
    m.remove(&key).map(|(_, v)| v)
}

/// `DashMap::is_empty`: whether the map holds no entry.
#[verifier::external_body]
pub(crate) fn active_is_empty(m: &DashMap<u64, ActiveAnim>) -> (r: bool)
    ensures
        r == (active_table(*m) == Map::<u64, ActiveAnim>::empty()),
{
    m.is_empty()
}

/// `DashMap::iter`, each entry copied out as a pair: every entry of the map
/// exactly once, in an order the map chooses.
#[verifier::external_body]
pub(crate) fn active_entries(m: &DashMap<u64, ActiveAnim>) -> (r: Vec<(u64, ActiveAnim)>)
    ensures
        forall|i: int, j: int| 0 <= i < j < r@.len() ==> r@[i].0 != r@[j].0,
        forall|i: int|
            0 <= i < r@.len() ==> active_table(*m).contains_key(#[trigger] r@[i].0)
                && active_table(*m)[r@[i].0] == r@[i].1,
        forall|k: u64|
            active_table(*m).contains_key(k) ==> exists|i: int| 0 <= i < r@.len() && #[trigger] r@[i].0 == k,
{
    m.iter().map(|e| (*e.key(), e.value().clone())).collect()
}

/// `DashMap::get`, the found record cloned: the value stored under `key`,
/// if any.
#[verifier::external_body]
pub(crate) fn held_get(m: &DashMap<u64, PersistentContext>, key: u64) -> (r: Option<PersistentContext>)
    ensures
        r == (if held_table(*m).contains_key(key) { Some(held_table(*m)[key]) } else { None }),
{
    m.get(&key).map(|e| e.value().clone())
}

/// `DashMap::insert`: afterwards `key` maps to `value`, other keys unchanged.
#[verifier::external_body]
pub(crate) fn held_insert(m: &mut DashMap<u64, PersistentContext>, key: u64, value: PersistentContext)
    ensures
        held_table(*final(m)) == held_table(*old(m)).insert(key, value),
{
    m.insert(key, value);
}

/// `DashMap::remove`: the value that was stored under `key`, if any; the key
/// is gone afterwards.
#[verifier::external_body]
pub(crate) fn held_remove(m: &mut DashMap<u64, PersistentContext>, key: u64) -> (r: Option<PersistentContext>)
    ensures
        held_table(*final(m)) == held_table(*old(m)).remove(key),
        r == (if held_table(*old(m)).contains_key(key) {
            Some(held_table(*old(m))[key])
        } else {
            None
        }),
{
    m.remove(&key).map(|(_, v)| v)
}

/// `DashMap::get`, the found record cloned: the value stored under `key`,
/// if any.
#[verifier::external_body]
pub(crate) fn interrupted_get(m: &DashMap<u64, PersistentContext>, key: u64) -> (r: Option<PersistentContext>)
    ensures
        r == (if interrupted_table(*m).contains_key(key) { Some(interrupted_table(*m)[key]) } else { None }),
{
    m.get(&key).map(|e| e.value().clone())
}

/// `DashMap::insert`: afterwards `key` maps to `value`, other keys unchanged.
#[verifier::external_body]
pub(crate) fn interrupted_insert(m: &mut DashMap<u64, PersistentContext>, key: u64, value: PersistentContext)
    ensures
        interrupted_table(*final(m)) == interrupted_table(*old(m)).insert(key, value),
{
    m.insert(key, value);
}

/// `DashMap::remove`: the value that was stored under `key`, if any; the key
/// is gone afterwards.
#[verifier::external_body]
pub(crate) fn interrupted_remove(m: &mut DashMap<u64, PersistentContext>, key: u64) -> (r: Option<PersistentContext>)
    ensures
        interrupted_table(*final(m)) == interrupted_table(*old(m)).remove(key),
        r == (if interrupted_table(*old(m)).contains_key(key) {
            Some(interrupted_table(*old(m))[key])
        } else {
            None
        }),
{
    m.remove(&key).map(|(_, v)| v)
}

} // verus!
