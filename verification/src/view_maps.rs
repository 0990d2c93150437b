//! The two `bevy_platform` hash maps that back the registry of native views,
//! and trusted wrappers of the map methods that the registry calls.
//!
//! Each map is described by what it holds: a `Map` from keys to values.
//! The wrappers state what `bevy_platform`'s documentation (and hashbrown's,
//! to which each method forwards) says of `new`, `insert`, `get` and `remove`.

use vstd::prelude::*;
use bevy_platform::collections::HashMap;
use bevy_platform::hash::FixedHasher;
use crate::app_views::AppViewWindow;

verus! {

#[verifier::external_type_specification]
#[verifier::external_body]
#[verifier::reject_recursive_types(K)]
#[verifier::reject_recursive_types(V)]
#[verifier::reject_recursive_types(S)]
pub struct ExBevyHashMap<K, V, S>(HashMap<K, V, S>);

#[verifier::external_type_specification]
#[verifier::external_body]
pub struct ExFixedHasher(FixedHasher);

/// What a map from entity bits to window ids holds.
pub uninterp spec fn window_ids_of(map: HashMap<u64, u64>) -> Map<u64, u64>;

/// What a map from window ids to windows holds.
pub uninterp spec fn windows_of(map: HashMap<u64, AppViewWindow>) -> Map<u64, AppViewWindow>;

/// `HashMap::new` (bevy_platform): the new map holds nothing.
#[verifier::external_body]
pub(crate) fn new_window_id_map() -> (created: HashMap<u64, u64>)
    ensures
        window_ids_of(created) =~= Map::empty(),
{
    HashMap::new()
}

/// `HashMap::insert` (bevy_platform): afterwards `key` maps to `value` and every
/// other key keeps its value; the result is the value that `key` had before.
#[verifier::external_body]
pub(crate) fn insert_window_id(map: &mut HashMap<u64, u64>, key: u64, value: u64) -> (previous: Option<u64>)
    ensures
        window_ids_of(*final(map)) == window_ids_of(*old(map)).insert(key, value),
        previous == window_ids_of(*old(map)).get(key),
{
    map.insert(key, value)
}

/// `HashMap::get` (bevy_platform): the value that `key` maps to, if any
/// (copied out of the map).
#[verifier::external_body]
pub(crate) fn get_window_id(map: &HashMap<u64, u64>, key: u64) -> (found: Option<u64>)
    ensures
        found == window_ids_of(*map).get(key),
{
    map.get(&key).copied()
}

/// `HashMap::remove` (bevy_platform): `key` no longer maps to anything and every
/// other key keeps its value; the result is the value that `key` had.
#[verifier::external_body]
pub(crate) fn remove_window_id(map: &mut HashMap<u64, u64>, key: u64) -> (removed: Option<u64>)
    ensures
        window_ids_of(*final(map)) == window_ids_of(*old(map)).remove(key),
        removed == window_ids_of(*old(map)).get(key),
{
    map.remove(&key)
}

/// `HashMap::new` (bevy_platform): the new map holds nothing.
#[verifier::external_body]
pub(crate) fn new_window_map() -> (created: HashMap<u64, AppViewWindow>)
    ensures
        windows_of(created) =~= Map::empty(),
{
    HashMap::new()
}

/// `HashMap::insert` (bevy_platform): afterwards `key` maps to `value` and every
/// other key keeps its value; the result is the value that `key` had before.
#[verifier::external_body]
pub(crate) fn insert_window(
    map: &mut HashMap<u64, AppViewWindow>,
    key: u64,
    value: AppViewWindow,
) -> (previous: Option<AppViewWindow>)
    ensures
        windows_of(*final(map)) == windows_of(*old(map)).insert(key, value),
        previous == windows_of(*old(map)).get(key),
{
    map.insert(key, value)
}

/// `HashMap::get` (bevy_platform): the value that `key` maps to, if any
/// (copied out of the map).
#[verifier::external_body]
pub(crate) fn get_window(map: &HashMap<u64, AppViewWindow>, key: u64) -> (found: Option<AppViewWindow>)
    ensures
        found == windows_of(*map).get(key),
{
    map.get(&key).copied()
}

/// `HashMap::remove` (bevy_platform): `key` no longer maps to anything and every
/// other key keeps its value; the result is the value that `key` had.
#[verifier::external_body]
pub(crate) fn remove_window(map: &mut HashMap<u64, AppViewWindow>, key: u64) -> (removed: Option<AppViewWindow>)
    ensures
        windows_of(*final(map)) == windows_of(*old(map)).remove(key),
        removed == windows_of(*old(map)).get(key),
{
    map.remove(&key)
}

} // verus!
