//! Trusted interface to the persistent ordered map the window registry is
//! kept in.
//!
//! The map type itself is opaque to verification; [`ordmap_as_map`] names
//! its contents, and each wrapper states over that name what the map
//! operation it calls does, as the map crate's source shows it.

use vstd::prelude::*;

verus! {

#[verifier::external_type_specification]
#[verifier::external_body]
#[verifier::reject_recursive_types(K)]
#[verifier::reject_recursive_types(V)]
pub struct ExOrdMap<K, V>(im::OrdMap<K, V>);

/// The key-value pairs a window-id map holds.
pub uninterp spec fn ordmap_as_map(m: im::OrdMap<u64, u64>) -> Map<u64, u64>;

/// Relies on im::OrdMap::new: constructs a map holding no entries.
#[verifier::external_body]
pub(crate) fn ordmap_new() -> (r: im::OrdMap<u64, u64>)
    ensures
        (ordmap_as_map(r) == Map::<u64, u64>::empty()),
{
    im::OrdMap::new()
}

/// Relies on im::OrdMap::len: the number of entries in the map.
#[verifier::external_body]
pub(crate) fn ordmap_len(m: &im::OrdMap<u64, u64>) -> (n: usize)
    ensures
        n == ordmap_as_map(*m).dom().len(),
{
    m.len()
}

/// Relies on im::OrdMap::contains_key: whether the map holds the key.
#[verifier::external_body]
pub(crate) fn ordmap_contains_key(m: &im::OrdMap<u64, u64>, k: u64) -> (b: bool)
    ensures
        b == ordmap_as_map(*m).dom().contains(k),
{
    m.contains_key(&k)
}

/// Relies on im::OrdMap::get: the value under the key, if the map holds
/// it.
#[verifier::external_body]
pub(crate) fn ordmap_get(m: &im::OrdMap<u64, u64>, k: u64) -> (r: Option<u64>)
    ensures
        r == (if ordmap_as_map(*m).dom().contains(k) {
            Some(ordmap_as_map(*m)[k])
        } else {
            None::<u64>
        }),
{
    m.get(&k).copied()
}

/// Relies on im::OrdMap::insert: adds the mapping, overwriting and
/// returning any previous value under the key.
#[verifier::external_body]
pub(crate) fn ordmap_insert(m: &mut im::OrdMap<u64, u64>, k: u64, v: u64) -> (prev: Option<u64>)
    ensures
        ordmap_as_map(*final(m)) == ordmap_as_map(*old(m)).insert(k, v),
        prev == (if ordmap_as_map(*old(m)).dom().contains(k) {
            Some(ordmap_as_map(*old(m))[k])
        } else {
            None::<u64>
        }),
{
    m.insert(k, v)
}

/// Relies on im::OrdMap::remove: removes the mapping under the key, if
/// any, and returns its value.
#[verifier::external_body]
pub(crate) fn ordmap_remove(m: &mut im::OrdMap<u64, u64>, k: u64) -> (prev: Option<u64>)
    ensures
        ordmap_as_map(*final(m)) == ordmap_as_map(*old(m)).remove(k),
        prev == (if ordmap_as_map(*old(m)).dom().contains(k) {
            Some(ordmap_as_map(*old(m))[k])
        } else {
            None::<u64>
        }),
{
    m.remove(&k)
}

} // verus!
