//! Trusted interface to the fixed-capacity index map of the `heapless`
//! crate, used as the registry of filter ids.
//!
//! The registry maps each configured filter id to the position of its
//! session. Verus sees the map as opaque; the functions here give each
//! operation the contract that the crate's source shows, phrased over
//! [`registry_map`], the key-value pairs the map holds.

use vstd::prelude::*;

verus! {

#[verifier::external_type_specification]
#[verifier::external_body]
#[verifier::reject_recursive_types(K)]
#[verifier::reject_recursive_types(V)]
#[verifier::reject_recursive_types(S)]
pub struct ExHeaplessIndexMap<K, V, S, const N: usize>(heapless::IndexMap<K, V, S, N>);

#[verifier::external_type_specification]
#[verifier::external_body]
#[verifier::reject_recursive_types(H)]
pub struct ExBuildHasherDefault<H>(hash32::BuildHasherDefault<H>);

#[verifier::external_type_specification]
#[verifier::external_body]
pub struct ExFnvHasher(hash32::FnvHasher);

/// The key-value pairs the registry holds.
pub uninterp spec fn registry_map(m: heapless::FnvIndexMap<u32, usize, 4>) -> Map<u32, usize>;

/// The registry with nothing in it.
pub open spec fn empty_registry() -> Map<u32, usize> {
    Map::empty()
}

/// Relies on heapless::IndexMap::new: the new map is empty.
#[verifier::external_body]
pub fn registry_new() -> (r: heapless::FnvIndexMap<u32, usize, 4>)
    ensures
        registry_map(r) == empty_registry(),
{
    heapless::FnvIndexMap::new()
}

/// Relies on heapless::IndexMap::contains_key.
#[verifier::external_body]
pub fn registry_contains(m: &heapless::FnvIndexMap<u32, usize, 4>, key: u32) -> (r: bool)
    ensures
        r == registry_map(*m).dom().contains(key),
{
    m.contains_key(&key)
}

/// Relies on heapless::IndexMap::insert: adds or replaces the entry, and
/// fails exactly when the map is full and the key is new.
#[verifier::external_body]
pub fn registry_insert(m: &mut heapless::FnvIndexMap<u32, usize, 4>, key: u32, value: usize) -> (r:
    bool)
    ensures
        r <==> (registry_map(*old(m)).dom().contains(key) || registry_map(*old(m)).dom().len()
            < 4),
        r ==> registry_map(*final(m)) == registry_map(*old(m)).insert(key, value),
        !r ==> registry_map(*final(m)) == registry_map(*old(m)),
{
    match m.insert(key, value) {
        Ok(_) => true,
        Err(_) => false,
    }
}

} // verus!
