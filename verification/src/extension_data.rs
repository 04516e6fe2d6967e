use vstd::prelude::*;
use std::collections::HashMap;

verus! {

/// The address that the data entries of a thread hold for an extension, if
/// any.
pub open spec fn entry_of(entries: Map<u32, usize>, id: u32) -> Option<usize> {
    if entries.contains_key(id) {
        Some(entries[id])
    } else {
        None
    }
}

/// Stores `address` as the data of extension `id`, and gives back the
/// address stored before, which the caller then releases.
pub fn store_entry(entries: &mut HashMap<u32, usize>, id: u32, address: usize) -> (previous: Option<usize>)
    ensures
        final(entries)@ == old(entries)@.insert(id, address),
        previous == entry_of(old(entries)@, id),
        previous is None <==> !old(entries)@.contains_key(id),
        previous matches Some(p) ==> old(entries)@[id] == p,
{
    broadcast use vstd::std_specs::hash::group_hash_axioms;
    entries.insert(id, address)
}

/// The address stored as the data of extension `id`, if any.
pub fn load_entry(entries: &HashMap<u32, usize>, id: u32) -> (address: Option<usize>)
    ensures
        address == entry_of(entries@, id),
        address is None <==> !entries@.contains_key(id),
        address matches Some(a) ==> entries@[id] == a,
{
    broadcast use vstd::std_specs::hash::group_hash_axioms;
    match entries.get(&id) {
        Some(a) => Some(*a),
        None => None,
    }
}

/// An extension that has stored nothing has no data: its entry is empty
/// exactly when the entries hold nothing under its id, and otherwise it is
/// what the entries hold under its id.
pub proof fn lemma_entry_present_exactly_when_stored(entries: Map<u32, usize>, id: u32)
    ensures
        entry_of(entries, id) is None <==> !entries.contains_key(id),
        entries.contains_key(id) ==> entry_of(entries, id) == Some(entries[id]),
        entry_of(Map::empty(), id) is None,
{
}

/// Reading the data of an extension gives back what it last stored, and
/// storing leaves the data of every other extension as it was.
pub proof fn lemma_load_after_store(entries: Map<u32, usize>, id: u32, address: usize, other: u32)
    ensures
        entry_of(entries.insert(id, address), id) == Some(address),
        other != id ==> entry_of(entries.insert(id, address), other) == entry_of(entries, other),
{
}

} // verus!
