//! The per-consumer acknowledgement table, kept in an `intmap::IntMap`.
//!
//! Verus does not look inside the map. Its contents are named by
//! [`acknowledgements`], and the functions below state, unproved, what the
//! map's methods do to those contents.

use vstd::prelude::*;
use intmap::IntMap;

verus! {

/// `intmap::IntMap`, declared so that it can stand in fields and
/// signatures. Nothing inside it is visible to proofs.
#[verifier::external_type_specification]
#[verifier::external_body]
#[verifier::reject_recursive_types(K)]
#[verifier::reject_recursive_types(V)]
pub struct ExIntMap<K, V>(IntMap<K, V>);

/// The key/value pairs that a table holds: consumer identity to the tick
/// that the consumer has acknowledged.
pub uninterp spec fn acknowledgements(table: IntMap<usize, u32>) -> Map<usize, u32>;

/// The number of entries that a table holds, as the map itself counts them.
pub uninterp spec fn entry_count(table: IntMap<usize, u32>) -> nat;

/// The largest number of entries a table may hold before another insertion.
/// `IntMap::insert` multiplies the number of entries by 1000 when it decides
/// whether to grow, so the product has to fit in a `usize`.
pub open spec fn entry_limit() -> nat {
    (usize::MAX / 1000) as nat
}

/// The table without entries.
pub open spec fn no_entries() -> Map<usize, u32> {
    Map::empty()
}

/// `IntMap::new`: a table without entries, whose count is 0. Unproved.
#[verifier::external_body]
pub(crate) fn empty_table() -> (fresh: IntMap<usize, u32>)
    ensures
        acknowledgements(fresh) == no_entries(),
        entry_count(fresh) == 0,
{
    IntMap::new()
}

/// `IntMap::len`: the map's count of its entries. Unproved.
#[verifier::external_body]
pub(crate) fn table_len(table: &IntMap<usize, u32>) -> (n: usize)
    ensures
        n == entry_count(*table),
{
    table.len()
}

/// `IntMap::get`: the tick stored under `consumer`, if there is one.
/// Unproved.
#[verifier::external_body]
pub(crate) fn table_get(table: &IntMap<usize, u32>, consumer: usize) -> (found: Option<u32>)
    ensures
        found == (if acknowledgements(*table).contains_key(consumer) {
            Some(acknowledgements(*table)[consumer])
        } else {
            None
        }),
{
    table.get(consumer).copied()
}

/// The count of a table after `consumer` got an entry: one more where it
/// had none.
pub open spec fn count_after_insert(table: IntMap<usize, u32>, consumer: usize) -> nat {
    if acknowledgements(table).contains_key(consumer) {
        entry_count(table)
    } else {
        entry_count(table) + 1
    }
}

/// `IntMap::insert`: stores `tick` under `consumer`, replacing what was
/// there, and leaves every other entry as it was; the count grows by one
/// where the consumer had no entry. Unproved. The bound on the number of
/// entries keeps the map's growth arithmetic from overflowing.
#[verifier::external_body]
pub(crate) fn table_insert(table: &mut IntMap<usize, u32>, consumer: usize, tick: u32)
    requires
        entry_count(*old(table)) <= entry_limit(),
    ensures
        acknowledgements(*final(table)) == acknowledgements(*old(table)).insert(consumer, tick),
        entry_count(*final(table)) == count_after_insert(*old(table), consumer),
{
    table.insert(consumer, tick);
}

} // verus!
