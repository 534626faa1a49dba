//! The set of pending tasks, kept in a hop slot map that hands out task keys.
#![allow(deprecated)]
use vstd::prelude::*;
use slotmap::{DefaultKey, HopSlotMap, Key, KeyData};

verus! {

/// A hop slot map of pending tasks. Each task is known by the 64-bit form
/// (`KeyData::as_ffi`) of the key that the map gave it. The map is a private
/// field, and the functions below are the only ones that touch it.
#[verifier::external_body]
pub struct TaskSlots {
    map: HopSlotMap<DefaultKey, ()>,
}

/// The keys, in their 64-bit form, of the tasks that a pending-task map holds.
pub uninterp spec fn pending_keys(m: TaskSlots) -> Set<u64>;

/// A 64-bit task key whose upper half is odd, as every key of an occupied
/// slot is.
pub open spec fn is_task_key(id: u64) -> bool {
    (id / 0x1_0000_0000) % 2 == 1
}

/// Calls `HopSlotMap::with_key`: the new map holds no task.
#[verifier::external_body]
pub(crate) fn new_task_map() -> (m: TaskSlots)
    ensures
        pending_keys(m) == Set::<u64>::empty(),
{
    TaskSlots { map: HopSlotMap::with_key() }
}

/// Calls `HopSlotMap::insert`, then turns the key into its 64-bit form with
/// `KeyData::as_ffi`. The key is one that the map did not hold; the map then
/// holds it too. The map panics at 2^32 - 2 elements, which `requires` leaves
/// out.
#[verifier::external_body]
pub(crate) fn insert_task(m: &mut TaskSlots) -> (id: u64)
    requires
        pending_keys(*old(m)).finite(),
        pending_keys(*old(m)).len() + 2 < 0x1_0000_0000,
    ensures
        is_task_key(id),
        !pending_keys(*old(m)).contains(id),
        pending_keys(*final(m)) == pending_keys(*old(m)).insert(id),
{
    m.map.insert(()).data().as_ffi()
}

/// Calls `HopSlotMap::remove` on the key whose 64-bit form is `id`
/// (`KeyData::from_ffi` gives that key back): the key leaves the map, and the
/// call reports whether it was there.
#[verifier::external_body]
pub(crate) fn remove_task(m: &mut TaskSlots, id: u64) -> (found: bool)
    requires
        is_task_key(id),
    ensures
        found == pending_keys(*old(m)).contains(id),
        pending_keys(*final(m)) == pending_keys(*old(m)).remove(id),
{
    let key: DefaultKey = KeyData::from_ffi(id).into();
    m.map.remove(key).is_some()
}

/// Calls `HopSlotMap::len`: the number of tasks the map holds.
#[verifier::external_body]
pub(crate) fn task_count(m: &TaskSlots) -> (n: usize)
    ensures
        n == pending_keys(*m).len(),
{
    m.map.len()
}

/// Calls `HopSlotMap::contains_key` on the key whose 64-bit form is `id`.
#[verifier::external_body]
pub(crate) fn holds_task(m: &TaskSlots, id: u64) -> (found: bool)
    requires
        is_task_key(id),
    ensures
        found == pending_keys(*m).contains(id),
{
    let key: DefaultKey = KeyData::from_ffi(id).into();
    m.map.contains_key(key)
}

} // verus!
