//! Which task waits for the next event of which window, kept in an ahash map
//! from window id to task id.
use vstd::prelude::*;
use ahash::{AHashMap, RandomState};

verus! {

#[verifier::external_type_specification]
#[verifier::external_body]
#[verifier::reject_recursive_types(K)]
#[verifier::reject_recursive_types(V)]
#[verifier::reject_recursive_types(S)]
pub struct ExAHashMap<K, V, S>(AHashMap<K, V, S>);

#[verifier::external_type_specification]
#[verifier::external_body]
pub struct ExRandomState(RandomState);

/// What waits on a window: the id of the task to wake, and the id of the
/// future within that task that waits.
pub type Waiter = (u64, u64);

/// A map from window id to what waits for its next event.
pub type WaiterMap = AHashMap<u64, Waiter>;

/// What a window-waiter map holds: for each window id, the waiter of that
/// window's next event.
pub uninterp spec fn window_waiters(m: WaiterMap) -> Map<u64, Waiter>;

/// Calls `AHashMap::with_capacity`: the new map is empty. `requires` keeps
/// the capacity far from the sizes at which the allocation would panic.
#[verifier::external_body]
pub(crate) fn new_waiter_map(capacity: usize) -> (m: WaiterMap)
    requires
        capacity <= 4096,
    ensures
        window_waiters(m).dom() == Set::<u64>::empty(),
{
    AHashMap::with_capacity(capacity)
}

/// Calls `AHashMap::get`: the waiter that `window` maps to, if any.
#[verifier::external_body]
pub(crate) fn get_waiter(m: &WaiterMap, window: u64) -> (waiter: Option<Waiter>)
    ensures
        waiter == (if window_waiters(*m).contains_key(window) {
            Some(window_waiters(*m)[window])
        } else {
            None
        }),
{
    m.get(&window).copied()
}

/// Calls `AHashMap::insert`: afterwards `window` maps to `waiter`; the
/// result is the waiter it mapped to before, if any.
#[verifier::external_body]
pub(crate) fn put_waiter(m: &mut WaiterMap, window: u64, waiter: Waiter) -> (previous: Option<Waiter>)
    ensures
        window_waiters(*final(m)) == window_waiters(*old(m)).insert(window, waiter),
        previous == (if window_waiters(*old(m)).contains_key(window) {
            Some(window_waiters(*old(m))[window])
        } else {
            None
        }),
{
    m.insert(window, waiter)
}

/// Calls `AHashMap::remove`: afterwards `window` maps to nothing; the result
/// is the waiter it mapped to before, if any.
#[verifier::external_body]
pub(crate) fn take_waiter(m: &mut WaiterMap, window: u64) -> (previous: Option<Waiter>)
    ensures
        window_waiters(*final(m)) == window_waiters(*old(m)).remove(window),
        previous == (if window_waiters(*old(m)).contains_key(window) {
            Some(window_waiters(*old(m))[window])
        } else {
            None
        }),
{
    m.remove(&window)
}

} // verus!
