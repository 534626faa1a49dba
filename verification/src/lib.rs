//! An executor that drives futures from a windowing event loop.
//!
//! The library keeps the executor's bookkeeping: which tasks are pending,
//! which of them wait for the loop to resume or suspend, which wait for the
//! next event of a window, and which locally spawned tasks are queued. Each
//! callback of the event loop is a step of that state machine; the steps say
//! which tasks to poll next and when the loop should exit.
#![allow(deprecated)]

pub mod context;
pub mod error;
pub mod executor;
pub mod future;
pub mod laws;
pub mod shared;
pub mod slots;
pub mod waiters;

use vstd::prelude::*;
use crate::context::RuntimeSlot;
use crate::future::{ResumedFuture, SuspendedFuture};

verus! {

/// Waits until the event loop resumes. If the event loop is already resumed,
/// the future is ready at its first poll. It may only be made on the event
/// loop, where a runtime context is active in `slot`.
pub fn resumed<C>(slot: &RuntimeSlot<C>) -> ResumedFuture
    requires
        slot@ is Some,
{
    ResumedFuture::new(slot)
}

/// Waits until the event loop suspends. If the event loop is already
/// suspended, the future is ready at its first poll. It may only be made on
/// the event loop, where a runtime context is active in `slot`.
pub fn suspended<C>(slot: &RuntimeSlot<C>) -> SuspendedFuture
    requires
        slot@ is Some,
{
    SuspendedFuture::new(slot)
}

} // verus!
