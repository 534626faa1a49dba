//! The futures that wait for the event loop to resume or to suspend.
use vstd::prelude::*;
use vstd::pervasive::unreached;
use crate::context::RuntimeSlot;
use crate::shared::{ExecutorShared, SharedState};

verus! {

/// What one poll of a future gave: its output is ready, or it must be polled
/// again after it is woken.
#[derive(PartialEq, Eq, Structural)]
pub enum PollState {
    Ready,
    Pending,
}

impl<L> SharedState<L> {
    /// Whether a poll of a [`ResumedFuture`] in this state is ready.
    pub open spec fn resume_ready(self) -> bool {
        self.is_resumed
    }

    /// The state after a [`ResumedFuture`] of `task` is polled.
    pub open spec fn after_resume_poll(self, task: Option<u64>) -> Self {
        if self.is_resumed {
            self
        } else {
            self.queue_resume(task->0)
        }
    }

    /// Whether a poll of a [`SuspendedFuture`] in this state is ready.
    pub open spec fn suspend_ready(self) -> bool {
        !self.is_resumed
    }

    /// The state after a [`SuspendedFuture`] of `task` is polled.
    pub open spec fn after_suspend_poll(self, task: Option<u64>) -> Self {
        if !self.is_resumed {
            self
        } else {
            self.queue_suspend(task->0)
        }
    }
}

impl<L> SharedState<L> {
    /// The state after the future `future` of `task`, which waits for the
    /// next event of `window`, is polled: unless its event was delivered,
    /// it arms the window.
    pub open spec fn after_window_poll(self, window: u64, delivered: bool, task: Option<u64>, future: u64) -> Self {
        if delivered {
            self
        } else {
            self.arm(window, (task->0, future))
        }
    }
}

/// Polls a future that waits for the next event of `window`. `delivered`
/// says whether that event was already handed to the future; `waker_task` is
/// the task whose waker the poll was given, if that waker belongs to the
/// event loop; `future` tells this future apart from every other future that
/// is alive. A future whose event was delivered is ready. Otherwise it arms
/// the window for itself and is pending; only a task of the event loop can
/// wait, and only one future may wait on a window at a time, though the one
/// that waits may be polled again.
pub fn poll_window_event<L>(
    shared: &mut ExecutorShared<L>,
    window: u64,
    delivered: bool,
    waker_task: Option<u64>,
    future: u64,
) -> (r: PollState)
    requires
        !delivered ==> waker_task is Some,
        !delivered ==> (old(shared)@.waiter(window) is None
            || old(shared)@.waiter(window) == Some((waker_task->0, future))),
    ensures
        (r == PollState::Ready) == delivered,
        final(shared)@ == old(shared)@.after_window_poll(window, delivered, waker_task, future),
{
    if delivered {
        PollState::Ready
    } else {
        match waker_task {
            Some(task) => {
                shared.arm_window_task(window, task, future);
                PollState::Pending
            },
            None => unreached(),
        }
    }
}

/// A local future that waits for the event loop to resume.
pub struct ResumedFuture(());

impl ResumedFuture {
    /// The future, registered from the event loop: a runtime context must
    /// be active in `slot`. The type has this one value.
    pub fn new<C>(slot: &RuntimeSlot<C>) -> Self
        requires
            slot@ is Some,
    {
        ResumedFuture(())
    }

    /// Polls the future within the executor's shared state. `waker_task` is
    /// the task whose waker the poll was given, if that waker belongs to the
    /// event loop. When the loop is resumed the future is ready; otherwise
    /// the task is queued to be polled again when the loop resumes, which
    /// only a task of the event loop can be.
    pub fn poll<L>(&self, shared: &mut ExecutorShared<L>, waker_task: Option<u64>) -> (r: PollState)
        requires
            !old(shared)@.is_resumed ==> waker_task is Some,
        ensures
            (r == PollState::Ready) == old(shared)@.resume_ready(),
            final(shared)@ == old(shared)@.after_resume_poll(waker_task),
    {
        if shared.is_resumed() {
            PollState::Ready
        } else {
            match waker_task {
                Some(task) => {
                    shared.queue_resume_task(task);
                    PollState::Pending
                },
                None => unreached(),
            }
        }
    }
}

/// A local future that waits for the event loop to suspend.
pub struct SuspendedFuture(());

impl SuspendedFuture {
    /// The future, registered from the event loop: a runtime context must
    /// be active in `slot`. The type has this one value.
    pub fn new<C>(slot: &RuntimeSlot<C>) -> Self
        requires
            slot@ is Some,
    {
        SuspendedFuture(())
    }

    /// Polls the future within the executor's shared state. `waker_task` is
    /// the task whose waker the poll was given, if that waker belongs to the
    /// event loop. When the loop is suspended the future is ready; otherwise
    /// the task is queued to be polled again when the loop suspends, which
    /// only a task of the event loop can be.
    pub fn poll<L>(&self, shared: &mut ExecutorShared<L>, waker_task: Option<u64>) -> (r: PollState)
        requires
            old(shared)@.is_resumed ==> waker_task is Some,
        ensures
            (r == PollState::Ready) == old(shared)@.suspend_ready(),
            final(shared)@ == old(shared)@.after_suspend_poll(waker_task),
    {
        if !shared.is_resumed() {
            PollState::Ready
        } else {
            match waker_task {
                Some(task) => {
                    shared.queue_suspend_task(task);
                    PollState::Pending
                },
                None => unreached(),
            }
        }
    }
}

} // verus!
