//! The part of the executor's state that running futures reach: the tasks
//! waiting for the loop to resume or to suspend, the task waiting on each
//! window, the locally spawned tasks not yet admitted, and whether the loop
//! is resumed.
use vstd::prelude::*;
use std::collections::VecDeque;
use crate::waiters::{Waiter, WaiterMap, window_waiters, new_waiter_map, get_waiter, put_waiter, take_waiter};

verus! {

/// The capacity that each queue starts with.
pub const BASE_CAPACITY: usize = 4;

/// The abstract state of an [`ExecutorShared`].
pub struct SharedState<L> {
    /// Tasks to poll once the loop resumes, in the order they asked.
    pub resume_queue: Seq<u64>,
    /// Tasks to poll once the loop suspends, in the order they asked.
    pub suspend_queue: Seq<u64>,
    /// For each window, the one waiter of its next event: the task to wake,
    /// and the future within it that waits.
    pub window_waiters: Map<u64, Waiter>,
    /// Locally spawned tasks, oldest first, that the loop has not admitted yet.
    pub spawn_queue: Seq<L>,
    /// Whether the event loop is resumed.
    pub is_resumed: bool,
}

impl<L> SharedState<L> {
    /// The state of a fresh executor: nothing queued, nothing armed, suspended.
    pub open spec fn initial() -> Self {
        SharedState {
            resume_queue: Seq::empty(),
            suspend_queue: Seq::empty(),
            window_waiters: Map::empty(),
            spawn_queue: Seq::empty(),
            is_resumed: false,
        }
    }

    pub open spec fn with_resumed(self, resumed: bool) -> Self {
        SharedState { is_resumed: resumed, ..self }
    }

    pub open spec fn queue_resume(self, task: u64) -> Self {
        SharedState { resume_queue: self.resume_queue.push(task), ..self }
    }

    pub open spec fn queue_suspend(self, task: u64) -> Self {
        SharedState { suspend_queue: self.suspend_queue.push(task), ..self }
    }

    /// The state after the resume queue is handed out.
    pub open spec fn drain_resume(self) -> Self {
        SharedState { resume_queue: Seq::empty(), ..self }
    }

    /// The state after the suspend queue is handed out.
    pub open spec fn drain_suspend(self) -> Self {
        SharedState { suspend_queue: Seq::empty(), ..self }
    }

    /// Whether some task already waits on `window`.
    pub open spec fn is_armed(self, window: u64) -> bool {
        self.window_waiters.contains_key(window)
    }

    pub open spec fn arm(self, window: u64, waiter: Waiter) -> Self {
        SharedState { window_waiters: self.window_waiters.insert(window, waiter), ..self }
    }

    /// What waits on `window`, if anything.
    pub open spec fn waiter(self, window: u64) -> Option<Waiter> {
        if self.window_waiters.contains_key(window) {
            Some(self.window_waiters[window])
        } else {
            None
        }
    }

    pub open spec fn trip(self, window: u64) -> Self {
        SharedState { window_waiters: self.window_waiters.remove(window), ..self }
    }

    pub open spec fn queue_spawn(self, task: L) -> Self {
        SharedState { spawn_queue: self.spawn_queue.push(task), ..self }
    }

    /// The state after the spawn queue is handed out.
    pub open spec fn drain_spawn(self) -> Self {
        SharedState { spawn_queue: Seq::empty(), ..self }
    }
}

/// Shared state of the executor that is indirectly exposed to futures.
pub struct ExecutorShared<L> {
    resume_queue: Vec<u64>,
    suspend_queue: Vec<u64>,
    window_event_queue: WaiterMap,
    spawn_queue: VecDeque<L>,
    is_resumed: bool,
}

impl<L> View for ExecutorShared<L> {
    type V = SharedState<L>;

    closed spec fn view(&self) -> SharedState<L> {
        SharedState {
            resume_queue: self.resume_queue@,
            suspend_queue: self.suspend_queue@,
            window_waiters: window_waiters(self.window_event_queue),
            spawn_queue: self.spawn_queue@,
            is_resumed: self.is_resumed,
        }
    }
}

impl<L> ExecutorShared<L> {
    /// A shared state with empty queues, no armed window, and the loop
    /// suspended.
    pub fn new() -> (s: Self)
        ensures
            s@ == SharedState::<L>::initial(),
    {
        let s = ExecutorShared {
            resume_queue: Vec::with_capacity(BASE_CAPACITY),
            suspend_queue: Vec::with_capacity(BASE_CAPACITY),
            window_event_queue: new_waiter_map(BASE_CAPACITY),
            spawn_queue: VecDeque::with_capacity(BASE_CAPACITY),
            is_resumed: false,
        };
        assert(s@.window_waiters =~= Map::empty());
        s
    }

    /// Whether the event loop is resumed.
    pub fn is_resumed(&self) -> (r: bool)
        ensures
            r == self@.is_resumed,
    {
        self.is_resumed
    }

    /// Records whether the event loop is resumed.
    pub fn set_resumed(&mut self, resumed: bool)
        ensures
            final(self)@ == old(self)@.with_resumed(resumed),
    {
        self.is_resumed = resumed;
    }

    /// Queues `task` to be woken up when the event loop resumes.
    pub fn queue_resume_task(&mut self, task: u64)
        ensures
            final(self)@ == old(self)@.queue_resume(task),
    {
        self.resume_queue.push(task);
    }

    /// Dequeues all tasks waiting for resume, oldest first.
    pub fn drain_resume_tasks(&mut self) -> (tasks: Vec<u64>)
        ensures
            tasks@ == old(self)@.resume_queue,
            final(self)@ == old(self)@.drain_resume(),
    {
        let mut tasks: Vec<u64> = Vec::with_capacity(BASE_CAPACITY);
        std::mem::swap(&mut self.resume_queue, &mut tasks);
        tasks
    }

    /// Queues `task` to be woken up when the event loop suspends.
    pub fn queue_suspend_task(&mut self, task: u64)
        ensures
            final(self)@ == old(self)@.queue_suspend(task),
    {
        self.suspend_queue.push(task);
    }

    /// Dequeues all tasks waiting for suspend, oldest first.
    pub fn drain_suspend_tasks(&mut self) -> (tasks: Vec<u64>)
        ensures
            tasks@ == old(self)@.suspend_queue,
            final(self)@ == old(self)@.drain_suspend(),
    {
        let mut tasks: Vec<u64> = Vec::with_capacity(BASE_CAPACITY);
        std::mem::swap(&mut self.suspend_queue, &mut tasks);
        tasks
    }

    /// What waits for the next event of `window`, if anything.
    pub fn window_waiter(&self, window: u64) -> (r: Option<Waiter>)
        ensures
            r == self@.waiter(window),
    {
        get_waiter(&self.window_event_queue, window)
    }

    /// Arms `future` of `task` to be awoken when `window` receives an event.
    /// Only one future may await any given window's events at a time; the
    /// future that already waits may arm the window again.
    pub fn arm_window_task(&mut self, window: u64, task: u64, future: u64)
        requires
            old(self)@.waiter(window) is None || old(self)@.waiter(window) == Some((task, future)),
        ensures
            final(self)@ == old(self)@.arm(window, (task, future)),
    {
        let _ = put_waiter(&mut self.window_event_queue, window, (task, future));
    }

    /// Returns what to awake for this window event, if anything, and
    /// disarms the window.
    pub fn trip_window_task(&mut self, window: u64) -> (waiter: Option<Waiter>)
        ensures
            waiter == old(self)@.waiter(window),
            final(self)@ == old(self)@.trip(window),
    {
        take_waiter(&mut self.window_event_queue, window)
    }

    /// Queues a local task to spawn on the event loop.
    pub fn queue_spawn_task(&mut self, task: L)
        ensures
            final(self)@ == old(self)@.queue_spawn(task),
    {
        self.spawn_queue.push_back(task);
    }

    /// Whether a locally spawned task waits to be admitted.
    pub fn has_spawn_task(&self) -> (r: bool)
        ensures
            r == (self@.spawn_queue.len() > 0),
    {
        self.spawn_queue.len() > 0
    }

    /// The number of locally spawned tasks that wait to be admitted.
    pub fn spawn_task_count(&self) -> (n: usize)
        ensures
            n == self@.spawn_queue.len(),
    {
        self.spawn_queue.len()
    }

    /// Dequeues all local tasks to be spawned, oldest first.
    pub fn drain_spawn_tasks(&mut self) -> (tasks: Vec<L>)
        ensures
            tasks@ == old(self)@.spawn_queue,
            final(self)@ == old(self)@.drain_spawn(),
    {
        let mut queue: VecDeque<L> = VecDeque::with_capacity(BASE_CAPACITY);
        std::mem::swap(&mut self.spawn_queue, &mut queue);
        let ghost all = queue@;
        let mut tasks: Vec<L> = Vec::with_capacity(queue.len());
        while queue.len() > 0
            invariant
                tasks@ + queue@ == all,
            decreases queue@.len(),
        {
            let ghost before = queue@;
            match queue.pop_front() {
                Some(task) => {
                    proof {
                        assert(tasks@.push(task) + queue@ =~= tasks@ + before) by {
                            assert(before =~= seq![task] + queue@);
                        }
                    }
                    tasks.push(task);
                },
                None => {},
            }
        }
        assert(tasks@ =~= tasks@ + queue@);
        tasks
    }
}

} // verus!
