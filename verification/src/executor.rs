//! The executor as a state machine: each callback of the event loop is a
//! step that updates the bookkeeping and names the tasks to poll next; the
//! outcome of each poll is fed back and decides when the loop exits.
use vstd::prelude::*;
use vstd::pervasive::unreached;
use crate::future::PollState;
use crate::shared::{ExecutorShared, SharedState};
use crate::waiters::Waiter;
use crate::slots::{TaskSlots, pending_keys, is_task_key, new_task_map, insert_task, remove_task, holds_task, task_count};

verus! {

/// State of the main execution task.
#[derive(PartialEq, Eq, Structural)]
pub enum MainTask {
    /// The main task is not created yet.
    Ready,
    /// The main task has started; this is its id.
    Running(u64),
}

impl MainTask {
    /// The id of the main task, which must have started.
    pub fn id(&self) -> (id: u64)
        requires
            *self is Running,
        ensures
            id == self->Running_0,
    {
        match self {
            MainTask::Running(id) => *id,
            MainTask::Ready => unreached(),
        }
    }
}

/// Why the event loop woke up, as far as the executor cares.
pub enum StartCause {
    /// The loop starts for the first time.
    Init,
    /// Any later wake-up.
    Other,
}

/// Events that may be passed to the executor from outside the event loop.
pub enum UserEvent {
    /// A waker was tripped: the task with this id needs to be polled.
    Wake { id: u64 },
    /// A new task was submitted to the runtime from another thread.
    NewSend,
    /// A new local task was submitted to the runtime.
    NewLocal,
}

/// What the loop does after a user event.
pub enum UserStep<L> {
    /// Poll the task with this id.
    Poll(u64),
    /// Store the submitted task under this fresh id, then poll it.
    AdmitSend(u64),
    /// Store each locally spawned task under the fresh id beside it, then
    /// poll them in this order, which is the order they were spawned in.
    AdmitLocal(Vec<(u64, L)>),
}

/// The ids that an admission list gives out.
pub open spec fn ids_of<L>(admitted: Seq<(u64, L)>) -> Set<u64> {
    Set::new(|id: u64| exists|i: int| 0 <= i < admitted.len() && admitted[i].0 == id)
}

/// The abstract state of an [`Executor`].
pub struct ExecutorState<L> {
    pub main: MainTask,
    /// The ids of the tasks that have not completed.
    pub pending: Set<u64>,
    pub shared: SharedState<L>,
}

impl<L> ExecutorState<L> {
    /// Every pending id is a task key, and there are finitely many.
    pub open spec fn wf(self) -> bool {
        &&& self.pending.finite()
        &&& forall|id: u64| #[trigger] self.pending.contains(id) ==> is_task_key(id)
    }

    /// There is room in the slot map for another task.
    pub open spec fn has_room(self) -> bool {
        self.has_room_for(1)
    }

    /// There is room in the slot map for `n` more tasks.
    pub open spec fn has_room_for(self, n: nat) -> bool {
        self.pending.len() + n + 1 < 0x1_0000_0000
    }

    pub open spec fn main_started(self) -> bool {
        self.main is Running
    }

    /// `id` is a fresh task id for this state.
    pub open spec fn fresh(self, id: u64) -> bool {
        is_task_key(id) && !self.pending.contains(id)
    }

    /// The state after a task is admitted under `id`.
    pub open spec fn with_task(self, id: u64) -> Self {
        ExecutorState { pending: self.pending.insert(id), ..self }
    }

    /// The state after tasks are admitted under each of `ids`.
    pub open spec fn with_tasks(self, ids: Set<u64>) -> Self {
        ExecutorState { pending: self.pending.union(ids), ..self }
    }

    /// `admitted` pairs each queued local task, in queue order, with an id
    /// that is fresh for this state, no two alike.
    pub open spec fn admits_queue(self, admitted: Seq<(u64, L)>) -> bool {
        &&& admitted.len() == self.shared.spawn_queue.len()
        &&& forall|i: int| 0 <= i < admitted.len() ==>
            #[trigger] admitted[i].1 == self.shared.spawn_queue[i] && self.fresh(admitted[i].0)
        &&& forall|i: int, j: int| 0 <= i < j < admitted.len() ==> admitted[i].0 != admitted[j].0
    }

    /// The state after the main task is admitted under `id`.
    pub open spec fn start_main(self, id: u64) -> Self {
        ExecutorState { main: MainTask::Running(id), pending: self.pending.insert(id), ..self }
    }

    pub open spec fn with_shared(self, shared: SharedState<L>) -> Self {
        ExecutorState { shared: shared, ..self }
    }

    /// The state after task `id` was polled with `outcome`: a task that is
    /// ready is done and leaves the pending set.
    pub open spec fn after_poll(self, id: u64, outcome: PollState) -> Self {
        if outcome == PollState::Ready {
            ExecutorState { pending: self.pending.remove(id), ..self }
        } else {
            self
        }
    }

    /// Whether the loop exits after task `id` was polled with `outcome`: it
    /// does when the main task completes.
    pub open spec fn exits_after(self, id: u64, outcome: PollState) -> bool {
        outcome == PollState::Ready && self.main == MainTask::Running(id)
    }

    /// The state after the loop resumes.
    pub open spec fn on_resumed(self) -> Self {
        self.with_shared(self.shared.with_resumed(true).drain_resume())
    }

    /// The state after the loop suspends.
    pub open spec fn on_suspended(self) -> Self {
        self.with_shared(self.shared.with_resumed(false).drain_suspend())
    }

    /// The state after `window` received an event.
    pub open spec fn on_window_event(self, window: u64) -> Self {
        self.with_shared(self.shared.trip(window))
    }
}

/// The executor's bookkeeping: the main task, the pending tasks, and the
/// state shared with running futures.
pub struct Executor<L> {
    main_task: MainTask,
    pending: TaskSlots,
    shared: ExecutorShared<L>,
}

impl<L> View for Executor<L> {
    type V = ExecutorState<L>;

    closed spec fn view(&self) -> ExecutorState<L> {
        ExecutorState { main: self.main_task, pending: pending_keys(self.pending), shared: self.shared@ }
    }
}

impl<L> Executor<L> {
    pub open spec fn wf(&self) -> bool {
        self@.wf()
    }

    /// A fresh executor: the main task not yet created, no task pending,
    /// nothing queued, the loop suspended.
    pub fn new() -> (e: Self)
        ensures
            e.wf(),
            e@.main == MainTask::Ready,
            e@.pending == Set::<u64>::empty(),
            e@.shared == SharedState::<L>::initial(),
    {
        Executor { main_task: MainTask::Ready, pending: new_task_map(), shared: ExecutorShared::new() }
    }

    /// The state shared with running futures.
    pub fn shared(&self) -> (s: &ExecutorShared<L>)
        ensures
            s@ == self@.shared,
    {
        &self.shared
    }

    /// The state shared with running futures, to be lent to them while a
    /// task is polled.
    pub fn shared_mut(&mut self) -> (s: &mut ExecutorShared<L>)
        ensures
            s@ == old(self)@.shared,
            final(self)@ == old(self)@.with_shared(final(s)@),
    {
        &mut self.shared
    }

    /// Whether task `id` is pending.
    pub fn is_pending(&self, id: u64) -> (r: bool)
        requires
            self.wf(),
        ensures
            r == self@.pending.contains(id),
    {
        if id / 0x1_0000_0000 % 2 == 1 {
            holds_task(&self.pending, id)
        } else {
            false
        }
    }

    /// The number of pending tasks.
    pub fn pending_count(&self) -> (n: usize)
        ensures
            n == self@.pending.len(),
    {
        task_count(&self.pending)
    }

    /// Whether the main task has been created.
    pub fn main_started(&self) -> (r: bool)
        ensures
            r == self@.main_started(),
    {
        match self.main_task {
            MainTask::Running(_) => true,
            MainTask::Ready => false,
        }
    }

    /// Gets the main task's id, admitting it as a pending task if it hasn't
    /// already been.
    pub fn main_id(&mut self) -> (id: u64)
        requires
            old(self).wf(),
            !old(self)@.main_started() ==> old(self)@.has_room(),
        ensures
            final(self).wf(),
            old(self)@.main_started() ==> id == old(self)@.main->Running_0 && final(self)@ == old(self)@,
            !old(self)@.main_started() ==> old(self)@.fresh(id) && final(self)@ == old(self)@.start_main(id),
    {
        match self.main_task {
            MainTask::Running(id) => id,
            MainTask::Ready => {
                let id = insert_task(&mut self.pending);
                self.main_task = MainTask::Running(id);
                id
            },
        }
    }

    /// Records the outcome of polling task `id`. A task that is ready
    /// completes and leaves the pending set; the result says whether the
    /// event loop exits, which it does when the main task completes.
    pub fn finish_poll(&mut self, id: u64, outcome: PollState) -> (exit: bool)
        requires
            old(self).wf(),
            old(self)@.pending.contains(id),
            outcome == PollState::Ready ==> old(self)@.main_started(),
        ensures
            final(self).wf(),
            final(self)@ == old(self)@.after_poll(id, outcome),
            exit == old(self)@.exits_after(id, outcome),
    {
        match outcome {
            PollState::Ready => {
                let _ = remove_task(&mut self.pending, id);
                id == self.main_task.id()
            },
            PollState::Pending => false,
        }
    }

    /// A new batch of events begins. When the loop starts, the main task is
    /// admitted, and its id is returned to be polled.
    pub fn new_events(&mut self, cause: StartCause) -> (to_poll: Option<u64>)
        requires
            old(self).wf(),
            cause is Init && !old(self)@.main_started() ==> old(self)@.has_room(),
        ensures
            final(self).wf(),
            cause is Other ==> to_poll is None && final(self)@ == old(self)@,
            cause is Init ==> to_poll is Some && final(self)@.main == MainTask::Running(to_poll->0),
            cause is Init && old(self)@.main_started() ==> final(self)@ == old(self)@,
            cause is Init && !old(self)@.main_started() ==> old(self)@.fresh(to_poll->0)
                && final(self)@ == old(self)@.start_main(to_poll->0),
    {
        match cause {
            StartCause::Init => Some(self.main_id()),
            StartCause::Other => None,
        }
    }

    /// The loop resumed: records it and hands out, oldest first, the tasks
    /// that waited for it, to be polled.
    pub fn resumed(&mut self) -> (to_poll: Vec<u64>)
        requires
            old(self).wf(),
        ensures
            final(self).wf(),
            to_poll@ == old(self)@.shared.resume_queue,
            final(self)@ == old(self)@.on_resumed(),
    {
        self.shared.set_resumed(true);
        self.shared.drain_resume_tasks()
    }

    /// The loop suspended: records it and hands out, oldest first, the tasks
    /// that waited for it, to be polled.
    pub fn suspended(&mut self) -> (to_poll: Vec<u64>)
        requires
            old(self).wf(),
        ensures
            final(self).wf(),
            to_poll@ == old(self)@.shared.suspend_queue,
            final(self)@ == old(self)@.on_suspended(),
    {
        self.shared.set_resumed(false);
        self.shared.drain_suspend_tasks()
    }

    /// `window` received an event: what waited on it, if anything, is
    /// disarmed and returned; the waiting future is handed the event, and
    /// its task is polled.
    pub fn window_event(&mut self, window: u64) -> (to_poll: Option<Waiter>)
        requires
            old(self).wf(),
        ensures
            final(self).wf(),
            to_poll == old(self)@.shared.waiter(window),
            final(self)@ == old(self)@.on_window_event(window),
    {
        self.shared.trip_window_task(window)
    }

    /// Handles an event sent to the loop: a woken task is polled; a task
    /// submitted from another thread is admitted under a fresh id and
    /// polled; on a local spawn, all locally spawned tasks still queued are
    /// admitted, oldest first, under fresh ids and polled (none, when an
    /// earlier event already admitted them).
    pub fn user_event(&mut self, event: UserEvent) -> (step: UserStep<L>)
        requires
            old(self).wf(),
            event is NewSend ==> old(self)@.has_room(),
            event is NewLocal ==> old(self)@.has_room_for(old(self)@.shared.spawn_queue.len()),
        ensures
            final(self).wf(),
            match event {
                UserEvent::Wake { id } => step == UserStep::<L>::Poll(id) && final(self)@ == old(self)@,
                UserEvent::NewSend => step matches UserStep::AdmitSend(id) && old(self)@.fresh(id)
                    && final(self)@ == old(self)@.with_task(id),
                UserEvent::NewLocal => step matches UserStep::AdmitLocal(admitted)
                    && old(self)@.admits_queue(admitted@)
                    && final(self)@ == old(self)@.with_shared(old(self)@.shared.drain_spawn()).with_tasks(
                        ids_of(admitted@),
                    ),
            },
    {
        match event {
            UserEvent::Wake { id } => UserStep::Poll(id),
            UserEvent::NewSend => {
                let id = insert_task(&mut self.pending);
                UserStep::AdmitSend(id)
            },
            UserEvent::NewLocal => {
                let ghost before = self@;
                let mut tasks = self.shared.drain_spawn_tasks();
                let ghost queue = tasks@;
                let ghost start = self@;
                let mut admitted: Vec<(u64, L)> = Vec::new();
                assert(ids_of(admitted@) =~= Set::<u64>::empty());
                assert(start.with_tasks(ids_of(admitted@)).pending =~= start.pending);
                while tasks.len() > 0
                    invariant
                        start.wf(),
                        start == before.with_shared(before.shared.drain_spawn()),
                        queue == before.shared.spawn_queue,
                        start.has_room_for(queue.len()),
                        self.wf(),
                        admitted@.len() + tasks@.len() == queue.len(),
                        tasks@ == queue.subrange(admitted@.len() as int, queue.len() as int),
                        forall|i: int| 0 <= i < admitted@.len() ==>
                            #[trigger] admitted@[i].1 == queue[i] && start.fresh(admitted@[i].0),
                        forall|i: int, j: int| 0 <= i < j < admitted@.len() ==> admitted@[i].0 != admitted@[j].0,
                        self@ == start.with_tasks(ids_of(admitted@)),
                        self@.pending.len() == start.pending.len() + admitted@.len(),
                    decreases tasks@.len(),
                {
                    let ghost done = admitted@;
                    let task = tasks.remove(0);
                    let id = insert_task(&mut self.pending);
                    admitted.push((id, task));
                    proof {
                        assert(ids_of(admitted@) =~= ids_of(done).insert(id)) by {
                            assert forall|x: u64| #[trigger] ids_of(admitted@).contains(x) implies
                                ids_of(done).insert(id).contains(x) by {
                                let i = choose|i: int| 0 <= i < admitted@.len() && admitted@[i].0 == x;
                                if i < done.len() {
                                    assert(done[i] == admitted@[i]);
                                }
                            }
                            assert forall|x: u64| #[trigger] ids_of(done).insert(id).contains(x) implies
                                ids_of(admitted@).contains(x) by {
                                if x == id {
                                    assert(admitted@[done.len() as int].0 == id);
                                } else {
                                    let i = choose|i: int| 0 <= i < done.len() && done[i].0 == x;
                                    assert(admitted@[i] == done[i]);
                                }
                            }
                        }
                        assert(self@.pending =~= start.with_tasks(ids_of(admitted@)).pending);
                        assert forall|i: int| 0 <= i < done.len() implies admitted@[i].0 != id by {
                            assert(admitted@[i] == done[i]);
                            assert(ids_of(done).contains(done[i].0));
                        }
                        assert(tasks@ =~= queue.subrange(admitted@.len() as int, queue.len() as int));
                    }
                }
                assert(admitted@.len() == queue.len());
                UserStep::AdmitLocal(admitted)
            },
        }
    }
}

} // verus!
