//! Properties that hold across the executor's operations.
use vstd::prelude::*;
use crate::context::{GuardStep, guard_step_allowed, after_guard_step};
use crate::executor::{ExecutorState, MainTask, ids_of};
use crate::future::PollState;
use crate::shared::SharedState;
use crate::slots::is_task_key;
use crate::waiters::Waiter;

verus! {

/// A window armed for a waiting future yields that waiter at its next event,
/// and that event disarms it again: tripping undoes arming.
pub proof fn arm_then_trip<L>(s: SharedState<L>, window: u64, waiter: Waiter)
    requires
        !s.is_armed(window),
    ensures
        s.arm(window, waiter).is_armed(window),
        s.arm(window, waiter).waiter(window) == Some(waiter),
        s.arm(window, waiter).trip(window) == s,
{
    assert(s.arm(window, waiter).trip(window).window_waiters =~= s.window_waiters);
}

/// An event on a window that nothing waits on wakes no task and changes
/// nothing.
pub proof fn trip_unarmed<L>(s: SharedState<L>, window: u64)
    requires
        !s.is_armed(window),
    ensures
        s.waiter(window) is None,
        s.trip(window) == s,
{
    assert(s.trip(window).window_waiters =~= s.window_waiters);
}

/// The future that already waits on a window may arm it again, which
/// changes nothing.
pub proof fn rearm_by_waiter<L>(s: SharedState<L>, window: u64, waiter: Waiter)
    requires
        s.waiter(window) == Some(waiter),
    ensures
        s.arm(window, waiter) == s,
{
    assert(s.arm(window, waiter).window_waiters =~= s.window_waiters);
}

/// Arming one window leaves the waiter of every other window as it was.
pub proof fn arm_is_local<L>(s: SharedState<L>, window: u64, waiter: Waiter, other: u64)
    requires
        window != other,
    ensures
        s.arm(window, waiter).waiter(other) == s.waiter(other),
        s.arm(window, waiter).is_armed(other) == s.is_armed(other),
{
}

/// At every moment exactly one of a resumed-future and a suspended-future is
/// ready.
pub proof fn exactly_one_ready<L>(s: SharedState<L>)
    ensures
        s.resume_ready() != s.suspend_ready(),
{
}

/// After the loop resumes, a resumed-future is ready at once, and polling it
/// changes nothing; after the loop suspends, the same holds of a
/// suspended-future.
pub proof fn ready_after_transition<L>(e: ExecutorState<L>, task: Option<u64>)
    ensures
        e.on_resumed().shared.resume_ready(),
        e.on_resumed().shared.after_resume_poll(task) == e.on_resumed().shared,
        e.on_suspended().shared.suspend_ready(),
        e.on_suspended().shared.after_suspend_poll(task) == e.on_suspended().shared,
{
}

/// A task whose resumed-future is not ready is handed out when the loop
/// next resumes, after every task that asked before it; the same holds of a
/// suspended-future and the next suspend.
pub proof fn pending_poll_is_polled_at_transition<L>(e: ExecutorState<L>, task: u64)
    ensures
        !e.shared.resume_ready() ==> ({
            let polled = e.with_shared(e.shared.after_resume_poll(Some(task)));
            &&& polled.shared.resume_queue == e.shared.resume_queue.push(task)
            &&& polled.shared.resume_queue.last() == task
            &&& polled.on_resumed().shared.resume_ready()
        }),
        !e.shared.suspend_ready() ==> ({
            let polled = e.with_shared(e.shared.after_suspend_poll(Some(task)));
            &&& polled.shared.suspend_queue == e.shared.suspend_queue.push(task)
            &&& polled.shared.suspend_queue.last() == task
            &&& polled.on_suspended().shared.suspend_ready()
        }),
{
}

/// A resume hands out each waiting task once: right after a resume the next
/// resume hands out nothing, and the same holds of suspends.
pub proof fn transition_drains_once<L>(e: ExecutorState<L>)
    ensures
        e.on_resumed().shared.resume_queue == Seq::<u64>::empty(),
        e.on_resumed().on_resumed() == e.on_resumed(),
        e.on_suspended().shared.suspend_queue == Seq::<u64>::empty(),
        e.on_suspended().on_suspended() == e.on_suspended(),
{
}

/// Resuming records that the loop is resumed and empties the resume queue;
/// suspending records that it is suspended and empties the suspend queue.
/// Neither touches the other queue, the pending tasks, the main task, the
/// armed windows or the spawn queue.
pub proof fn transitions_keep_tasks<L>(e: ExecutorState<L>)
    ensures
        e.on_resumed().shared.is_resumed,
        e.on_resumed().shared.resume_queue.len() == 0,
        e.on_resumed().shared.suspend_queue == e.shared.suspend_queue,
        e.on_resumed().pending == e.pending,
        e.on_resumed().main == e.main,
        e.on_resumed().shared.window_waiters == e.shared.window_waiters,
        e.on_resumed().shared.spawn_queue == e.shared.spawn_queue,
        !e.on_suspended().shared.is_resumed,
        e.on_suspended().shared.suspend_queue.len() == 0,
        e.on_suspended().shared.resume_queue == e.shared.resume_queue,
        e.on_suspended().pending == e.pending,
        e.on_suspended().main == e.main,
        e.on_suspended().shared.window_waiters == e.shared.window_waiters,
        e.on_suspended().shared.spawn_queue == e.shared.spawn_queue,
{
}

/// A window event disarms that window and nothing else: every other
/// window keeps its waiter, and the pending tasks (the woken one among
/// them), the main task, the queues and the resume flag stay as they were.
pub proof fn window_event_touches_only_its_window<L>(e: ExecutorState<L>, window: u64, other: u64)
    requires
        other != window,
    ensures
        e.on_window_event(window).pending == e.pending,
        e.on_window_event(window).main == e.main,
        !e.on_window_event(window).shared.window_waiters.contains_key(window),
        e.on_window_event(window).shared.window_waiters.contains_key(other)
            == e.shared.window_waiters.contains_key(other),
        e.on_window_event(window).shared.window_waiters.contains_key(other) ==>
            e.on_window_event(window).shared.window_waiters[other] == e.shared.window_waiters[other],
        e.on_window_event(window).shared.resume_queue == e.shared.resume_queue,
        e.on_window_event(window).shared.suspend_queue == e.shared.suspend_queue,
        e.on_window_event(window).shared.spawn_queue == e.shared.spawn_queue,
        e.on_window_event(window).shared.is_resumed == e.shared.is_resumed,
{
}

/// What waits on a window is read from the window map: a window has a
/// waiter exactly when the map holds it, and the waiter is the map's value.
pub proof fn waiter_reads_the_map<L>(s: SharedState<L>, window: u64)
    ensures
        s.waiter(window) is Some <==> s.window_waiters.contains_key(window),
        s.waiter(window) is Some ==> s.waiter(window)->0 == s.window_waiters[window],
        s.is_armed(window) <==> s.window_waiters.contains_key(window),
{
}

/// Polling a window-event future: once its event was delivered the poll
/// changes nothing (in particular the window is not armed again); before
/// that, the window is armed for the polling task and its future, every other window
/// keeps its waiter, and the queues and the resume flag stay as they were.
pub proof fn window_poll_arms_only_before_delivery<L>(
    s: SharedState<L>,
    window: u64,
    task: Option<u64>,
    future: u64,
    other: u64,
)
    requires
        other != window,
    ensures
        s.after_window_poll(window, true, task, future) == s,
        s.after_window_poll(window, true, task, future).window_waiters == s.window_waiters,
        s.after_window_poll(window, false, task, future).window_waiters.contains_key(window),
        s.after_window_poll(window, false, task, future).window_waiters[window] == (task->0, future),
        s.after_window_poll(window, false, task, future).window_waiters.contains_key(other)
            == s.window_waiters.contains_key(other),
        s.window_waiters.contains_key(other) ==>
            s.after_window_poll(window, false, task, future).window_waiters[other] == s.window_waiters[other],
        s.after_window_poll(window, false, task, future).resume_queue == s.resume_queue,
        s.after_window_poll(window, false, task, future).suspend_queue == s.suspend_queue,
        s.after_window_poll(window, false, task, future).spawn_queue == s.spawn_queue,
        s.after_window_poll(window, false, task, future).is_resumed == s.is_resumed,
{
}

/// The state after `tasks` asked, one call each and in order, to be polled
/// when the loop resumes.
pub open spec fn queue_resumes<L>(s: SharedState<L>, tasks: Seq<u64>) -> SharedState<L>
    decreases tasks.len(),
{
    if tasks.len() == 0 {
        s
    } else {
        queue_resumes(s, tasks.drop_last()).queue_resume(tasks.last())
    }
}

/// The state after `tasks` asked, one call each and in order, to be polled
/// when the loop suspends.
pub open spec fn queue_suspends<L>(s: SharedState<L>, tasks: Seq<u64>) -> SharedState<L>
    decreases tasks.len(),
{
    if tasks.len() == 0 {
        s
    } else {
        queue_suspends(s, tasks.drop_last()).queue_suspend(tasks.last())
    }
}

/// The state after `tasks` were spawned locally, one call each and in order.
pub open spec fn queue_spawns<L>(s: SharedState<L>, tasks: Seq<L>) -> SharedState<L>
    decreases tasks.len(),
{
    if tasks.len() == 0 {
        s
    } else {
        queue_spawns(s, tasks.drop_last()).queue_spawn(tasks.last())
    }
}

/// Queueing any number of tasks for the resume appends them in call order,
/// duplicates kept, and touches nothing else; draining an initially empty
/// queue then hands out exactly those tasks in that order and leaves the
/// queue empty, so a second drain hands out nothing.
pub proof fn resume_queue_drains_in_call_order<L>(s: SharedState<L>, tasks: Seq<u64>)
    ensures
        queue_resumes(s, tasks) == (SharedState { resume_queue: s.resume_queue + tasks, ..s }),
        s.resume_queue.len() == 0 ==> queue_resumes(s, tasks).resume_queue == tasks,
        queue_resumes(s, tasks).drain_resume() == s.drain_resume(),
        queue_resumes(s, tasks).drain_resume().resume_queue.len() == 0,
    decreases tasks.len(),
{
    if tasks.len() > 0 {
        resume_queue_drains_in_call_order(s, tasks.drop_last());
        assert(s.resume_queue + tasks.drop_last().push(tasks.last()) =~= s.resume_queue + tasks);
        assert(tasks.drop_last().push(tasks.last()) =~= tasks);
    } else {
        assert(s.resume_queue + tasks =~= s.resume_queue);
    }
    if s.resume_queue.len() == 0 {
        assert(s.resume_queue + tasks =~= tasks);
    }
}

/// Queueing any number of tasks for the suspend appends them in call order,
/// duplicates kept, and touches nothing else; draining an initially empty
/// queue then hands out exactly those tasks in that order and leaves the
/// queue empty, so a second drain hands out nothing.
pub proof fn suspend_queue_drains_in_call_order<L>(s: SharedState<L>, tasks: Seq<u64>)
    ensures
        queue_suspends(s, tasks) == (SharedState { suspend_queue: s.suspend_queue + tasks, ..s }),
        s.suspend_queue.len() == 0 ==> queue_suspends(s, tasks).suspend_queue == tasks,
        queue_suspends(s, tasks).drain_suspend() == s.drain_suspend(),
        queue_suspends(s, tasks).drain_suspend().suspend_queue.len() == 0,
    decreases tasks.len(),
{
    if tasks.len() > 0 {
        suspend_queue_drains_in_call_order(s, tasks.drop_last());
        assert(s.suspend_queue + tasks.drop_last().push(tasks.last()) =~= s.suspend_queue + tasks);
    } else {
        assert(s.suspend_queue + tasks =~= s.suspend_queue);
    }
    if s.suspend_queue.len() == 0 {
        assert(s.suspend_queue + tasks =~= tasks);
    }
}

/// Locally spawned tasks are handed out in the order they were spawned:
/// spawning any number of tasks appends them in call order and touches
/// nothing else; draining an initially empty queue hands out exactly those
/// tasks and leaves the queue empty.
pub proof fn spawn_queue_drains_in_spawn_order<L>(s: SharedState<L>, tasks: Seq<L>)
    ensures
        queue_spawns(s, tasks) == (SharedState { spawn_queue: s.spawn_queue + tasks, ..s }),
        s.spawn_queue.len() == 0 ==> queue_spawns(s, tasks).spawn_queue == tasks,
        queue_spawns(s, tasks).drain_spawn() == s.drain_spawn(),
        queue_spawns(s, tasks).drain_spawn().spawn_queue.len() == 0,
    decreases tasks.len(),
{
    if tasks.len() > 0 {
        spawn_queue_drains_in_spawn_order(s, tasks.drop_last());
        assert(s.spawn_queue + tasks.drop_last().push(tasks.last()) =~= s.spawn_queue + tasks);
    } else {
        assert(s.spawn_queue + tasks =~= s.spawn_queue);
    }
    if s.spawn_queue.len() == 0 {
        assert(s.spawn_queue + tasks =~= tasks);
    }
}

/// The event loop exits exactly when the main task completes: a poll that
/// is not ready never exits the loop, whatever the task, and a ready poll
/// exits it exactly when the polled task is the running main task.
pub proof fn exit_iff_main_completes<L>(e: ExecutorState<L>, id: u64, outcome: PollState, main: u64, other: u64)
    requires
        other != main,
    ensures
        !e.exits_after(id, PollState::Pending),
        e.exits_after(id, outcome) ==> outcome == PollState::Ready && e.main == MainTask::Running(id),
        e.main == MainTask::Running(id) ==> e.exits_after(id, PollState::Ready),
        e.main is Ready ==> !e.exits_after(id, outcome),
        e.start_main(main).exits_after(main, PollState::Ready),
        !e.start_main(main).exits_after(other, PollState::Ready),
        !e.start_main(main).exits_after(other, PollState::Pending),
{
}

/// A task that completes is no longer pending, every other pending task
/// stays pending, and nothing else changes; a poll that is not ready
/// changes nothing at all.
pub proof fn completion_removes_only_that_task<L>(e: ExecutorState<L>, id: u64, other: u64)
    requires
        other != id,
    ensures
        !e.after_poll(id, PollState::Ready).pending.contains(id),
        e.after_poll(id, PollState::Ready).pending.contains(other) == e.pending.contains(other),
        e.after_poll(id, PollState::Ready).main == e.main,
        e.after_poll(id, PollState::Ready).shared == e.shared,
        e.after_poll(id, PollState::Pending) == e,
        e.after_poll(id, PollState::Pending).pending == e.pending,
{
}

/// Admitting a task under a fresh id keeps the executor well formed, makes
/// that id pending, keeps every other id as it was, grows the pending set by
/// exactly one and changes nothing else; completing it takes the state back
/// to what it was.
pub proof fn admit_then_complete<L>(e: ExecutorState<L>, id: u64, other: u64)
    requires
        e.wf(),
        e.fresh(id),
        other != id,
    ensures
        !e.pending.contains(id),
        e.with_task(id).wf(),
        e.with_task(id).pending.contains(id),
        e.with_task(id).pending.contains(other) == e.pending.contains(other),
        e.with_task(id).pending.len() == e.pending.len() + 1,
        e.with_task(id).main == e.main,
        e.with_task(id).shared == e.shared,
        e.with_task(id).after_poll(id, PollState::Ready) == e,
{
    assert(e.with_task(id).pending.remove(id) =~= e.pending);
}

/// The ids of an admission list with no two ids alike are finitely many,
/// one per entry.
pub proof fn distinct_ids_count<L>(admitted: Seq<(u64, L)>)
    requires
        forall|i: int, j: int| 0 <= i < j < admitted.len() ==> admitted[i].0 != admitted[j].0,
    ensures
        ids_of(admitted).finite(),
        ids_of(admitted).len() == admitted.len(),
    decreases admitted.len(),
{
    if admitted.len() == 0 {
        assert(ids_of(admitted) =~= Set::<u64>::empty());
    } else {
        let rest = admitted.drop_last();
        distinct_ids_count(rest);
        let last = admitted.last().0;
        assert(ids_of(admitted) =~= ids_of(rest).insert(last)) by {
            assert forall|x: u64| #[trigger] ids_of(admitted).contains(x) implies ids_of(rest).insert(last).contains(x) by {
                let i = choose|i: int| 0 <= i < admitted.len() && admitted[i].0 == x;
                if i < rest.len() {
                    assert(rest[i] == admitted[i]);
                }
            }
            assert forall|x: u64| #[trigger] ids_of(rest).insert(last).contains(x) implies ids_of(admitted).contains(x) by {
                if x == last {
                    assert(admitted[admitted.len() - 1].0 == last);
                } else {
                    let i = choose|i: int| 0 <= i < rest.len() && rest[i].0 == x;
                    assert(admitted[i] == rest[i]);
                }
            }
        }
        assert(!ids_of(rest).contains(last)) by {
            if ids_of(rest).contains(last) {
                let i = choose|i: int| 0 <= i < rest.len() && rest[i].0 == last;
                assert(admitted[i] == rest[i]);
                assert(admitted[i].0 != admitted[admitted.len() - 1].0);
            }
        }
    }
}

/// Admitting the queued local tasks hands out every queued task, in queue
/// order, under an id that was not pending; it makes every admitted id
/// pending and adds no other id; the pending set grows by exactly the number admitted, the
/// spawn queue is emptied, and the main task, the other queues, the armed
/// windows and the resume flag stay as they were.
pub proof fn local_admission_keeps_every_task<L>(e: ExecutorState<L>, admitted: Seq<(u64, L)>, x: u64)
    requires
        e.wf(),
        e.admits_queue(admitted),
    ensures
        ({
            let f = e.with_shared(e.shared.drain_spawn()).with_tasks(ids_of(admitted));
            &&& admitted.len() == e.shared.spawn_queue.len()
            &&& forall|i: int| 0 <= i < admitted.len() ==> #[trigger] admitted[i].1 == e.shared.spawn_queue[i]
            &&& forall|i: int| 0 <= i < admitted.len() ==> !e.pending.contains(#[trigger] admitted[i].0)
            &&& forall|i: int| 0 <= i < admitted.len() ==> f.pending.contains(#[trigger] admitted[i].0)
            &&& f.pending.contains(x) <==> (e.pending.contains(x)
                || exists|i: int| 0 <= i < admitted.len() && admitted[i].0 == x)
            &&& f.pending.len() == e.pending.len() + admitted.len()
            &&& f.wf()
            &&& f.main == e.main
            &&& f.shared.spawn_queue.len() == 0
            &&& f.shared.resume_queue == e.shared.resume_queue
            &&& f.shared.suspend_queue == e.shared.suspend_queue
            &&& f.shared.window_waiters == e.shared.window_waiters
            &&& f.shared.is_resumed == e.shared.is_resumed
        }),
{
    let f = e.with_shared(e.shared.drain_spawn()).with_tasks(ids_of(admitted));
    distinct_ids_count(admitted);
    assert forall|i: int| 0 <= i < admitted.len() implies !e.pending.contains(#[trigger] admitted[i].0) by {
        assert(admitted[i].1 == e.shared.spawn_queue[i]);
    }
    assert forall|i: int| 0 <= i < admitted.len() implies f.pending.contains(#[trigger] admitted[i].0) by {
        assert(ids_of(admitted).contains(admitted[i].0));
    }
    assert(e.pending.disjoint(ids_of(admitted))) by {
        assert forall|y: u64| e.pending.contains(y) implies !ids_of(admitted).contains(y) by {
            if ids_of(admitted).contains(y) {
                let i = choose|i: int| 0 <= i < admitted.len() && admitted[i].0 == y;
                assert(admitted[i].1 == e.shared.spawn_queue[i]);
                assert(e.fresh(admitted[i].0));
            }
        }
    }
    vstd::set_lib::lemma_set_disjoint_lens(e.pending, ids_of(admitted));
    assert forall|y: u64| #[trigger] f.pending.contains(y) implies is_task_key(y) by {
        if ids_of(admitted).contains(y) {
            let i = choose|i: int| 0 <= i < admitted.len() && admitted[i].0 == y;
            assert(admitted[i].1 == e.shared.spawn_queue[i]);
            assert(e.fresh(admitted[i].0));
        }
    }
}

/// The main task is admitted once: starting it records its id as the main
/// task, makes that id pending, keeps every other id as it was, and touches
/// nothing else.
pub proof fn main_starts_once<L>(e: ExecutorState<L>, id: u64, other: u64)
    requires
        other != id,
    ensures
        e.start_main(id).main_started(),
        e.start_main(id).main == MainTask::Running(id),
        e.start_main(id).pending.contains(id),
        e.start_main(id).pending.contains(other) == e.pending.contains(other),
        e.start_main(id).shared == e.shared,
        e.wf() && e.fresh(id) ==> e.start_main(id).wf() && e.start_main(id).pending.len() == e.pending.len() + 1,
{
}

/// A fresh shared state is suspended, with nothing queued, spawned or armed.
pub proof fn initial_state_is_empty<L>(window: u64)
    ensures
        !SharedState::<L>::initial().is_resumed,
        SharedState::<L>::initial().resume_queue.len() == 0,
        SharedState::<L>::initial().suspend_queue.len() == 0,
        SharedState::<L>::initial().spawn_queue.len() == 0,
        !SharedState::<L>::initial().window_waiters.contains_key(window),
{
}

/// Polling a resumed-future: it is ready exactly when the loop is resumed,
/// and then the poll changes nothing; otherwise its task joins the end of the
/// resume queue and nothing else changes. The suspended-future is the same
/// with the roles of resumed and suspended swapped.
pub proof fn resume_and_suspend_polls<L>(s: SharedState<L>, task: u64)
    ensures
        s.resume_ready() == s.is_resumed,
        s.is_resumed ==> s.after_resume_poll(Some(task)) == s,
        !s.is_resumed ==> s.after_resume_poll(Some(task)).resume_queue == s.resume_queue.push(task),
        s.after_resume_poll(Some(task)).suspend_queue == s.suspend_queue,
        s.after_resume_poll(Some(task)).window_waiters == s.window_waiters,
        s.after_resume_poll(Some(task)).spawn_queue == s.spawn_queue,
        s.after_resume_poll(Some(task)).is_resumed == s.is_resumed,
        s.suspend_ready() == !s.is_resumed,
        !s.is_resumed ==> s.after_suspend_poll(Some(task)) == s,
        s.is_resumed ==> s.after_suspend_poll(Some(task)).suspend_queue == s.suspend_queue.push(task),
        s.after_suspend_poll(Some(task)).resume_queue == s.resume_queue,
        s.after_suspend_poll(Some(task)).window_waiters == s.window_waiters,
        s.after_suspend_poll(Some(task)).spawn_queue == s.spawn_queue,
        s.after_suspend_poll(Some(task)).is_resumed == s.is_resumed,
{
}

/// What a slot holding `slot` holds after `steps`, taken in order.
pub open spec fn run_guard_steps<C>(slot: Option<C>, steps: Seq<GuardStep<C>>) -> Option<C>
    decreases steps.len(),
{
    if steps.len() == 0 {
        slot
    } else {
        after_guard_step(run_guard_steps(slot, steps.drop_last()), steps.last())
    }
}

/// Whether every one of `steps`, taken in order from `slot`, is allowed.
pub open spec fn guard_steps_allowed<C>(slot: Option<C>, steps: Seq<GuardStep<C>>) -> bool
    decreases steps.len(),
{
    if steps.len() == 0 {
        true
    } else {
        guard_steps_allowed(slot, steps.drop_last())
            && guard_step_allowed(run_guard_steps(slot, steps.drop_last()), steps.last())
    }
}

/// The number of guards made in `steps` less the number dropped.
pub open spec fn live_guards<C>(steps: Seq<GuardStep<C>>) -> int
    decreases steps.len(),
{
    if steps.len() == 0 {
        0
    } else {
        live_guards(steps.drop_last()) + match steps.last() {
            GuardStep::Enter(_) => 1int,
            GuardStep::Leave => -1int,
        }
    }
}

/// On a thread that starts with no active context, over any allowed
/// sequence of guards made and dropped, at most one guard is live, and a
/// context is active (the thread counts as the event loop's) exactly while a
/// guard is live; the active context is the one the live guard made.
pub proof fn context_active_iff_guard_live<C>(steps: Seq<GuardStep<C>>)
    requires
        guard_steps_allowed(None, steps),
    ensures
        live_guards(steps) == 0 || live_guards(steps) == 1,
        run_guard_steps(None, steps) is Some <==> live_guards(steps) == 1,
        steps.len() > 0 ==> (steps.last() matches GuardStep::Enter(context)
            ==> run_guard_steps(None, steps) == Some(context)),
    decreases steps.len(),
{
    if steps.len() > 0 {
        context_active_iff_guard_live(steps.drop_last());
    }
}

} // verus!
