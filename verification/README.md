# wexec

An async executor driven by a `winit` event loop, with its bookkeeping
verified by Verus.

- `src/` is the verified library. `executor` is the executor as a state
  machine: each event-loop callback is a step that updates the main task,
  the pending tasks and the shared state, and names the tasks to poll;
  `finish_poll` takes the outcome of a poll and says when the loop exits.
  `shared` holds what running futures reach (resume and suspend queues,
  window waiters, locally spawned tasks, whether the loop is resumed);
  `future` holds the poll decisions of the resume, suspend and window-event
  futures; `context` the slot of the active runtime context and its guard
  steps; `error` the shutdown error.
  `slots` and `waiters` hold the slotmap and ahash collections behind their
  trusted wrappers. `laws` states the properties that span operations.
- `app/` is the plumbing that Verus does not see: the `winit` application
  handler, the task futures and their wakers, the thread-local runtime
  context, and the public async API (`Runtime`, `spawn`, `spawn_local`,
  `window_event`, the futures and join handles), the store of task futures
  by id, and the handles that carry window events.
- `tests/` runs the library on concrete values.
