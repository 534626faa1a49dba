use wexec::context::RuntimeSlot;
use wexec::future::{poll_window_event, PollState, ResumedFuture, SuspendedFuture};
use wexec::shared::ExecutorShared;
use wexec::{resumed, suspended};

fn on_loop() -> RuntimeSlot<()> {
    let mut slot: RuntimeSlot<()> = RuntimeSlot::new();
    slot.enter(());
    slot
}

#[test]
fn new_shared_state_is_suspended_and_empty() {
    let mut shared: ExecutorShared<u8> = ExecutorShared::new();
    assert!(!shared.is_resumed());
    assert!(!shared.has_spawn_task());
    assert_eq!(shared.window_waiter(7), None);
    assert_eq!(shared.spawn_task_count(), 0);
    assert!(shared.drain_resume_tasks().is_empty());
    assert!(shared.drain_suspend_tasks().is_empty());
    assert_eq!(shared.trip_window_task(7), None);
}

#[test]
fn resume_queue_drains_in_order_once() {
    let mut shared: ExecutorShared<u8> = ExecutorShared::new();
    shared.queue_resume_task(30);
    shared.queue_resume_task(10);
    shared.queue_resume_task(20);
    shared.queue_suspend_task(99);
    assert_eq!(shared.drain_resume_tasks(), vec![30, 10, 20]);
    assert!(shared.drain_resume_tasks().is_empty());
    assert_eq!(shared.drain_suspend_tasks(), vec![99]);
    assert!(shared.drain_suspend_tasks().is_empty());
}

#[test]
fn armed_window_is_tripped_once() {
    let mut shared: ExecutorShared<u8> = ExecutorShared::new();
    shared.arm_window_task(5, 42, 7);
    shared.arm_window_task(6, 43, 7);
    assert_eq!(shared.window_waiter(5), Some((42, 7)));
    assert_eq!(shared.window_waiter(6), Some((43, 7)));
    assert_eq!(shared.trip_window_task(5), Some((42, 7)));
    assert_eq!(shared.window_waiter(5), None);
    assert_eq!(shared.trip_window_task(5), None);
    assert_eq!(shared.trip_window_task(6), Some((43, 7)));
    shared.arm_window_task(5, 44, 7);
    assert_eq!(shared.trip_window_task(5), Some((44, 7)));
}

#[test]
fn spawn_queue_drains_all_in_spawn_order() {
    let mut shared: ExecutorShared<&'static str> = ExecutorShared::new();
    shared.queue_spawn_task("first");
    shared.queue_spawn_task("second");
    shared.queue_spawn_task("first");
    assert!(shared.has_spawn_task());
    assert_eq!(shared.spawn_task_count(), 3);
    assert_eq!(shared.drain_spawn_tasks(), vec!["first", "second", "first"]);
    assert!(!shared.has_spawn_task());
    assert!(shared.drain_spawn_tasks().is_empty());
    shared.queue_spawn_task("third");
    assert_eq!(shared.drain_spawn_tasks(), vec!["third"]);
}

#[test]
fn waiting_task_may_rearm_its_window() {
    let mut shared: ExecutorShared<u8> = ExecutorShared::new();
    shared.arm_window_task(5, 42, 7);
    shared.arm_window_task(5, 42, 7);
    assert_eq!(shared.window_waiter(5), Some((42, 7)));
    assert_eq!(shared.trip_window_task(5), Some((42, 7)));
    assert_eq!(shared.trip_window_task(5), None);
}

#[test]
fn resumed_future_waits_until_resume() {
    let mut shared: ExecutorShared<u8> = ExecutorShared::new();
    let slot = on_loop();
    let future = resumed(&slot);
    assert!(future.poll(&mut shared, Some(8)) == PollState::Pending);
    assert!(future.poll(&mut shared, Some(9)) == PollState::Pending);
    shared.set_resumed(true);
    assert!(future.poll(&mut shared, None) == PollState::Ready);
    assert_eq!(shared.drain_resume_tasks(), vec![8, 9]);
    assert!(shared.drain_suspend_tasks().is_empty());
}

#[test]
fn suspended_future_waits_until_suspend() {
    let mut shared: ExecutorShared<u8> = ExecutorShared::new();
    let slot = on_loop();
    let future = suspended(&slot);
    assert!(future.poll(&mut shared, None) == PollState::Ready);
    shared.set_resumed(true);
    assert!(future.poll(&mut shared, Some(3)) == PollState::Pending);
    assert_eq!(shared.drain_suspend_tasks(), vec![3]);
    assert!(shared.drain_resume_tasks().is_empty());
}

#[test]
fn exactly_one_kind_of_future_is_ready() {
    let mut shared: ExecutorShared<u8> = ExecutorShared::new();
    let slot = on_loop();
    for resumed_now in [false, true, false] {
        shared.set_resumed(resumed_now);
        let r = ResumedFuture::new(&slot).poll(&mut shared, Some(1)) == PollState::Ready;
        let s = SuspendedFuture::new(&slot).poll(&mut shared, Some(2)) == PollState::Ready;
        assert_ne!(r, s);
        assert_eq!(r, resumed_now);
    }
}

#[test]
fn window_future_arms_until_its_event_arrives() {
    let mut shared: ExecutorShared<u8> = ExecutorShared::new();
    assert!(poll_window_event(&mut shared, 3, false, Some(11), 500) == PollState::Pending);
    assert_eq!(shared.window_waiter(3), Some((11, 500)));
    // polled again before its event: it stays the waiter
    assert!(poll_window_event(&mut shared, 3, false, Some(11), 500) == PollState::Pending);
    assert_eq!(shared.window_waiter(3), Some((11, 500)));
    assert_eq!(shared.trip_window_task(3), Some((11, 500)));
    assert!(poll_window_event(&mut shared, 3, true, None, 500) == PollState::Ready);
    assert_eq!(shared.window_waiter(3), None);
}
