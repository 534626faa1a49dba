use wexec::executor::{Executor, MainTask, StartCause, UserEvent, UserStep};
use wexec::context::RuntimeSlot;
use wexec::future::{PollState, ResumedFuture};

fn started() -> (Executor<&'static str>, u64) {
    let mut exec: Executor<&'static str> = Executor::new();
    let main = exec.new_events(StartCause::Init).expect("the main task starts at init");
    (exec, main)
}

#[test]
fn init_admits_the_main_task_once() {
    let mut exec: Executor<&'static str> = Executor::new();
    assert!(!exec.main_started());
    assert_eq!(exec.pending_count(), 0);
    assert_eq!(exec.new_events(StartCause::Other), None);
    let main = exec.new_events(StartCause::Init).unwrap();
    assert!(exec.main_started());
    assert!(exec.is_pending(main));
    assert_eq!(exec.pending_count(), 1);
    assert_eq!(exec.main_id(), main);
    assert_eq!(exec.new_events(StartCause::Init), Some(main));
    assert_eq!(exec.pending_count(), 1);
    assert_eq!(exec.new_events(StartCause::Other), None);
}

#[test]
fn main_task_id_reports_running_id() {
    let running = MainTask::Running(12);
    assert_eq!(running.id(), 12);
}

#[test]
fn loop_exits_when_main_completes() {
    let (mut exec, main) = started();
    assert!(!exec.finish_poll(main, PollState::Pending));
    assert!(exec.is_pending(main));
    assert!(exec.finish_poll(main, PollState::Ready));
    assert!(!exec.is_pending(main));
    assert_eq!(exec.pending_count(), 0);
}

#[test]
fn other_task_completing_does_not_exit() {
    let (mut exec, main) = started();
    let sent = match exec.user_event(UserEvent::NewSend) {
        UserStep::AdmitSend(id) => id,
        _ => panic!("a sent task is admitted"),
    };
    assert_ne!(sent, main);
    assert!(exec.is_pending(sent));
    assert_eq!(exec.pending_count(), 2);
    assert!(!exec.finish_poll(sent, PollState::Ready));
    assert!(!exec.is_pending(sent));
    assert!(exec.is_pending(main));
}

#[test]
fn wake_polls_the_named_task() {
    let (mut exec, main) = started();
    match exec.user_event(UserEvent::Wake { id: main }) {
        UserStep::Poll(id) => assert_eq!(id, main),
        _ => panic!("a wake polls the woken task"),
    }
    assert_eq!(exec.pending_count(), 1);
}

#[test]
fn local_spawns_are_admitted_oldest_first() {
    let (mut exec, main) = started();
    exec.shared_mut().queue_spawn_task("a");
    exec.shared_mut().queue_spawn_task("b");
    let admitted = match exec.user_event(UserEvent::NewLocal) {
        UserStep::AdmitLocal(admitted) => admitted,
        _ => panic!("local tasks are admitted"),
    };
    assert_eq!(admitted.len(), 2);
    let (id_a, task_a) = admitted[0];
    let (id_b, task_b) = admitted[1];
    assert_eq!(task_a, "a");
    assert_eq!(task_b, "b");
    assert_ne!(id_a, id_b);
    assert_ne!(id_a, main);
    assert_ne!(id_b, main);
    assert!(exec.is_pending(id_a));
    assert!(exec.is_pending(id_b));
    assert_eq!(exec.pending_count(), 3);
    assert!(!exec.shared().has_spawn_task());
    // the second spawn's event finds the queue already drained
    match exec.user_event(UserEvent::NewLocal) {
        UserStep::AdmitLocal(admitted) => assert!(admitted.is_empty()),
        _ => panic!("a local spawn event admits local tasks"),
    }
    assert_eq!(exec.pending_count(), 3);
}

#[test]
fn ids_are_fresh_after_completion() {
    let (mut exec, main) = started();
    let first = match exec.user_event(UserEvent::NewSend) {
        UserStep::AdmitSend(id) => id,
        _ => panic!(),
    };
    assert!(!exec.finish_poll(first, PollState::Ready));
    let second = match exec.user_event(UserEvent::NewSend) {
        UserStep::AdmitSend(id) => id,
        _ => panic!(),
    };
    assert_ne!(first, second);
    assert!(!exec.is_pending(first));
    assert!(exec.is_pending(second));
    assert!(exec.is_pending(main));
}

#[test]
fn unknown_ids_are_not_pending() {
    let (exec, main) = started();
    assert!(!exec.is_pending(0));
    assert!(!exec.is_pending(main ^ (1u64 << 32)));
    assert!(!exec.is_pending(u64::MAX));
}

#[test]
fn resume_polls_waiting_tasks_in_order() {
    let (mut exec, main) = started();
    let mut slot: RuntimeSlot<()> = RuntimeSlot::new();
    slot.enter(());
    let future = ResumedFuture::new(&slot);
    assert!(future.poll(exec.shared_mut(), Some(main)) == PollState::Pending);
    exec.shared_mut().queue_resume_task(77);
    assert_eq!(exec.resumed(), vec![main, 77]);
    assert!(exec.shared().is_resumed());
    assert!(exec.resumed().is_empty());
    assert!(future.poll(exec.shared_mut(), None) == PollState::Ready);
}

#[test]
fn suspend_polls_waiting_tasks_in_order() {
    let (mut exec, _main) = started();
    assert!(exec.resumed().is_empty());
    exec.shared_mut().queue_suspend_task(5);
    exec.shared_mut().queue_suspend_task(4);
    assert_eq!(exec.suspended(), vec![5, 4]);
    assert!(!exec.shared().is_resumed());
    assert!(exec.suspended().is_empty());
}

#[test]
fn window_event_wakes_the_armed_task() {
    let (mut exec, main) = started();
    exec.shared_mut().arm_window_task(1000, main, 9);
    assert_eq!(exec.window_event(999), None);
    assert_eq!(exec.window_event(1000), Some((main, 9)));
    assert_eq!(exec.window_event(1000), None);
    assert_eq!(exec.shared().window_waiter(1000), None);
}
