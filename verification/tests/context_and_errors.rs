use futures::channel::oneshot::Canceled;
use wexec::context::{is_main_thread, RuntimeSlot};
use wexec::error::{join_outcome, EventLoopShutdown};

#[test]
fn slot_is_active_between_enter_and_leave() {
    let mut slot: RuntimeSlot<u32> = RuntimeSlot::new();
    assert!(!is_main_thread(&slot));
    slot.enter(17);
    assert!(is_main_thread(&slot));
    assert_eq!(*slot.current(), 17);
    slot.leave();
    assert!(!is_main_thread(&slot));
    slot.enter(18);
    assert_eq!(*slot.current(), 18);
}

#[test]
fn join_outcome_passes_values_through() {
    let received: Result<u32, Canceled> = Ok(5);
    assert_eq!(join_outcome(received), Ok(5));
}

#[test]
fn canceled_join_means_shutdown() {
    let received: Result<u32, Canceled> = Err(Canceled);
    assert_eq!(join_outcome(received), Err(EventLoopShutdown));
}

#[test]
fn shutdown_message_text() {
    assert_eq!(EventLoopShutdown.message(), "wexec's event loop has shut down");
}

#[test]
fn guards_alternate_on_one_thread() {
    let mut slot: RuntimeSlot<u32> = RuntimeSlot::new();
    for context in 0..3u32 {
        assert!(!is_main_thread(&slot));
        slot.enter(context);
        assert!(is_main_thread(&slot));
        assert_eq!(*slot.current(), context);
        slot.leave();
    }
    assert!(!is_main_thread(&slot));
}
