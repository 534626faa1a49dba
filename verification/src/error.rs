use vstd::prelude::*;
use futures::channel::oneshot::Canceled;

verus! {

/// Indicates that the main event loop has shut down.
#[derive(Debug, Clone, Copy, PartialEq, Eq, Structural)]
pub struct EventLoopShutdown;

/// What a shut-down error says when it is shown to a person.
pub open spec fn shutdown_message() -> Seq<char> {
    "wexec's event loop has shut down"@
}

impl EventLoopShutdown {
    /// The human-readable description of this error.
    pub fn message(&self) -> (text: String)
        ensures
            text@ == shutdown_message(),
    {
        "wexec's event loop has shut down".to_owned()
    }
}

#[verifier::external_type_specification]
#[verifier::external_body]
pub struct ExCanceled(Canceled);

/// The result of a join handle, given what its channel delivered: the task's
/// value, or `EventLoopShutdown` when the sending side was dropped because
/// the event loop shut down before the task completed.
pub fn join_outcome<T>(received: Result<T, Canceled>) -> (r: Result<T, EventLoopShutdown>)
    ensures
        match received {
            Ok(value) => r == Ok::<T, EventLoopShutdown>(value),
            Err(_) => r == Err::<T, EventLoopShutdown>(EventLoopShutdown),
        },
{
    match received {
        Ok(value) => Ok(value),
        Err(_) => Err(EventLoopShutdown),
    }
}

} // verus!
