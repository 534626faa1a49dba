//! The runtime context that is current on the event loop's thread while a
//! task is polled.
use vstd::prelude::*;
use vstd::pervasive::unreached;

verus! {

/// One step on a runtime slot: a guard makes this context active, or the
/// live guard is dropped.
pub enum GuardStep<C> {
    Enter(C),
    Leave,
}

/// Whether `step` may be taken on a slot holding `slot`: a guard may only be
/// made when none is live, and dropped only when one is.
pub open spec fn guard_step_allowed<C>(slot: Option<C>, step: GuardStep<C>) -> bool {
    match step {
        GuardStep::Enter(_) => slot is None,
        GuardStep::Leave => slot is Some,
    }
}

/// What a slot holding `slot` holds after `step`.
pub open spec fn after_guard_step<C>(slot: Option<C>, step: GuardStep<C>) -> Option<C> {
    match step {
        GuardStep::Enter(context) => Some(context),
        GuardStep::Leave => None,
    }
}

/// The slot that holds the current runtime context, if one is active.
pub struct RuntimeSlot<C> {
    current: Option<C>,
}

impl<C> View for RuntimeSlot<C> {
    type V = Option<C>;

    closed spec fn view(&self) -> Option<C> {
        self.current
    }
}

/// Whether a runtime context is active in `slot`, which is so exactly on the
/// event loop's thread while it polls a task.
pub fn is_main_thread<C>(slot: &RuntimeSlot<C>) -> (r: bool)
    ensures
        r == slot@ is Some,
{
    slot.current.is_some()
}

impl<C> RuntimeSlot<C> {
    /// A slot with no active context.
    pub fn new() -> (s: Self)
        ensures
            s@ is None,
    {
        RuntimeSlot { current: None }
    }

    /// Makes `context` the active one. Only one context may be active at a
    /// time.
    pub fn enter(&mut self, context: C)
        requires
            guard_step_allowed(old(self)@, GuardStep::Enter(context)),
        ensures
            final(self)@ == after_guard_step(old(self)@, GuardStep::Enter(context)),
    {
        self.current = Some(context);
    }

    /// Ends the active context.
    pub fn leave(&mut self)
        requires
            guard_step_allowed(old(self)@, GuardStep::<C>::Leave),
        ensures
            final(self)@ == after_guard_step(old(self)@, GuardStep::<C>::Leave),
    {
        self.current = None;
    }

    /// The active context.
    pub fn current(&self) -> (context: &C)
        requires
            self@ is Some,
        ensures
            *context == self@->0,
    {
        match &self.current {
            Some(context) => context,
            None => unreached(),
        }
    }
}

} // verus!
