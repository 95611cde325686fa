use vstd::prelude::*;

verus! {

/// Process-wide lifecycle states of the application shell.
///
/// `Uninitialized` lasts only while construction and action registration
/// run; the event loop dispatches events only in `Running`; `Terminating`
/// is absorbing.
#[derive(Clone, Copy, Debug, PartialEq, Eq, Structural)]
pub enum Lifecycle {
    Uninitialized,
    Running,
    Terminating,
}

/// The events that drive the lifecycle state machine.
#[derive(Clone, Copy, Debug, PartialEq, Eq, Structural)]
pub enum LifecycleEvent {
    /// Construction completed: both global actions are registered.
    RegistrationCompleted,
    /// An activation request arrived (initial launch or re-invocation).
    Activated,
    /// The `quit` action was invoked.
    QuitRequested,
    /// The user closed every window; the collaborator runtime shuts down.
    AllWindowsClosed,
}

/// The lifecycle transition relation.
///
/// Registration completes construction; activation keeps the application
/// running; a quit request or the last window closing terminates it; any
/// other combination leaves the state unchanged. In particular
/// `Terminating` is absorbing: no event leaves it.
pub open spec fn spec_step(s: Lifecycle, e: LifecycleEvent) -> Lifecycle {
    match (s, e) {
        (Lifecycle::Uninitialized, LifecycleEvent::RegistrationCompleted) => Lifecycle::Running,
        (Lifecycle::Running, LifecycleEvent::Activated) => Lifecycle::Running,
        (Lifecycle::Running, LifecycleEvent::QuitRequested) => Lifecycle::Terminating,
        (Lifecycle::Running, LifecycleEvent::AllWindowsClosed) => Lifecycle::Terminating,
        _ => s,
    }
}

/// Advance the lifecycle state machine by one event.
pub fn step(s: Lifecycle, e: LifecycleEvent) -> (next: Lifecycle)
    ensures
        next == spec_step(s, e),
{
    match (s, e) {
        (Lifecycle::Uninitialized, LifecycleEvent::RegistrationCompleted) => Lifecycle::Running,
        (Lifecycle::Running, LifecycleEvent::Activated) => Lifecycle::Running,
        (Lifecycle::Running, LifecycleEvent::QuitRequested) => Lifecycle::Terminating,
        (Lifecycle::Running, LifecycleEvent::AllWindowsClosed) => Lifecycle::Terminating,
        _ => s,
    }
}

/// Law: `Terminating` is absorbing. Once the application terminates, no
/// event is dispatched that could leave that state.
pub proof fn lemma_terminating_absorbing(e: LifecycleEvent)
    ensures
        spec_step(Lifecycle::Terminating, e) == Lifecycle::Terminating,
{
}

} // verus!
