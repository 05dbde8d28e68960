//! The teardown state machine shared by every handle in this library.
//!
//! A live handle is `Attached`. It is relinquished in exactly one of two
//! ways, and each way leads to its own terminal state and its own host
//! call: explicit discard detaches the registration (`Unregister`), while
//! implicit scope exit deliberately leaves it alive (`Forget`). Because a
//! teardown consumes the handle by value, at most one step ever runs for a
//! given handle.

use vstd::prelude::*;

verus! {

/// The lifecycle states of a handle. `Attached` is the only state a live
/// handle can be observed in; the two terminal states describe how it was
/// relinquished.
#[derive(Clone, Copy, Debug, PartialEq, Eq, Structural)]
pub enum HandleState {
    /// The handle holds its registration token.
    Attached,
    /// The registration was removed from the target by an explicit discard.
    Detached,
    /// The registration was intentionally left active on the target.
    Forgotten,
}

/// How a handle is relinquished.
#[derive(Clone, Copy, Debug, PartialEq, Eq, Structural)]
pub enum TeardownKind {
    /// The consuming `discard` operation was called.
    Explicit,
    /// The handle went out of scope without an explicit discard.
    Implicit,
}

/// The host operations a teardown can issue for the registration token.
#[derive(Clone, Copy, Debug, PartialEq, Eq, Structural)]
pub enum HostCall {
    /// Remove the callback from its target.
    Unregister,
    /// Keep the registration active and give up ownership of it.
    Forget,
}

/// The terminal state that a teardown of the given kind reaches.
pub open spec fn teardown_state(kind: TeardownKind) -> HandleState {
    match kind {
        TeardownKind::Explicit => HandleState::Detached,
        TeardownKind::Implicit => HandleState::Forgotten,
    }
}

/// The single host call that a teardown of the given kind issues.
pub open spec fn teardown_call(kind: TeardownKind) -> HostCall {
    match kind {
        TeardownKind::Explicit => HostCall::Unregister,
        TeardownKind::Implicit => HostCall::Forget,
    }
}

/// Whether a state is terminal: no further teardown step starts from it.
pub open spec fn is_terminal(state: HandleState) -> bool {
    state != HandleState::Attached
}

/// Decides a teardown step: the terminal state the handle's lifecycle ends
/// in, and the host call to issue for its registration token.
pub fn teardown_step(kind: TeardownKind) -> (outcome: (HandleState, HostCall))
    ensures
        outcome.0 == teardown_state(kind),
        outcome.1 == teardown_call(kind),
    opens_invariants none
    no_unwind
{
    match kind {
        TeardownKind::Explicit => (HandleState::Detached, HostCall::Unregister),
        TeardownKind::Implicit => (HandleState::Forgotten, HostCall::Forget),
    }
}

/// Either teardown ends the lifecycle: whichever way a handle is
/// relinquished, the state reached is terminal, so no second teardown step
/// can start from it.
pub proof fn lemma_teardown_is_terminal(kind: TeardownKind)
    ensures
        is_terminal(teardown_state(kind)),
{
}

/// The two teardown paths are mutually exclusive: they reach distinct
/// terminal states and issue distinct host calls, so a handle is either
/// detached or forgotten, never both.
pub proof fn lemma_teardown_paths_distinct()
    ensures
        teardown_state(TeardownKind::Explicit) != teardown_state(TeardownKind::Implicit),
        teardown_call(TeardownKind::Explicit) != teardown_call(TeardownKind::Implicit),
{
}

/// Implicit scope exit never unregisters: the only host call it issues is
/// `Forget`, which keeps the registration active on the target.
pub proof fn lemma_implicit_keeps_registration()
    ensures
        teardown_call(TeardownKind::Implicit) == HostCall::Forget,
        teardown_call(TeardownKind::Implicit) != HostCall::Unregister,
{
}

/// Explicit discard unregisters: the only host call it issues is
/// `Unregister`; it never forgets the registration.
pub proof fn lemma_explicit_unregisters()
    ensures
        teardown_call(TeardownKind::Explicit) == HostCall::Unregister,
        teardown_call(TeardownKind::Explicit) != HostCall::Forget,
{
}

} // verus!
