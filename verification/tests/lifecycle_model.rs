// The teardown state machine: each way of relinquishing a handle reaches
// its own terminal state and issues its own host call.

use event_discard::lifecycle::{teardown_step, HandleState, HostCall, TeardownKind};

#[test]
fn explicit_teardown_unregisters_and_detaches() {
    let step = teardown_step(TeardownKind::Explicit);
    assert_eq!(step.0, HandleState::Detached);
    assert_eq!(step.1, HostCall::Unregister);
}

#[test]
fn implicit_teardown_forgets_and_never_unregisters() {
    let step = teardown_step(TeardownKind::Implicit);
    assert_eq!(step.0, HandleState::Forgotten);
    assert_eq!(step.1, HostCall::Forget);
    assert_ne!(step.1, HostCall::Unregister);
}

#[test]
fn both_teardown_paths_reach_distinct_terminal_states() {
    let explicit = teardown_step(TeardownKind::Explicit);
    let implicit = teardown_step(TeardownKind::Implicit);
    assert_ne!(explicit.0, HandleState::Attached);
    assert_ne!(implicit.0, HandleState::Attached);
    assert_ne!(explicit.0, implicit.0);
    assert_ne!(explicit.1, implicit.1);
}
