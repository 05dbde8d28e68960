//! The trusted boundary to the host event system.
//!
//! Registration, unregistration and the intentional "keep it alive" hand-off
//! are performed by outside collaborators (`gloo_events` over `web_sys`,
//! with `wasm_bindgen` for string interning). Each item below either
//! declares one of their types or wraps exactly one of their operations;
//! everything else in this library is verified against these contracts.
//! Host failures are treated as fatal by the collaborators themselves
//! (they throw host-level errors rather than returning), so no wrapper
//! reports a recoverable error.

use vstd::prelude::*;

verus! {

#[verifier::external_type_specification]
#[verifier::external_body]
pub struct ExEventTarget(web_sys::EventTarget);

#[verifier::external_type_specification]
#[verifier::external_body]
pub struct ExEvent(web_sys::Event);

#[verifier::external_type_specification]
#[verifier::external_body]
pub struct ExRegistration(gloo_events::EventListener);

/// Relies on `wasm_bindgen::intern`: it returns its argument unchanged,
/// caching it so that later hand-offs of the same string to the host are
/// cheap.
#[verifier::external_body]
pub(crate) fn intern_str(name: &'static str) -> (interned: &'static str)
    ensures
        interned@ == name@,
{
    wasm_bindgen::intern(name)
}

/// Relies on `web_sys::Event`'s `Clone` impl: the clone is a new handle to
/// the same host event object. Nothing is assumed about the result.
#[verifier::external_body]
pub(crate) fn clone_event(event: &web_sys::Event) -> web_sys::Event {
    event.clone()
}

/// Relies on `gloo_events::EventListener::new_with_options`: attaches
/// `callback` to `target` under the event name `name`, in the capture phase
/// iff `capture` and passively iff `passive` (and not once), and returns
/// the token of the now-active registration.
#[verifier::external_body]
pub(crate) fn register<F: FnMut(&web_sys::Event) + 'static>(
    target: &web_sys::EventTarget,
    name: &'static str,
    capture: bool,
    passive: bool,
    callback: F,
) -> gloo_events::EventListener {
    let phase = if capture {
        gloo_events::EventListenerPhase::Capture
    } else {
        gloo_events::EventListenerPhase::Bubble
    };
    let options = gloo_events::EventListenerOptions { phase, passive };
    gloo_events::EventListener::new_with_options(target, name, options, callback)
}

/// Relies on `gloo_events::EventListener::once_with_options`: attaches
/// `callback` to `target` under the event name `name`, in the capture phase
/// iff `capture` and passively iff `passive`, for at most one delivery: the
/// host drops the registration after delivering one event, and the
/// collaborator refuses to run the callback a second time.
#[verifier::external_body]
pub(crate) fn register_once_with_options<F: FnOnce(&web_sys::Event) + 'static>(
    target: &web_sys::EventTarget,
    name: &'static str,
    capture: bool,
    passive: bool,
    callback: F,
) -> gloo_events::EventListener {
    let phase = if capture {
        gloo_events::EventListenerPhase::Capture
    } else {
        gloo_events::EventListenerPhase::Bubble
    };
    let options = gloo_events::EventListenerOptions { phase, passive };
    gloo_events::EventListener::once_with_options(target, name, options, callback)
}

/// Relies on `gloo_events::EventListener::once`: attaches `callback` to
/// `target` under the event name `name` with the collaborator's default
/// flags (bubble phase, passive), for at most one delivery.
#[verifier::external_body]
pub(crate) fn register_once<F: FnOnce(&web_sys::Event) + 'static>(
    target: &web_sys::EventTarget,
    name: &'static str,
    callback: F,
) -> gloo_events::EventListener {
    gloo_events::EventListener::once(target, name, callback)
}

/// Relies on `gloo_events::EventListener`'s `Drop` impl: dropping a live
/// registration token removes the callback from its target. A host that
/// cannot detach raises a fatal host-level error instead of unwinding.
#[verifier::external_body]
pub(crate) fn unregister(registration: gloo_events::EventListener)
    opens_invariants none
    no_unwind
{
    drop(registration)
}

/// Relies on `gloo_events::EventListener::forget`: gives up ownership of
/// the registration token while leaving the registration active on its
/// target forever. Its body only takes an always-present callback out of
/// its slot and leaks it, so it cannot unwind.
#[verifier::external_body]
pub(crate) fn forget(registration: gloo_events::EventListener)
    opens_invariants none
    no_unwind
{
    registration.forget()
}

} // verus!
