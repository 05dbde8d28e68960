//! The event-listener handle: one registered (target, event name, options,
//! callback) binding on a host event target.
//!
//! The handle owns the registration token from construction on. It is
//! relinquished in exactly one of two ways, and they do opposite things:
//! going out of scope hands the token to the host's forget operation, which
//! deliberately keeps the registration active and attached; the consuming
//! [`Discard::discard`] hands it to the unregister operation, detaching the
//! callback from the target immediately. Both paths route their decision
//! through [`crate::lifecycle::teardown_step`].

use vstd::prelude::*;
use vstd::pervasive::unreached;

use crate::host;
use crate::lifecycle::{HostCall, TeardownKind};
use crate::options::EventOptions;

verus! {

/// What a live handle stands for: the event name and the registration
/// flags that its callback was registered with.
pub struct Registration {
    /// The event name the callback is registered under.
    pub name: Seq<char>,
    /// The flags the host observed at registration.
    pub options: EventOptions,
}

/// A handle owning one active registration of a callback on a host event
/// target. Constructed only in an attached state; see the module
/// documentation for the two teardown paths.
pub struct EventListenerHandle {
    listener: Option<gloo_events::EventListener>,
    info: Ghost<Registration>,
}

impl EventListenerHandle {
    /// A live handle holds its registration token. Every constructor
    /// establishes this, and only a teardown path removes the token, so a
    /// handle observable by a caller is always attached.
    pub closed spec fn attached(&self) -> bool {
        self.listener is Some
    }

    /// The registration this handle stands for.
    pub closed spec fn registration(&self) -> Registration {
        self.info@
    }

    /// The event name the handle's callback is registered under.
    pub open spec fn event_name(&self) -> Seq<char> {
        self.registration().name
    }

    /// The registration flags the host observed for this handle.
    pub open spec fn options(&self) -> EventOptions {
        self.registration().options
    }

    /// Register `callback` on `target` for the event `name` with `options`,
    /// translated verbatim for the host, and return the handle owning the
    /// resulting token. The name is interned first, so that a name used
    /// across many handles keeps a stable string identity.
    pub fn new<F>(
        target: web_sys::EventTarget,
        name: &'static str,
        options: &EventOptions,
        callback: F,
    ) -> (handle: EventListenerHandle) where F: FnMut(&web_sys::Event) + 'static
        requires
            forall|event: &web_sys::Event| call_requires(callback, (event,)),
        ensures
            handle.attached(),
            handle.event_name() == name@,
            handle.options() == *options,
    {
        let interned: &'static str = host::intern_str(name);
        let registration: gloo_events::EventListener = if options.once {
            host::register_once_with_options(
                &target,
                interned,
                options.capture,
                options.passive,
                callback,
            )
        } else {
            host::register(&target, interned, options.capture, options.passive, callback)
        };
        EventListenerHandle {
            listener: Some(registration),
            info: Ghost(Registration { name: name@, options: *options }),
        }
    }

    /// Register `callback` on `target` for the event `name`, for at most
    /// one delivery: the host self-clears the registration after delivering
    /// one event, and a second delivery never invokes the callback again.
    /// The host observes the collaborator's default flags (bubble phase,
    /// passive) together with the self-clearing one.
    pub fn once<F>(
        target: web_sys::EventTarget,
        name: &'static str,
        callback: F,
    ) -> (handle: EventListenerHandle) where F: FnOnce(&web_sys::Event) + 'static
        requires
            forall|event: &web_sys::Event| call_requires(callback, (event,)),
        ensures
            handle.attached(),
            handle.event_name() == name@,
            handle.options() == (EventOptions { capture: false, passive: true, once: true }),
    {
        let interned: &'static str = host::intern_str(name);
        let registration = host::register_once(&target, interned, callback);
        EventListenerHandle {
            listener: Some(registration),
            info: Ghost(
                Registration {
                    name: name@,
                    options: EventOptions { capture: false, passive: true, once: true },
                },
            ),
        }
    }
}

/// Issue the single host call that a teardown of the given kind decides on
/// for the handle's registration token.
fn issue_teardown(registration: gloo_events::EventListener, kind: TeardownKind)
    opens_invariants none
    no_unwind
{
    let step = crate::lifecycle::teardown_step(kind);
    match step.1 {
        HostCall::Unregister => host::unregister(registration),
        HostCall::Forget => host::forget(registration),
    }
}

impl EventListenerHandle {
    /// The explicit teardown path: hand the token to the host's unregister
    /// operation, detaching the callback from its target. The handle is
    /// consumed, so this runs at most once and the implicit path below then
    /// finds no token and stays silent. A live handle is always attached,
    /// so the precondition only rules out a handle that some other path
    /// already tore down, which the surrounding framework treats as a
    /// fatal bug.
    pub fn discard(self)
        requires
            self.attached(),
    {
        let mut this = self;
        match this.listener.take() {
            Some(registration) => issue_teardown(registration, TeardownKind::Explicit),
            None => unreached(),
        }
    }
}

impl Drop for EventListenerHandle {
    /// The implicit teardown path: if the token is still present, hand it
    /// to the host's forget operation, which keeps the registration active
    /// and attached. Dropping a handle never unregisters anything, and it
    /// always removes the token, ending the lifecycle.
    fn drop(&mut self)
        ensures
            !final(self).attached(),
        opens_invariants none
        no_unwind
    {
        let mut taken: Option<gloo_events::EventListener> = None;
        core::mem::swap(&mut self.listener, &mut taken);
        match taken {
            Some(registration) => issue_teardown(registration, TeardownKind::Implicit),
            None => (),
        }
    }
}

} // verus!
