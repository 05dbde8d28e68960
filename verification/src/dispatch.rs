//! Capability-based typed dispatch: the generic entry point that turns a
//! callback over a semantic event type into a registered listener handle.

use vstd::prelude::*;

use crate::host;
use crate::listener::EventListenerHandle;
use crate::options::EventOptions;

verus! {

/// The capability a semantic event type supplies to take part in typed
/// dispatch: a static string tag, and a narrowing conversion from the
/// host's generic event object. The capability contract makes the
/// narrowing infallible: any event the host delivers under this type's tag
/// can be narrowed to this type. Calling code implements this per concrete
/// event type; no type switch happens at run time.
pub trait StaticEvent: Sized {
    /// The tag at the specification level: the characters of the static
    /// string this event type is known under.
    spec fn spec_event_type() -> Seq<char>;

    /// The static string tag the host knows this event type under.
    fn event_type() -> (tag: &'static str)
        ensures
            tag@ == Self::spec_event_type(),
    ;

    /// Narrow a generic host event to this type.
    fn unchecked_from_event(event: web_sys::Event) -> Self;
}

/// Register `callback` on `target` for `E`'s event tag with `options`,
/// and return the handle owning the registration. Each delivered generic
/// event is narrowed to `E` exactly once and then handed to `callback`.
pub fn on<E, F>(
    target: web_sys::EventTarget,
    options: &EventOptions,
    callback: F,
) -> (handle: EventListenerHandle) where E: StaticEvent + 'static, F: Fn(E) + 'static
    requires
        forall|event: E| call_requires(callback, (event,)),
    ensures
        handle.attached(),
        handle.event_name() == E::spec_event_type(),
        handle.options() == *options,
{
    let name: &'static str = E::event_type();
    let adapter = move |event: &web_sys::Event| {
        let own: web_sys::Event = host::clone_event(event);
        let typed: E = E::unchecked_from_event(own);
        callback(typed);
    };
    EventListenerHandle::new(target, name, options, adapter)
}

} // verus!
