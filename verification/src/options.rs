//! Configuration for how a callback is registered with the host event
//! system.

use vstd::prelude::*;

verus! {

/// The three registration flags recognized by the host event system. They
/// are handed to the host verbatim when a listener is registered.
#[derive(Clone, Copy, Debug, PartialEq, Eq, Structural)]
pub struct EventOptions {
    /// Run the callback in the capture phase instead of the bubble phase.
    pub capture: bool,
    /// Register passively: better performance, but the callback cannot
    /// cancel the event's default action.
    pub passive: bool,
    /// The registration self-clears after the host has delivered one event.
    pub once: bool,
}

} // verus!
