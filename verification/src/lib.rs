//! A small resource-lifecycle library for event subscriptions on host
//! (DOM-like) targets.
//!
//! Every resource here has two distinct teardown paths: an *implicit* one
//! (the value goes out of scope) and an *explicit* one (the consuming
//! `discard` operation). For an event-listener handle the implicit path
//! deliberately keeps the host registration alive, while the explicit path
//! unregisters it immediately and exactly once. The generic wrappers in
//! [`defer`] apply the same protocol to arbitrary values and callbacks.

pub mod defer;
pub mod dispatch;
pub mod host;
pub mod lifecycle;
pub mod listener;
pub mod options;
