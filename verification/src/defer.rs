//! Generic building blocks for the dual-teardown protocol: wrappers that
//! defer a value's destructor ([`ValueDiscard`]) or a callback
//! ([`FnDiscard`]) until an explicit discard.
//!
//! Each wrapper offers one consuming `discard` operation. Because `discard`
//! takes the wrapper by value, it runs at most once per instance and the
//! wrapper cannot be referenced afterwards; letting the wrapper go out of
//! scope instead is the implicit teardown, which deliberately does nothing.
//! The surrounding framework's ownership-consuming teardown trait is
//! implemented over these types outside the verified core.

use vstd::prelude::*;

verus! {

/// Wraps a value and suppresses its automatic destruction: the value's
/// destructor runs exactly once on explicit discard, and never runs if the
/// wrapper simply goes out of scope. The resulting leak on implicit
/// teardown is the designed default, for values that must outlive their
/// nominal scope unless explicitly released.
pub struct ValueDiscard<A>(core::mem::ManuallyDrop<A>);

impl<A> View for ValueDiscard<A> {
    type V = A;

    closed spec fn view(&self) -> A {
        self.0@
    }
}

impl<A> ValueDiscard<A> {
    /// Wrap `value`, exempting it from automatic destruction.
    pub fn new(value: A) -> (wrapper: Self)
        ensures
            wrapper@ == value,
    {
        ValueDiscard(core::mem::ManuallyDrop::new(value))
    }

    /// Take the value back out of its cell and let it fall out of scope
    /// here, running its normal destructor exactly once.
    pub fn discard(self) {
        let ValueDiscard(cell) = self;
        let _value: A = core::mem::ManuallyDrop::into_inner(cell);
    }
}

/// Wraps a no-argument callback that runs exactly once on explicit discard,
/// and never runs if the wrapper simply goes out of scope. This lets
/// arbitrary cleanup logic join the same teardown protocol as the other
/// resources in this library.
pub struct FnDiscard<A>(A);

impl<A> View for FnDiscard<A> {
    type V = A;

    closed spec fn view(&self) -> A {
        self.0
    }
}

impl<A> FnDiscard<A> where A: FnOnce() {
    /// Wrap `callback` without calling it.
    pub fn new(callback: A) -> (wrapper: Self)
        ensures
            wrapper@ == callback,
    {
        FnDiscard(callback)
    }

    /// Invoke the wrapped callback exactly once.
    pub fn discard(self)
        requires
            call_requires(self@, ()),
        ensures
            call_ensures(self@, (), ()),
    {
        let FnDiscard(callback) = self;
        callback()
    }
}

} // verus!
