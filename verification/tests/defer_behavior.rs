// The deferred-destruction wrappers: the wrapped value's destructor, or the
// wrapped callback, runs exactly once on explicit discard and never runs on
// implicit scope exit.

use std::cell::Cell;
use std::rc::Rc;

use event_discard::defer::{FnDiscard, ValueDiscard};

/// A destructible stand-in that records how often its destructor ran.
struct Instrumented {
    drops: Rc<Cell<u32>>,
}

impl Drop for Instrumented {
    fn drop(&mut self) {
        self.drops.set(self.drops.get() + 1);
    }
}

#[test]
fn value_discard_runs_destructor_exactly_once_on_discard() {
    let drops: Rc<Cell<u32>> = Rc::new(Cell::new(0));
    let wrapper = ValueDiscard::new(Instrumented { drops: Rc::clone(&drops) });
    assert_eq!(drops.get(), 0);
    wrapper.discard();
    assert_eq!(drops.get(), 1);
}

#[test]
fn value_discard_never_runs_destructor_without_discard() {
    let drops: Rc<Cell<u32>> = Rc::new(Cell::new(0));
    {
        let _wrapper = ValueDiscard::new(Instrumented { drops: Rc::clone(&drops) });
    }
    assert_eq!(drops.get(), 0);
}

#[test]
fn fn_discard_invokes_callback_exactly_once_on_discard() {
    let calls: Rc<Cell<u32>> = Rc::new(Cell::new(0));
    let recorder = Rc::clone(&calls);
    let wrapper = FnDiscard::new(move || {
        recorder.set(recorder.get() + 1);
    });
    assert_eq!(calls.get(), 0);
    wrapper.discard();
    assert_eq!(calls.get(), 1);
}

#[test]
fn fn_discard_never_invokes_callback_without_discard() {
    let calls: Rc<Cell<u32>> = Rc::new(Cell::new(0));
    {
        let recorder = Rc::clone(&calls);
        let _wrapper = FnDiscard::new(move || {
            recorder.set(recorder.get() + 1);
        });
    }
    assert_eq!(calls.get(), 0);
}

#[test]
fn value_discard_leaves_plain_values_untouched_until_discard() {
    let wrapper = ValueDiscard::new(String::from("kept alive"));
    wrapper.discard();
}
