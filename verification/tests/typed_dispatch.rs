// The typed-dispatch capability: calling code supplies, per concrete event
// type, a static string tag and a narrowing conversion from the host's
// generic event object.

use event_discard::dispatch::StaticEvent;

/// A semantic event type for host click events.
struct Click;

impl StaticEvent for Click {
    // The specification-level tag is a ghost item: it is erased from
    // compiled code and never called at run time, so a diverging body
    // satisfies it here.
    fn spec_event_type() -> vstd::seq::Seq<char> {
        panic!()
    }

    fn event_type() -> &'static str {
        "click"
    }

    fn unchecked_from_event(_event: web_sys::Event) -> Self {
        Click
    }
}

#[test]
fn click_capability_supplies_the_click_tag() {
    assert_eq!(Click::event_type(), "click");
}
