// The registration flags round-trip: the flag combination a caller
// constructs is exactly the one held for the host.

use event_discard::options::EventOptions;

#[test]
fn options_round_trip_keeps_every_flag() {
    let options = EventOptions { capture: true, passive: false, once: false };
    assert_eq!(options.capture, true);
    assert_eq!(options.passive, false);
    assert_eq!(options.once, false);
}

#[test]
fn options_compare_by_their_flags() {
    let options = EventOptions { capture: false, passive: true, once: true };
    let copied = options;
    assert_eq!(copied, EventOptions { capture: false, passive: true, once: true });
    assert_ne!(copied, EventOptions { capture: true, passive: true, once: true });
}
