//! Tests of the global input listener's per-event logic.

use winloop::anim::Channel;
use winloop::input::{on_key_event, KeyEvent, KeyStroke};

#[test]
fn key_down_advances_the_channel_by_the_key_code_and_traces() {
    let mut ch = Channel::new();
    let o = on_key_event(
        &mut ch,
        true,
        KeyEvent::Down(KeyStroke { code: 65, scan: 30, time: 1234 }),
    );
    // The listener-owned channel moves by exactly 65/255, wrapped.
    assert_eq!(ch.get(), 65);
    assert!(o.forward);
    let t = o.trace.unwrap();
    assert!(t.down);
    assert_eq!(t.code, 65);
    assert_eq!(t.scan, 30);
    assert_eq!(t.time, 1234);
}

#[test]
fn key_up_traces_without_changing_the_channel() {
    let mut ch = Channel::new();
    ch.advance(65);
    let o = on_key_event(
        &mut ch,
        true,
        KeyEvent::Up(KeyStroke { code: 65, scan: 30, time: 1300 }),
    );
    assert_eq!(ch.get(), 65);
    assert!(o.forward);
    let t = o.trace.unwrap();
    assert!(!t.down);
    assert_eq!(t.code, 65);
}

#[test]
fn key_down_wraps_the_channel() {
    let mut ch = Channel::new();
    ch.advance(200);
    let o = on_key_event(
        &mut ch,
        true,
        KeyEvent::Down(KeyStroke { code: 300, scan: 0, time: 0 }),
    );
    // (200 + 300) mod 255
    assert_eq!(ch.get(), 245);
    assert!(o.forward);
}

#[test]
fn non_action_invocations_only_forward() {
    let mut ch = Channel::new();
    let o = on_key_event(
        &mut ch,
        false,
        KeyEvent::Down(KeyStroke { code: 65, scan: 30, time: 1 }),
    );
    assert_eq!(ch.get(), 0);
    assert!(o.forward);
    assert!(o.trace.is_none());
}

#[test]
fn other_event_subtypes_are_ignored_but_forwarded() {
    let mut ch = Channel::new();
    let o = on_key_event(&mut ch, true, KeyEvent::Other);
    assert_eq!(ch.get(), 0);
    assert!(o.forward);
    assert!(o.trace.is_none());
}

#[test]
fn key_code_zero_changes_nothing_but_still_traces() {
    let mut ch = Channel::new();
    let o = on_key_event(
        &mut ch,
        true,
        KeyEvent::Down(KeyStroke { code: 0, scan: 11, time: 2 }),
    );
    assert_eq!(ch.get(), 0);
    assert!(o.trace.unwrap().down);
}
