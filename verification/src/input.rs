//! The global input listener's per-event logic.
//!
//! The OS invokes a process-wide low-level key-event callback with a strict
//! time budget. Its whole decision is here: a key-down event advances the
//! listener-owned animation channel by the key code (wrapping) and emits a
//! diagnostic record; a key-up event emits a record only; anything else is
//! ignored; and every invocation forwards the event to the next listener in
//! the OS-maintained chain.

use crate::anim::Channel;
use crate::anim::SCALE;
use vstd::prelude::*;

verus! {

/// One key event as delivered to the low-level callback.
#[derive(Clone, Copy, Debug, PartialEq, Eq, Structural)]
pub struct KeyStroke {
    /// The virtual key code.
    pub code: u32,
    /// The hardware scan code.
    pub scan: u32,
    /// The event's timestamp.
    pub time: u32,
}

/// The subtype of a delivered event.
#[derive(Clone, Copy, Debug, PartialEq, Eq, Structural)]
pub enum KeyEvent {
    /// A key was pressed.
    Down(KeyStroke),
    /// A key was released.
    Up(KeyStroke),
    /// Any other event subtype.
    Other,
}

/// A diagnostic trace record of one key event.
#[derive(Clone, Copy, Debug, PartialEq, Eq, Structural)]
pub struct TraceRecord {
    /// Whether the event was a key press (as opposed to a release).
    pub down: bool,
    /// The virtual key code.
    pub code: u32,
    /// The hardware scan code.
    pub scan: u32,
    /// The event's timestamp.
    pub time: u32,
}

/// What one callback invocation must do: possibly emit a trace record, and
/// always forward the event down the listener chain.
pub struct HookOutcome {
    /// The diagnostic record to emit, if any.
    pub trace: Option<TraceRecord>,
    /// The event must be forwarded to the next listener; this is always true.
    pub forward: bool,
}

/// The key stroke carried by a key-down or key-up event.
pub open spec fn stroke_of(event: KeyEvent) -> KeyStroke
    recommends
        !(event is Other),
{
    match event {
        KeyEvent::Down(k) => k,
        KeyEvent::Up(k) => k,
        KeyEvent::Other => arbitrary(),
    }
}

/// The diagnostic record for a key stroke, with its press/release direction.
pub open spec fn trace_of(down: bool, k: KeyStroke) -> TraceRecord {
    TraceRecord { down: down, code: k.code, scan: k.scan, time: k.time }
}

/// Handle one invocation of the low-level key callback. `is_action` is
/// whether the OS asked the callback to process the event (rather than to
/// pass it on untouched). A processed key-down advances the listener-owned
/// channel by the key code, wrapping, and emits a record; a processed key-up
/// emits a record only; everything else changes nothing. The event is
/// forwarded in every case.
pub fn on_key_event(channel: &mut Channel, is_action: bool, event: KeyEvent) -> (o: HookOutcome)
    requires
        old(channel).wf(),
    ensures
        final(channel).wf(),
        o.forward,
        is_action && event is Down ==> final(channel)@ == (old(channel)@
            + stroke_of(event).code) % (SCALE as int) && o.trace == Some(
            trace_of(true, stroke_of(event)),
        ),
        !(is_action && event is Down) ==> final(channel)@ == old(channel)@,
        is_action && event is Up ==> o.trace == Some(trace_of(false, stroke_of(event))),
        !is_action || event is Other ==> o.trace is None,
{
    if is_action {
        match event {
            KeyEvent::Down(k) => {
                channel.advance(k.code);
                HookOutcome {
                    trace: Some(
                        TraceRecord { down: true, code: k.code, scan: k.scan, time: k.time },
                    ),
                    forward: true,
                }
            },
            KeyEvent::Up(k) => HookOutcome {
                trace: Some(TraceRecord { down: false, code: k.code, scan: k.scan, time: k.time }),
                forward: true,
            },
            KeyEvent::Other => HookOutcome { trace: None, forward: true },
        }
    } else {
        HookOutcome { trace: None, forward: true }
    }
}

} // verus!
