//! The listener engine: normalizes raw native events into canonical events
//! and feeds them to the dispatcher.
//!
//! A raw event produces a canonical event only when the listener is running
//! and the event's category bit is set in its mask.  Within a category the
//! normalizer applies the platform conventions: zero-delta moves are dropped,
//! extra mouse buttons are resolved by index, wheel motion is converted to
//! ticks of 1/120 notch, key codes run through the translation tables, and
//! modifier-flag notifications are turned into discrete key transitions by
//! comparing against the last observed modifier bitset.

use vstd::prelude::*;

use crate::dispatcher::{EventCallback, Registry};
use crate::event::{Event, MouseButton, Point, RawEvent, RawKey, WheelUnit, NOTCH_TICKS};
use crate::key::Key;
use crate::keycode_macos;
use crate::keycode_windows;
use crate::mask::{
    category_bit, category_enabled, spec_update_state, update_state, MASK_ALL, MASK_KEYBOARD,
    MASK_MOUSE_BUTTON, MASK_MOUSE_MOVE, MASK_MOUSE_WHEEL,
};
use crate::subscription::SubscriptionHandle;

verus! {

/// The listener: running flag, capability mask, the last observed modifier
/// bitset, and the subscriber registry its events are dispatched to.
pub struct Listen<C> {
    /// Whether normalization currently takes place.
    pub running: bool,
    /// Capability mask of the observed categories.
    pub flags: u32,
    /// Last observed modifier-flag bitset, for platforms that report modifier
    /// keys through a single flags-changed notification.
    pub last_flags: u64,
    /// The subscriptions this listener dispatches to.
    pub registry: Registry<C>,
}

/// The canonical button for a native button index: 0 = left, 1 = right,
/// 2 = middle, 3 = back, 4 = forward; other indices are unrecognized.
pub open spec fn spec_button_of_index(index: u32) -> Option<MouseButton> {
    if index == 0 {
        Some(MouseButton::Left)
    } else if index == 1 {
        Some(MouseButton::Right)
    } else if index == 2 {
        Some(MouseButton::Middle)
    } else if index == 3 {
        Some(MouseButton::Back)
    } else if index == 4 {
        Some(MouseButton::Forward)
    } else {
        None
    }
}

/// A raw wheel magnitude in canonical ticks: tick-unit platforms pass the
/// value through, notch-unit platforms are scaled by the ticks per notch.
pub open spec fn spec_wheel_ticks(v: i32, unit: WheelUnit) -> int {
    match unit {
        WheelUnit::Tick => v as int,
        WheelUnit::Notch => v * NOTCH_TICKS,
    }
}

/// The canonical key a raw platform key resolves to, through the table of
/// its numbering scheme; schemes without a table degrade to `Unidentified`.
pub open spec fn spec_translate_key(raw: RawKey) -> Key {
    match raw {
        RawKey::ScanCode(c) => keycode_windows::spec_scancode_to_key(c),
        RawKey::WinVirtualKeycode(c) => keycode_windows::spec_code_to_key(c),
        RawKey::MacVirtualKeycode(c) => keycode_macos::spec_code_to_key(c),
        RawKey::LinuxXorgKeycode(_) => Key::Unidentified,
        RawKey::LinuxConsoleKeycode(_) => Key::Unidentified,
    }
}

/// The numeric code a raw platform key carries.
pub open spec fn spec_raw_code(raw: RawKey) -> u32 {
    match raw {
        RawKey::ScanCode(c) => c,
        RawKey::WinVirtualKeycode(c) => c,
        RawKey::MacVirtualKeycode(c) => c,
        RawKey::LinuxXorgKeycode(c) => c,
        RawKey::LinuxConsoleKeycode(c) => c,
    }
}

/// The canonical event a raw event normalizes to under the given listener
/// state, or `None` when it is dropped.
pub open spec fn spec_normalize(running: bool, flags: u32, last_flags: u64, raw: RawEvent) -> Option<
    Event,
> {
    if !running || !category_enabled(flags, category_bit(raw)) {
        None
    } else {
        match raw {
            RawEvent::MouseMove { dx, dy } => {
                if dx == 0 && dy == 0 {
                    None
                } else {
                    Some(Event::MouseMove { delta: Point { x: dx, y: dy } })
                }
            },
            RawEvent::MouseButton { index, down } => {
                match spec_button_of_index(index) {
                    None => None,
                    Some(button) => Some(
                        if down {
                            Event::MouseDown { button }
                        } else {
                            Event::MouseUp { button }
                        },
                    ),
                }
            },
            RawEvent::MouseWheel { dx, dy, unit } => {
                let tx = spec_wheel_ticks(dx, unit);
                let ty = spec_wheel_ticks(dy, unit);
                if tx == 0 && ty == 0 {
                    None
                } else {
                    Some(Event::MouseWheel { delta_x: tx as i64, delta_y: ty as i64 })
                }
            },
            RawEvent::Key { key, down } => {
                let k = spec_translate_key(key);
                Some(
                    if down {
                        Event::KeyDown { key: k, code: Some(spec_raw_code(key)) }
                    } else {
                        Event::KeyUp { key: k, code: Some(spec_raw_code(key)) }
                    },
                )
            },
            RawEvent::FlagsChanged { flags: new_flags, key } => {
                let changed = new_flags ^ last_flags;
                if changed == 0 {
                    None
                } else {
                    let k = spec_translate_key(key);
                    Some(
                        if new_flags & changed != 0 {
                            Event::KeyDown { key: k, code: Some(spec_raw_code(key)) }
                        } else {
                            Event::KeyUp { key: k, code: Some(spec_raw_code(key)) }
                        },
                    )
                }
            },
        }
    }
}

/// The modifier snapshot after a raw event is handled: a flags-changed
/// notification that passes the gates replaces it, everything else keeps it.
pub open spec fn spec_next_last_flags(
    running: bool,
    flags: u32,
    last_flags: u64,
    raw: RawEvent,
) -> u64 {
    match raw {
        RawEvent::FlagsChanged { flags: new_flags, .. } => {
            if running && category_enabled(flags, MASK_KEYBOARD) {
                new_flags
            } else {
                last_flags
            }
        },
        _ => last_flags,
    }
}

/// Law: zero-delta suppression.  A move whose delta is (0, 0), or a wheel
/// event with zero magnitude on both axes, never normalizes to an event, so
/// it can never reach a subscriber, whatever the listener state.
pub proof fn lemma_zero_delta_suppressed(
    running: bool,
    flags: u32,
    last_flags: u64,
    unit: WheelUnit,
)
    ensures
        spec_normalize(running, flags, last_flags, RawEvent::MouseMove { dx: 0, dy: 0 }) is None,
        spec_normalize(
            running,
            flags,
            last_flags,
            RawEvent::MouseWheel { dx: 0, dy: 0, unit },
        ) is None,
{
}

/// Law: modifier-flags decoding.  Under a running listener with the keyboard
/// category enabled, a flags-changed notification produces no event when the
/// bitset is unchanged, exactly one key-down when the changed bit rose, and
/// exactly one key-up when it fell.
pub proof fn lemma_flags_changed_decoding(
    running: bool,
    flags: u32,
    last_flags: u64,
    new_flags: u64,
    key: RawKey,
)
    requires
        running,
        category_enabled(flags, MASK_KEYBOARD),
    ensures
        new_flags == last_flags ==> spec_normalize(
            running,
            flags,
            last_flags,
            RawEvent::FlagsChanged { flags: new_flags, key },
        ) is None,
        new_flags ^ last_flags != 0 && new_flags & (new_flags ^ last_flags) != 0 ==> spec_normalize(
            running,
            flags,
            last_flags,
            RawEvent::FlagsChanged { flags: new_flags, key },
        ) == Some(
            Event::KeyDown { key: spec_translate_key(key), code: Some(spec_raw_code(key)) },
        ),
        new_flags ^ last_flags != 0 && new_flags & (new_flags ^ last_flags) == 0 ==> spec_normalize(
            running,
            flags,
            last_flags,
            RawEvent::FlagsChanged { flags: new_flags, key },
        ) == Some(Event::KeyUp { key: spec_translate_key(key), code: Some(spec_raw_code(key)) }),
{
    assert(new_flags == last_flags ==> new_flags ^ last_flags == 0) by (bit_vector);
}

/// Maps a native button index to its canonical button.
pub fn button_of_index(index: u32) -> (r: Option<MouseButton>)
    ensures
        r == spec_button_of_index(index),
{
    if index == 0 {
        Some(MouseButton::Left)
    } else if index == 1 {
        Some(MouseButton::Right)
    } else if index == 2 {
        Some(MouseButton::Middle)
    } else if index == 3 {
        Some(MouseButton::Back)
    } else if index == 4 {
        Some(MouseButton::Forward)
    } else {
        None
    }
}

/// Converts a raw wheel magnitude to canonical ticks.
pub fn wheel_ticks(v: i32, unit: WheelUnit) -> (r: i64)
    ensures
        r == spec_wheel_ticks(v, unit),
{
    match unit {
        WheelUnit::Tick => v as i64,
        WheelUnit::Notch => (v as i64) * NOTCH_TICKS,
    }
}

/// Translates a raw platform key to its canonical key.
pub fn translate_key(raw: RawKey) -> (r: Key)
    ensures
        r == spec_translate_key(raw),
{
    match raw {
        RawKey::ScanCode(c) => keycode_windows::scancode_to_key(c),
        RawKey::WinVirtualKeycode(c) => keycode_windows::code_to_key(c),
        RawKey::MacVirtualKeycode(c) => keycode_macos::code_to_key(c),
        RawKey::LinuxXorgKeycode(_) => Key::Unidentified,
        RawKey::LinuxConsoleKeycode(_) => Key::Unidentified,
    }
}

/// Extracts the numeric code of a raw platform key.
pub fn raw_code(raw: RawKey) -> (r: u32)
    ensures
        r == spec_raw_code(raw),
{
    match raw {
        RawKey::ScanCode(c) => c,
        RawKey::WinVirtualKeycode(c) => c,
        RawKey::MacVirtualKeycode(c) => c,
        RawKey::LinuxXorgKeycode(c) => c,
        RawKey::LinuxConsoleKeycode(c) => c,
    }
}

impl<C> Listen<C> {
    /// The listener is well-formed when its registry is.
    pub open spec fn wf(&self) -> bool {
        self.registry.wf()
    }

    /// A stopped listener with an empty mask, a zero modifier snapshot, and
    /// an empty registry.
    pub fn new() -> (r: Self)
        ensures
            r.wf(),
            !r.running,
            r.flags == 0,
            r.last_flags == 0,
            r.registry.subs@.len() == 0,
            r.registry.next_id == 0,
    {
        Listen { running: false, flags: 0, last_flags: 0, registry: Registry::new() }
    }

    /// Marks the listener running; returns whether it already was.
    fn is_run(&mut self) -> (r: bool)
        ensures
            r == old(self).running,
            final(self).running,
            final(self).flags == old(self).flags,
            final(self).last_flags == old(self).last_flags,
            final(self).registry == old(self).registry,
    {
        if self.running {
            true
        } else {
            self.running = true;
            false
        }
    }

    /// Starts listening.  A first start enables every category; a start
    /// while already running is a no-op and keeps the current mask.
    pub fn start(&mut self)
        ensures
            final(self).running,
            final(self).flags == (if old(self).running {
                old(self).flags
            } else {
                MASK_ALL
            }),
            final(self).last_flags == old(self).last_flags,
            final(self).registry == old(self).registry,
    {
        if self.is_run() {
            return;
        }
        self.flags = MASK_ALL;
    }

    /// Whether the listener is currently running.
    pub fn is_runing(&self) -> (r: bool)
        ensures
            r == self.running,
    {
        self.running
    }

    /// Pauses the listener without touching the mask or the registry.
    pub fn pause(&mut self)
        ensures
            !final(self).running,
            final(self).flags == old(self).flags,
            final(self).last_flags == old(self).last_flags,
            final(self).registry == old(self).registry,
    {
        self.running = false;
    }

    /// Resumes the listener with the mask and registry as they were.
    pub fn resume(&mut self)
        ensures
            final(self).running,
            final(self).flags == old(self).flags,
            final(self).last_flags == old(self).last_flags,
            final(self).registry == old(self).registry,
    {
        self.running = true;
    }

    /// Stops the listener: clears the mask, pauses, and removes every
    /// subscription, resetting the id counter.  Safe without a prior start.
    pub fn stop(&mut self)
        ensures
            final(self).wf(),
            !final(self).running,
            final(self).flags == 0,
            final(self).last_flags == old(self).last_flags,
            final(self).registry.subs@.len() == 0,
            final(self).registry.next_id == 0,
    {
        self.flags = 0;
        self.pause();
        self.unsubscribe_all();
    }

    /// Sets or clears the pointer-motion category, leaving the others as
    /// they are.
    pub fn mouse_move(&mut self, enable: bool)
        ensures
            final(self).flags == spec_update_state(old(self).flags, MASK_MOUSE_MOVE, enable),
            final(self).running == old(self).running,
            final(self).last_flags == old(self).last_flags,
            final(self).registry == old(self).registry,
    {
        self.flags = update_state(self.flags, MASK_MOUSE_MOVE, enable);
    }

    /// Sets or clears the wheel category, leaving the others as they are.
    pub fn mouse_wheel(&mut self, enable: bool)
        ensures
            final(self).flags == spec_update_state(old(self).flags, MASK_MOUSE_WHEEL, enable),
            final(self).running == old(self).running,
            final(self).last_flags == old(self).last_flags,
            final(self).registry == old(self).registry,
    {
        self.flags = update_state(self.flags, MASK_MOUSE_WHEEL, enable);
    }

    /// Sets or clears the button category, leaving the others as they are.
    pub fn mouse_button(&mut self, enable: bool)
        ensures
            final(self).flags == spec_update_state(old(self).flags, MASK_MOUSE_BUTTON, enable),
            final(self).running == old(self).running,
            final(self).last_flags == old(self).last_flags,
            final(self).registry == old(self).registry,
    {
        self.flags = update_state(self.flags, MASK_MOUSE_BUTTON, enable);
    }

    /// Sets or clears the keyboard category, leaving the others as they are.
    pub fn keyboard(&mut self, enable: bool)
        ensures
            final(self).flags == spec_update_state(old(self).flags, MASK_KEYBOARD, enable),
            final(self).running == old(self).running,
            final(self).last_flags == old(self).last_flags,
            final(self).registry == old(self).registry,
    {
        self.flags = update_state(self.flags, MASK_KEYBOARD, enable);
    }

    /// Registers a callback and returns the handle bound to its fresh id.
    pub fn subscribe(&mut self, callback: C) -> (h: SubscriptionHandle)
        requires
            old(self).wf(),
            old(self).registry.next_id < u64::MAX,
        ensures
            final(self).wf(),
            h.id == old(self).registry.next_id,
            final(self).registry.next_id == old(self).registry.next_id + 1,
            final(self).registry.subs@.len() == old(self).registry.subs@.len() + 1,
            final(self).registry.subs@.drop_last() == old(self).registry.subs@,
            final(self).registry.subs@.last().id == h.id,
            final(self).registry.subs@.last().status is Active,
            final(self).running == old(self).running,
            final(self).flags == old(self).flags,
            final(self).last_flags == old(self).last_flags,
    {
        self.registry.subscribe(callback)
    }

    /// Removes every subscription and resets the id counter to zero.
    pub fn unsubscribe_all(&mut self)
        ensures
            final(self).wf(),
            final(self).registry.subs@.len() == 0,
            final(self).registry.next_id == 0,
            final(self).running == old(self).running,
            final(self).flags == old(self).flags,
            final(self).last_flags == old(self).last_flags,
    {
        self.registry.remove_all();
    }
}

impl<C: EventCallback> Listen<C> {
    /// Normalizes one raw event under the current listener state, dispatches
    /// the canonical event to every active subscriber if one is produced,
    /// and returns it.  The modifier snapshot advances exactly as
    /// [`spec_next_last_flags`] says; nothing else changes.
    pub fn handle(&mut self, raw: RawEvent) -> (r: Option<Event>)
        ensures
            r == spec_normalize(old(self).running, old(self).flags, old(self).last_flags, raw),
            final(self).last_flags == spec_next_last_flags(
                old(self).running,
                old(self).flags,
                old(self).last_flags,
                raw,
            ),
            final(self).running == old(self).running,
            final(self).flags == old(self).flags,
            final(self).registry == old(self).registry,
    {
        if !self.running {
            return None;
        }
        let state = self.flags;
        let event = match raw {
            RawEvent::MouseMove { dx, dy } => {
                if state & MASK_MOUSE_MOVE == 0 {
                    return None;
                }
                if dx == 0 && dy == 0 {
                    return None;
                }
                Event::MouseMove { delta: Point { x: dx, y: dy } }
            },
            RawEvent::MouseButton { index, down } => {
                if state & MASK_MOUSE_BUTTON == 0 {
                    return None;
                }
                let button = match button_of_index(index) {
                    None => { return None; },
                    Some(button) => button,
                };
                if down {
                    Event::MouseDown { button }
                } else {
                    Event::MouseUp { button }
                }
            },
            RawEvent::MouseWheel { dx, dy, unit } => {
                if state & MASK_MOUSE_WHEEL == 0 {
                    return None;
                }
                let tx = wheel_ticks(dx, unit);
                let ty = wheel_ticks(dy, unit);
                if tx == 0 && ty == 0 {
                    return None;
                }
                Event::MouseWheel { delta_x: tx, delta_y: ty }
            },
            RawEvent::Key { key, down } => {
                if state & MASK_KEYBOARD == 0 {
                    return None;
                }
                let k = translate_key(key);
                let code = Some(raw_code(key));
                if down {
                    Event::KeyDown { key: k, code }
                } else {
                    Event::KeyUp { key: k, code }
                }
            },
            RawEvent::FlagsChanged { flags: new_flags, key } => {
                if state & MASK_KEYBOARD == 0 {
                    return None;
                }
                let old_flags = self.last_flags;
                self.last_flags = new_flags;
                let changed = new_flags ^ old_flags;
                if changed == 0 {
                    return None;
                }
                let k = translate_key(key);
                let code = Some(raw_code(key));
                if new_flags & changed != 0 {
                    Event::KeyDown { key: k, code }
                } else {
                    Event::KeyUp { key: k, code }
                }
            },
        };
        self.registry.dispatch(event);
        Some(event)
    }

    /// Handles one raw pointer-motion report.  Absolute-motion reports are
    /// consumed without producing an event (only relative deltas are
    /// observed); a relative delta is handled like a raw move event.
    /// Returns whether the report was consumed, which it is exactly when the
    /// listener runs with the pointer-motion category enabled.
    pub fn handle_mouse_move(&mut self, is_absolute: bool, dx: i32, dy: i32) -> (handled: bool)
        ensures
            handled == (old(self).running && category_enabled(old(self).flags, MASK_MOUSE_MOVE)),
            final(self).running == old(self).running,
            final(self).flags == old(self).flags,
            final(self).last_flags == old(self).last_flags,
            final(self).registry == old(self).registry,
    {
        if !self.running {
            return false;
        }
        if self.flags & MASK_MOUSE_MOVE == 0 {
            return false;
        }
        if is_absolute {
            return true;
        }
        let _ = self.handle(RawEvent::MouseMove { dx, dy });
        true
    }
}

} // verus!
