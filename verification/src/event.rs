//! Canonical event model and the raw native payloads it is built from.
//!
//! A [`RawEvent`] carries, as plain values, exactly what a platform hook
//! callback extracts from its native payload.  The normalizer turns it into a
//! canonical [`Event`].  Wheel magnitudes are measured in *ticks*: one wheel
//! notch equals [`NOTCH_TICKS`] ticks, matching the platform convention where
//! one native wheel unit is 1/120 of a notch; platforms that report whole
//! lines use [`WheelUnit::Notch`] and are scaled by the normalizer.

use vstd::prelude::*;

use crate::key::{Key, KeyCode};

verus! {

/// Ticks per wheel notch: the canonical scroll unit is 1/120 of a notch.
pub const NOTCH_TICKS: i64 = 120;

/// The standard buttons on a mouse.
#[derive(Debug, Copy, Clone, PartialEq, Eq, Hash, Structural)]
pub enum MouseButton {
    Left,
    Right,
    Middle,
    Back,
    Forward,
}

/// A coordinate pair in integer pixels.
#[derive(Debug, Copy, Clone, PartialEq, Eq, Hash, Structural)]
pub struct Point {
    pub x: i32,
    pub y: i32,
}

/// A raw platform key identifier, tagged with the numbering scheme it uses.
#[derive(Debug, Copy, Clone, PartialEq, Eq, Hash, Structural)]
pub enum RawKey {
    /// A position-based hardware scan code.
    ScanCode(KeyCode),
    /// A layout-mapped virtual-key code, Windows numbering.
    WinVirtualKeycode(KeyCode),
    /// An X11 keycode; no translation table is provided for it.
    LinuxXorgKeycode(KeyCode),
    /// A console keycode; no translation table is provided for it.
    LinuxConsoleKeycode(KeyCode),
    /// A virtual key code, macOS numbering.
    MacVirtualKeycode(KeyCode),
}

/// The unit in which a platform reports wheel motion.
#[derive(Debug, Copy, Clone, PartialEq, Eq, Hash, Structural)]
pub enum WheelUnit {
    /// 1/120 of a notch per unit (the Windows `WHEEL_DELTA` convention).
    Tick,
    /// One whole notch (line) per unit.
    Notch,
}

/// One raw native input occurrence, reduced to plain values.
#[derive(Debug, Copy, Clone, PartialEq, Eq, Hash, Structural)]
pub enum RawEvent {
    /// Relative pointer motion, including drag variants.
    MouseMove { dx: i32, dy: i32 },
    /// A button transition; `index` numbers the buttons 0 = left, 1 = right,
    /// 2 = middle, 3 = back, 4 = forward.
    MouseButton { index: u32, down: bool },
    /// Wheel motion on two independent axes, in the given unit.
    MouseWheel { dx: i32, dy: i32, unit: WheelUnit },
    /// A discrete key transition.
    Key { key: RawKey, down: bool },
    /// A modifier-state notification carrying the whole flag bitset and the
    /// raw code of the key that caused it.
    FlagsChanged { flags: u64, key: RawKey },
}

/// The canonical platform-neutral input event delivered to subscribers.
#[derive(Debug, Copy, Clone, PartialEq, Eq, Hash, Structural)]
pub enum Event {
    /// Pointer motion with a pixel delta.
    MouseMove { delta: Point },
    /// Wheel rotation; each axis is in ticks of 1/120 notch.
    MouseWheel { delta_x: i64, delta_y: i64 },
    /// Button press.
    MouseDown { button: MouseButton },
    /// Button release.
    MouseUp { button: MouseButton },
    /// Key press, with the original raw code when one was available.
    KeyDown { key: Key, code: Option<KeyCode> },
    /// Key release, with the original raw code when one was available.
    KeyUp { key: Key, code: Option<KeyCode> },
}

} // verus!
