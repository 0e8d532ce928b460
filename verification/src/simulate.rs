//! The synthesizer: converts canonical events into native injection
//! descriptors.
//!
//! A descriptor batch mirrors the platform's `SendInput` wire format, as
//! plain values: the caller submits the whole batch in one native call.
//! Building the batch — button flag selection, wheel splitting, key-code
//! lookup with the extended-key prefix, and the DPI-aware absolute-coordinate
//! mapping — is the logic verified here; the injection call itself is an
//! opaque platform primitive made outside this crate.

use vstd::prelude::*;

use crate::display::{VirtualDesktop, MAX_SCALE_PERCENT};
use crate::event::{Event, MouseButton};
use crate::key::Key;
use crate::keycode_windows::{get_win_codes, spec_get_win_codes};

verus! {

/// Relative pointer motion flag.
pub const MOUSEEVENTF_MOVE: u32 = 0x0001;

/// Left button press flag.
pub const MOUSEEVENTF_LEFTDOWN: u32 = 0x0002;

/// Left button release flag.
pub const MOUSEEVENTF_LEFTUP: u32 = 0x0004;

/// Right button press flag.
pub const MOUSEEVENTF_RIGHTDOWN: u32 = 0x0008;

/// Right button release flag.
pub const MOUSEEVENTF_RIGHTUP: u32 = 0x0010;

/// Middle button press flag.
pub const MOUSEEVENTF_MIDDLEDOWN: u32 = 0x0020;

/// Middle button release flag.
pub const MOUSEEVENTF_MIDDLEUP: u32 = 0x0040;

/// Extra button press flag; the button index travels in the data field.
pub const MOUSEEVENTF_XDOWN: u32 = 0x0080;

/// Extra button release flag; the button index travels in the data field.
pub const MOUSEEVENTF_XUP: u32 = 0x0100;

/// Vertical wheel flag; the tick count travels in the data field.
pub const MOUSEEVENTF_WHEEL: u32 = 0x0800;

/// Horizontal wheel flag; the tick count travels in the data field.
pub const MOUSEEVENTF_HWHEEL: u32 = 0x1000;

/// Maps absolute coordinates over the whole virtual desktop.
pub const MOUSEEVENTF_VIRTUALDESK: u32 = 0x4000;

/// Marks the motion as absolute rather than relative.
pub const MOUSEEVENTF_ABSOLUTE: u32 = 0x8000;

/// Injection flag for key codes that need the extended prefix byte.
pub const KEYEVENTF_EXTENDEDKEY: u32 = 0x0001;

/// Injection flag distinguishing a key release from a press.
pub const KEYEVENTF_KEYUP: u32 = 0x0002;

/// Injection flag selecting scan-code interpretation over virtual-key.
pub const KEYEVENTF_SCANCODE: u32 = 0x0008;

/// Data value naming the first extra (back) button.
pub const XBUTTON1: i32 = 1;

/// Data value naming the second extra (forward) button.
pub const XBUTTON2: i32 = 2;

/// One mouse injection descriptor: the platform's mouse input record as
/// plain values.  `mouse_data` is the signed reading of the platform's data
/// field (wheel ticks or extra-button index).
#[derive(Debug, Copy, Clone, PartialEq, Eq, Structural)]
pub struct MouseInput {
    /// Horizontal motion: a pixel delta, or a normalized absolute coordinate.
    pub dx: i32,
    /// Vertical motion: a pixel delta, or a normalized absolute coordinate.
    pub dy: i32,
    /// Wheel ticks or extra-button index, depending on `flags`.
    pub mouse_data: i32,
    /// Combination of the `MOUSEEVENTF_*` flags.
    pub flags: u32,
}

/// One keyboard injection descriptor: the platform's keyboard input record
/// as plain values; the code fields carry 16-bit values.
#[derive(Debug, Copy, Clone, PartialEq, Eq, Structural)]
pub struct KeyboardInput {
    /// Virtual-key code, or zero in scan-code mode.
    pub vk: u32,
    /// Scan code, or zero in virtual-key mode.
    pub scan: u32,
    /// Combination of the `KEYEVENTF_*` flags.
    pub flags: u32,
}

/// One native injection descriptor.
#[derive(Debug, Copy, Clone, PartialEq, Eq, Structural)]
pub enum InputDesc {
    /// A mouse record.
    Mouse(MouseInput),
    /// A keyboard record.
    Keyboard(KeyboardInput),
}

/// A 64-bit tick count clamped to the 32-bit data field, saturating at the
/// field's range like the platform conversion does.
pub open spec fn spec_clamp_i32(v: int) -> int {
    if v < i32::MIN {
        i32::MIN as int
    } else if v > i32::MAX {
        i32::MAX as int
    } else {
        v
    }
}

/// The descriptors for a relative pointer motion.
pub open spec fn spec_move_inputs(dx: i32, dy: i32) -> Seq<InputDesc> {
    seq![InputDesc::Mouse(MouseInput { dx, dy, mouse_data: 0, flags: MOUSEEVENTF_MOVE })]
}

/// The mouse record for a button transition: the flag encodes button and
/// direction; extra buttons carry their index in the data field.
pub open spec fn spec_button_input(button: MouseButton, down: bool) -> MouseInput {
    let (flags, data): (u32, i32) = match (button, down) {
        (MouseButton::Left, true) => (MOUSEEVENTF_LEFTDOWN, 0),
        (MouseButton::Left, false) => (MOUSEEVENTF_LEFTUP, 0),
        (MouseButton::Right, true) => (MOUSEEVENTF_RIGHTDOWN, 0),
        (MouseButton::Right, false) => (MOUSEEVENTF_RIGHTUP, 0),
        (MouseButton::Middle, true) => (MOUSEEVENTF_MIDDLEDOWN, 0),
        (MouseButton::Middle, false) => (MOUSEEVENTF_MIDDLEUP, 0),
        (MouseButton::Back, true) => (MOUSEEVENTF_XDOWN, XBUTTON1),
        (MouseButton::Back, false) => (MOUSEEVENTF_XUP, XBUTTON1),
        (MouseButton::Forward, true) => (MOUSEEVENTF_XDOWN, XBUTTON2),
        (MouseButton::Forward, false) => (MOUSEEVENTF_XUP, XBUTTON2),
    };
    MouseInput { dx: 0, dy: 0, mouse_data: data, flags }
}

/// The descriptors for a button transition.
pub open spec fn spec_button_inputs(button: MouseButton, down: bool) -> Seq<InputDesc> {
    seq![InputDesc::Mouse(spec_button_input(button, down))]
}

/// The descriptors for wheel motion: up to two records, vertical first, each
/// emitted only when its axis is non-zero, with the tick count saturated to
/// the 32-bit data field.
pub open spec fn spec_wheel_inputs(dx: i64, dy: i64) -> Seq<InputDesc> {
    let s = Seq::<InputDesc>::empty();
    let s = if dy != 0 {
        s.push(
            InputDesc::Mouse(
                MouseInput {
                    dx: 0,
                    dy: 0,
                    mouse_data: spec_clamp_i32(dy as int) as i32,
                    flags: MOUSEEVENTF_WHEEL,
                },
            ),
        )
    } else {
        s
    };
    if dx != 0 {
        s.push(
            InputDesc::Mouse(
                MouseInput {
                    dx: 0,
                    dy: 0,
                    mouse_data: spec_clamp_i32(dx as int) as i32,
                    flags: MOUSEEVENTF_HWHEEL,
                },
            ),
        )
    } else {
        s
    }
}

/// The descriptors for a key transition: none when the key has no code pair;
/// otherwise one keyboard record, in scan-code mode when a scan code exists,
/// with the extended flag when the scan code carries an `0xE0` or `0xE1`
/// prefix, and the key-up flag on release.
pub open spec fn spec_keyboard_inputs(key: Key, down: bool) -> Seq<InputDesc> {
    match spec_get_win_codes(key) {
        None => Seq::empty(),
        Some(codes) => {
            let (vk, scan) = codes;
            let (w_vk, w_scan, base): (u32, u32, u32) = if scan != 0 {
                (0, scan, KEYEVENTF_SCANCODE)
            } else {
                (vk, 0, 0)
            };
            let f1 = if (w_scan >> 8u32) == 0xE0 || (w_scan >> 8u32) == 0xE1 {
                base | KEYEVENTF_EXTENDEDKEY
            } else {
                base
            };
            let f2 = if !down {
                f1 | KEYEVENTF_KEYUP
            } else {
                f1
            };
            seq![InputDesc::Keyboard(KeyboardInput { vk: w_vk, scan: w_scan, flags: f2 })]
        },
    }
}

/// One axis of the absolute-coordinate mapping.  The logical target is
/// scaled to physical pixels by the percent factor, offset by the desktop
/// origin, and mapped to the platform's normalized range:
/// `normalized = (physical - origin) * 65535 / (extent - 1)`, evaluated as
/// one exact rational, floored, and clamped to [0, 65535].
pub open spec fn spec_normalized_coord(v: int, origin: int, extent: int, scale: int) -> int {
    let n = v * scale - 100 * origin;
    let d = 100 * (extent - 1);
    if n <= 0 {
        0
    } else if n >= d {
        65535
    } else {
        n * 65535 / d
    }
}

/// The descriptors for an absolute pointer motion over the virtual desktop:
/// none when the desktop extent is degenerate (one pixel or less on either
/// axis), one absolute-move record otherwise.
pub open spec fn spec_move_to_inputs(x: i32, y: i32, desk: VirtualDesktop) -> Seq<InputDesc> {
    if desk.width <= 1 || desk.height <= 1 {
        Seq::empty()
    } else {
        let nx = spec_normalized_coord(x as int, desk.x as int, desk.width as int, desk.scale_percent as int);
        let ny = spec_normalized_coord(y as int, desk.y as int, desk.height as int, desk.scale_percent as int);
        seq![
            InputDesc::Mouse(
                MouseInput {
                    dx: nx as i32,
                    dy: ny as i32,
                    mouse_data: 0,
                    flags: MOUSEEVENTF_MOVE | MOUSEEVENTF_ABSOLUTE | MOUSEEVENTF_VIRTUALDESK,
                },
            ),
        ]
    }
}

/// The descriptors for one canonical event.  Pointer motion in an event is
/// relative; absolute motion is requested through the dedicated call.
pub open spec fn spec_event_inputs(event: Event) -> Seq<InputDesc> {
    match event {
        Event::MouseMove { delta } => spec_move_inputs(delta.x, delta.y),
        Event::MouseWheel { delta_x, delta_y } => spec_wheel_inputs(delta_x, delta_y),
        Event::MouseDown { button } => spec_button_inputs(button, true),
        Event::MouseUp { button } => spec_button_inputs(button, false),
        Event::KeyDown { key, .. } => spec_keyboard_inputs(key, true),
        Event::KeyUp { key, .. } => spec_keyboard_inputs(key, false),
    }
}

/// Saturates a 64-bit tick count to the 32-bit data field.
fn clamp_i32(v: i64) -> (r: i32)
    ensures
        r == spec_clamp_i32(v as int),
{
    if v < i32::MIN as i64 {
        i32::MIN
    } else if v > i32::MAX as i64 {
        i32::MAX
    } else {
        v as i32
    }
}

/// Accumulates native injection descriptors for one batched submission.
pub struct InputBuilder {
    /// The descriptors accumulated so far, in submission order.
    pub inputs: Vec<InputDesc>,
}

impl InputBuilder {
    /// An empty batch.
    pub fn new() -> (r: Self)
        ensures
            r.inputs@ =~= Seq::<InputDesc>::empty(),
    {
        InputBuilder { inputs: Vec::new() }
    }

    /// Appends one mouse record.
    pub fn push_mouse(&mut self, mi: MouseInput)
        ensures
            final(self).inputs@ == old(self).inputs@.push(InputDesc::Mouse(mi)),
    {
        self.inputs.push(InputDesc::Mouse(mi));
    }

    /// Appends one keyboard record.
    pub fn push_keyboard(&mut self, ki: KeyboardInput)
        ensures
            final(self).inputs@ == old(self).inputs@.push(InputDesc::Keyboard(ki)),
    {
        self.inputs.push(InputDesc::Keyboard(ki));
    }

    /// Adds a relative pointer motion.
    pub fn add_mouse_move(self, dx: i32, dy: i32) -> (r: Self)
        ensures
            r.inputs@ =~= self.inputs@ + spec_move_inputs(dx, dy),
    {
        let mut b = self;
        b.push_mouse(MouseInput { dx, dy, mouse_data: 0, flags: MOUSEEVENTF_MOVE });
        b
    }

    /// Adds an absolute pointer motion over the given virtual desktop; a
    /// degenerate desktop extent (one pixel or less on either axis) adds
    /// nothing.
    pub fn add_mouse_move_to(self, x: i32, y: i32, desk: &VirtualDesktop) -> (r: Self)
        requires
            desk.wf(),
        ensures
            r.inputs@ =~= self.inputs@ + spec_move_to_inputs(x, y, *desk),
    {
        let mut b = self;
        if desk.width <= 1 || desk.height <= 1 {
            return b;
        }
        let nx = normalized_coord(x, desk.x, desk.width, desk.scale_percent);
        let ny = normalized_coord(y, desk.y, desk.height, desk.scale_percent);
        b.push_mouse(
            MouseInput {
                dx: nx,
                dy: ny,
                mouse_data: 0,
                flags: MOUSEEVENTF_MOVE | MOUSEEVENTF_ABSOLUTE | MOUSEEVENTF_VIRTUALDESK,
            },
        );
        b
    }

    /// Adds a button transition.
    pub fn add_mouse_button(self, button: MouseButton, down: bool) -> (r: Self)
        ensures
            r.inputs@ =~= self.inputs@ + spec_button_inputs(button, down),
    {
        let mut b = self;
        let (flags, data): (u32, i32) = match (button, down) {
            (MouseButton::Left, true) => (MOUSEEVENTF_LEFTDOWN, 0),
            (MouseButton::Left, false) => (MOUSEEVENTF_LEFTUP, 0),
            (MouseButton::Right, true) => (MOUSEEVENTF_RIGHTDOWN, 0),
            (MouseButton::Right, false) => (MOUSEEVENTF_RIGHTUP, 0),
            (MouseButton::Middle, true) => (MOUSEEVENTF_MIDDLEDOWN, 0),
            (MouseButton::Middle, false) => (MOUSEEVENTF_MIDDLEUP, 0),
            (MouseButton::Back, true) => (MOUSEEVENTF_XDOWN, XBUTTON1),
            (MouseButton::Back, false) => (MOUSEEVENTF_XUP, XBUTTON1),
            (MouseButton::Forward, true) => (MOUSEEVENTF_XDOWN, XBUTTON2),
            (MouseButton::Forward, false) => (MOUSEEVENTF_XUP, XBUTTON2),
        };
        b.push_mouse(MouseInput { dx: 0, dy: 0, mouse_data: data, flags });
        b
    }

    /// Adds wheel motion: a vertical record, then a horizontal one, each
    /// only when its axis is non-zero.
    pub fn add_mouse_wheel(self, dx: i64, dy: i64) -> (r: Self)
        ensures
            r.inputs@ =~= self.inputs@ + spec_wheel_inputs(dx, dy),
    {
        let mut b = self;
        if dy != 0 {
            b.push_mouse(
                MouseInput { dx: 0, dy: 0, mouse_data: clamp_i32(dy), flags: MOUSEEVENTF_WHEEL },
            );
        }
        if dx != 0 {
            b.push_mouse(
                MouseInput { dx: 0, dy: 0, mouse_data: clamp_i32(dx), flags: MOUSEEVENTF_HWHEEL },
            );
        }
        b
    }

    /// Adds a key transition; a key with no code pair adds nothing
    /// (simulation never raises for unmapped keys).
    pub fn add_keyboard(self, key: Key, down: bool) -> (r: Self)
        ensures
            r.inputs@ =~= self.inputs@ + spec_keyboard_inputs(key, down),
    {
        let mut b = self;
        let codes = match get_win_codes(key) {
            None => {
                return b;
            },
            Some(codes) => codes,
        };
        let (vk, scan) = codes;
        let (w_vk, w_scan, base): (u32, u32, u32) = if scan != 0 {
            (0, scan, KEYEVENTF_SCANCODE)
        } else {
            (vk, 0, 0)
        };
        let mut flags = base;
        if (w_scan >> 8u32) == 0xE0 || (w_scan >> 8u32) == 0xE1 {
            flags = flags | KEYEVENTF_EXTENDEDKEY;
        }
        if !down {
            flags = flags | KEYEVENTF_KEYUP;
        }
        b.push_keyboard(KeyboardInput { vk: w_vk, scan: w_scan, flags });
        b
    }

    /// Adds the descriptors of one canonical event.
    pub fn add_event(self, event: Event) -> (r: Self)
        ensures
            r.inputs@ =~= self.inputs@ + spec_event_inputs(event),
    {
        match event {
            Event::MouseMove { delta } => self.add_mouse_move(delta.x, delta.y),
            Event::MouseWheel { delta_x, delta_y } => self.add_mouse_wheel(delta_x, delta_y),
            Event::MouseDown { button } => self.add_mouse_button(button, true),
            Event::MouseUp { button } => self.add_mouse_button(button, false),
            Event::KeyDown { key, .. } => self.add_keyboard(key, true),
            Event::KeyUp { key, .. } => self.add_keyboard(key, false),
        }
    }

    /// Hands the accumulated batch out for submission in one native call.
    pub fn into_inputs(self) -> (r: Vec<InputDesc>)
        ensures
            r@ == self.inputs@,
    {
        self.inputs
    }
}

/// One axis of the absolute-coordinate mapping; see [`spec_normalized_coord`].
pub fn normalized_coord(v: i32, origin: i32, extent: i32, scale: u32) -> (r: i32)
    requires
        0 < scale <= MAX_SCALE_PERCENT,
        extent > 1,
    ensures
        r == spec_normalized_coord(v as int, origin as int, extent as int, scale as int),
        0 <= r <= 65535,
{
    proof {
        assert((v as i64) * (scale as i64) <= 2147483647i64 * 10000 && (v as i64) * (scale as i64)
            >= (-2147483648i64) * 10000) by (nonlinear_arith)
            requires
                -2147483648 <= v as i64 <= 2147483647,
                0 < scale as i64 <= 10000,
        ;
    }
    let n: i64 = (v as i64) * (scale as i64) - 100 * (origin as i64);
    let d: i64 = 100 * ((extent as i64) - 1);
    if n <= 0 {
        0
    } else if n >= d {
        65535
    } else {
        proof {
            vstd::arithmetic::mul::lemma_mul_strict_inequality(n as int, d as int, 65535);
        }
        let prod: u64 = (n as u64) * 65535;
        let q: u64 = prod / (d as u64);
        proof {
            vstd::arithmetic::div_mod::lemma_multiply_divide_lt(prod as int, d as int, 65535);
            vstd::arithmetic::div_mod::lemma_div_pos_is_pos(prod as int, d as int);
        }
        q as i32
    }
}

/// Stateless entry points of the synthesizer: each converts one request into
/// the descriptor batch to submit in a single native call.
pub struct Simulate;

impl Simulate {
    /// The batch for one canonical event.
    pub fn simulate(event: Event) -> (r: Vec<InputDesc>)
        ensures
            r@ =~= spec_event_inputs(event),
    {
        InputBuilder::new().add_event(event).into_inputs()
    }

    /// The batch for a relative pointer motion of (dx, dy) pixels.
    pub fn mouse_move(dx: i32, dy: i32) -> (r: Vec<InputDesc>)
        ensures
            r@ =~= spec_move_inputs(dx, dy),
    {
        InputBuilder::new().add_mouse_move(dx, dy).into_inputs()
    }

    /// The batch for an absolute move to logical coordinates (x, y) over the
    /// given virtual desktop; empty when the desktop extent is degenerate.
    pub fn mouse_move_to(x: i32, y: i32, desk: &VirtualDesktop) -> (r: Vec<InputDesc>)
        requires
            desk.wf(),
        ensures
            r@ =~= spec_move_to_inputs(x, y, *desk),
    {
        InputBuilder::new().add_mouse_move_to(x, y, desk).into_inputs()
    }

    /// The batch for wheel motion, in ticks per axis.
    pub fn mouse_wheel(dx: i64, dy: i64) -> (r: Vec<InputDesc>)
        ensures
            r@ =~= spec_wheel_inputs(dx, dy),
    {
        InputBuilder::new().add_mouse_wheel(dx, dy).into_inputs()
    }

    /// The batch for a button transition.
    pub fn mouse_button(button: MouseButton, down: bool) -> (r: Vec<InputDesc>)
        ensures
            r@ =~= spec_button_inputs(button, down),
    {
        InputBuilder::new().add_mouse_button(button, down).into_inputs()
    }

    /// The batch for a key transition; empty for a key with no code pair.
    pub fn keyboard(key: Key, down: bool) -> (r: Vec<InputDesc>)
        ensures
            r@ =~= spec_keyboard_inputs(key, down),
    {
        InputBuilder::new().add_keyboard(key, down).into_inputs()
    }
}

} // verus!
