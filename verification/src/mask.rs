//! Capability masks: per-engine bitsets selecting the active event categories.
//!
//! Each lifecycle engine owns one `u32` mask with four independent bits, one
//! per event category.  Toggling a bit never touches the other three; that
//! independence is stated by [`lemma_capability_bit_independence`].

use vstd::prelude::*;

use crate::event::RawEvent;

verus! {

/// Mask bit for pointer motion (moves and drags).
pub const MASK_MOUSE_MOVE: u32 = 0x1;
/// Mask bit for mouse button transitions.
pub const MASK_MOUSE_BUTTON: u32 = 0x2;
/// Mask bit for wheel motion.
pub const MASK_MOUSE_WHEEL: u32 = 0x4;
/// Mask bit for keyboard events, including modifier-flag notifications.
pub const MASK_KEYBOARD: u32 = 0x8;
/// All four category bits.
pub const MASK_ALL: u32 = 0xf;

/// True when `bit` is one of the four capability bits.
pub open spec fn is_category_bit(bit: u32) -> bool {
    bit == MASK_MOUSE_MOVE || bit == MASK_MOUSE_BUTTON || bit == MASK_MOUSE_WHEEL
        || bit == MASK_KEYBOARD
}

/// The mask that results from setting or clearing `bit` in `current`.
pub open spec fn spec_update_state(current: u32, bit: u32, enable: bool) -> u32 {
    if enable {
        current | bit
    } else {
        current & !bit
    }
}

/// True when the category selected by `bit` is enabled in `flags`.
pub open spec fn category_enabled(flags: u32, bit: u32) -> bool {
    flags & bit != 0
}

/// The capability bit that gates a raw event's category.
pub open spec fn category_bit(raw: RawEvent) -> u32 {
    match raw {
        RawEvent::MouseMove { .. } => MASK_MOUSE_MOVE,
        RawEvent::MouseButton { .. } => MASK_MOUSE_BUTTON,
        RawEvent::MouseWheel { .. } => MASK_MOUSE_WHEEL,
        RawEvent::Key { .. } => MASK_KEYBOARD,
        RawEvent::FlagsChanged { .. } => MASK_KEYBOARD,
    }
}

/// Returns `current` with `bit` set (when `enable`) or cleared (otherwise),
/// leaving every other bit as it was.
pub fn update_state(current: u32, bit: u32, enable: bool) -> (r: u32)
    ensures
        r == spec_update_state(current, bit, enable),
{
    if enable {
        current | bit
    } else {
        current & !bit
    }
}

/// Law: toggling one capability bit affects only its own category.  After
/// updating `bit`, that category reads back as `enable`, and any other
/// category bit reads back exactly as before.
pub proof fn lemma_capability_bit_independence(flags: u32, bit: u32, other: u32, enable: bool)
    requires
        is_category_bit(bit),
        is_category_bit(other),
        bit != other,
    ensures
        category_enabled(spec_update_state(flags, bit, enable), bit) == enable,
        category_enabled(spec_update_state(flags, bit, enable), other) == category_enabled(
            flags,
            other,
        ),
{
    let updated = spec_update_state(flags, bit, enable);
    assert((if enable {
        (flags | bit) & bit != 0
    } else {
        (flags & !bit) & bit == 0
    }) && (if enable {
        ((flags | bit) & other != 0) == (flags & other != 0)
    } else {
        ((flags & !bit) & other != 0) == (flags & other != 0)
    })) by (bit_vector)
        requires
            (bit == 0x1u32 || bit == 0x2u32 || bit == 0x4u32 || bit == 0x8u32) && (other == 0x1u32
                || other == 0x2u32 || other == 0x4u32 || other == 0x8u32) && bit != other,
    ;
}

} // verus!
