//! Word and byte extraction helpers for native hook payloads.
//!
//! These mirror the platform's packed-message conventions: the wheel delta and
//! extra-button index travel in the high word of the mouse data field, and a
//! keyboard payload carries a virtual-key code, a scan code, and an
//! extended-key flag.

use vstd::prelude::*;

verus! {

/// Virtual-key value used by the platform to inject unicode packets; for such
/// payloads the scan-code field carries the character instead.
pub const VK_PACKET: u32 = 0xE7;

/// High word of a 32-bit value.
pub fn hiword(l: u32) -> (r: u16)
    ensures
        r == ((l >> 16u32) & 0xffffu32) as u16,
{
    ((l >> 16u32) & 0xffffu32) as u16
}

/// Low word of a 32-bit value.
pub fn loword(l: u32) -> (r: u16)
    ensures
        r == (l & 0xffffu32) as u16,
{
    (l & 0xffffu32) as u16
}

/// High byte of a 16-bit value.
pub fn hibyte(w: u16) -> (r: u8)
    ensures
        r == ((w >> 8u16) & 0xffu16) as u8,
{
    ((w >> 8u16) & 0xffu16) as u8
}

/// Low byte of a 16-bit value.
pub fn lobyte(w: u16) -> (r: u8)
    ensures
        r == (w & 0xffu16) as u8,
{
    (w & 0xffu16) as u8
}

/// The key code carried by a keyboard hook payload: for unicode packets the
/// scan-code field holds the code, otherwise the virtual-key field does.
pub open spec fn spec_get_code(vk_code: u32, scan_code: u32) -> u32 {
    if vk_code == VK_PACKET {
        scan_code
    } else {
        vk_code
    }
}

/// Extracts the virtual-key code (or the unicode packet payload) from the
/// fields of a keyboard hook payload.
pub fn get_code(vk_code: u32, scan_code: u32) -> (r: u32)
    ensures
        r == spec_get_code(vk_code, scan_code),
{
    if vk_code == VK_PACKET {
        scan_code
    } else {
        vk_code
    }
}

/// The full scan code reconstructed from a hook payload: extended keys gain
/// the `0xE0` prefix, except the right shift and num-lock positions, which
/// have scan codes of their own.
pub open spec fn spec_get_scan_code(scan_code: u32, extended: bool) -> u32 {
    if scan_code == 0x36 || scan_code == 0x45 {
        scan_code
    } else if extended {
        0xE000u32 | scan_code
    } else {
        scan_code
    }
}

/// Reconstructs the full scan code, including the extended-key prefix.
pub fn get_scan_code(scan_code: u32, extended: bool) -> (r: u32)
    ensures
        r == spec_get_scan_code(scan_code, extended),
{
    if scan_code == 0x36 || scan_code == 0x45 {
        scan_code
    } else if extended {
        0xE000u32 | scan_code
    } else {
        scan_code
    }
}

} // verus!
