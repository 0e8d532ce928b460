//! Key translation table, macOS numbering: canonical keys to and from the
//! platform virtual key codes.
//!
//! The table is bidirectional and total in the code-to-key direction: a code
//! without an entry translates to [`Key::Unidentified`] rather than failing.
//! Every listed code belongs to exactly one key, so translation round-trips
//! without exception.

use vstd::prelude::*;

use crate::key::{Key, KeyCode};

verus! {

/// The platform key code assigned to a canonical key, if any.
pub open spec fn spec_key_to_code(key: Key) -> Option<KeyCode> {
    match key {
        Key::KeyA => Some(0x00u32),
        Key::KeyS => Some(0x01u32),
        Key::KeyD => Some(0x02u32),
        Key::KeyF => Some(0x03u32),
        Key::KeyH => Some(0x04u32),
        Key::KeyG => Some(0x05u32),
        Key::KeyZ => Some(0x06u32),
        Key::KeyX => Some(0x07u32),
        Key::KeyC => Some(0x08u32),
        Key::KeyV => Some(0x09u32),
        Key::KeyB => Some(0x0Bu32),
        Key::KeyQ => Some(0x0Cu32),
        Key::KeyW => Some(0x0Du32),
        Key::KeyE => Some(0x0Eu32),
        Key::KeyR => Some(0x0Fu32),
        Key::KeyY => Some(0x10u32),
        Key::KeyT => Some(0x11u32),
        Key::Digit1 => Some(0x12u32),
        Key::Digit2 => Some(0x13u32),
        Key::Digit3 => Some(0x14u32),
        Key::Digit4 => Some(0x15u32),
        Key::Digit5 => Some(0x17u32),
        Key::Digit6 => Some(0x16u32),
        Key::Digit7 => Some(0x1Au32),
        Key::Digit8 => Some(0x1Cu32),
        Key::Digit9 => Some(0x19u32),
        Key::Digit0 => Some(0x1Du32),
        Key::Equal => Some(0x18u32),
        Key::Minus => Some(0x1Bu32),
        Key::BracketRight => Some(0x1Eu32),
        Key::BracketLeft => Some(0x21u32),
        Key::KeyO => Some(0x1Fu32),
        Key::KeyU => Some(0x20u32),
        Key::KeyI => Some(0x22u32),
        Key::KeyP => Some(0x23u32),
        Key::KeyL => Some(0x25u32),
        Key::KeyJ => Some(0x26u32),
        Key::KeyK => Some(0x28u32),
        Key::KeyN => Some(0x2Du32),
        Key::KeyM => Some(0x2Eu32),
        Key::Quote => Some(0x27u32),
        Key::Semicolon => Some(0x29u32),
        Key::Backslash => Some(0x2Au32),
        Key::Comma => Some(0x2Bu32),
        Key::Slash => Some(0x2Cu32),
        Key::Period => Some(0x2Fu32),
        Key::Backquote => Some(0x32u32),
        Key::IntlBackslash => Some(0x0Au32),
        Key::Enter => Some(0x24u32),
        Key::Tab => Some(0x30u32),
        Key::Space => Some(0x31u32),
        Key::Backspace => Some(0x33u32),
        Key::Escape => Some(0x35u32),
        Key::MetaRight => Some(0x36u32),
        Key::MetaLeft => Some(0x37u32),
        Key::ShiftLeft => Some(0x38u32),
        Key::CapsLock => Some(0x39u32),
        Key::AltLeft => Some(0x3Au32),
        Key::ControlLeft => Some(0x3Bu32),
        Key::ShiftRight => Some(0x3Cu32),
        Key::AltRight => Some(0x3Du32),
        Key::ControlRight => Some(0x3Eu32),
        Key::Home => Some(0x73u32),
        Key::PageUp => Some(0x74u32),
        Key::Delete => Some(0x75u32),
        Key::End => Some(0x77u32),
        Key::PageDown => Some(0x79u32),
        Key::Insert => Some(0x72u32),
        Key::ArrowLeft => Some(0x7Bu32),
        Key::ArrowRight => Some(0x7Cu32),
        Key::ArrowDown => Some(0x7Du32),
        Key::ArrowUp => Some(0x7Eu32),
        Key::NumpadDecimal => Some(0x41u32),
        Key::NumpadMultiply => Some(0x43u32),
        Key::NumpadAdd => Some(0x45u32),
        Key::NumLock => Some(0x47u32),
        Key::NumpadDivide => Some(0x4Bu32),
        Key::NumpadEnter => Some(0x4Cu32),
        Key::NumpadSubtract => Some(0x4Eu32),
        Key::Numpad0 => Some(0x52u32),
        Key::Numpad1 => Some(0x53u32),
        Key::Numpad2 => Some(0x54u32),
        Key::Numpad3 => Some(0x55u32),
        Key::Numpad4 => Some(0x56u32),
        Key::Numpad5 => Some(0x57u32),
        Key::Numpad6 => Some(0x58u32),
        Key::Numpad7 => Some(0x59u32),
        Key::Numpad8 => Some(0x5Bu32),
        Key::Numpad9 => Some(0x5Cu32),
        Key::F1 => Some(0x7Au32),
        Key::F2 => Some(0x78u32),
        Key::F3 => Some(0x63u32),
        Key::F4 => Some(0x76u32),
        Key::F5 => Some(0x60u32),
        Key::F6 => Some(0x61u32),
        Key::F7 => Some(0x62u32),
        Key::F8 => Some(0x64u32),
        Key::F9 => Some(0x65u32),
        Key::F10 => Some(0x6Du32),
        Key::F11 => Some(0x67u32),
        Key::F12 => Some(0x6Fu32),
        Key::F13 => Some(0x69u32),
        Key::F14 => Some(0x6Bu32),
        Key::F15 => Some(0x71u32),
        Key::F16 => Some(0x6Au32),
        Key::F17 => Some(0x40u32),
        Key::F18 => Some(0x4Fu32),
        Key::F19 => Some(0x50u32),
        Key::F20 => Some(0x5Au32),
        Key::IntlYen => Some(0x5Du32),
        Key::IntlRo => Some(0x5Eu32),
        _ => None,
    }
}

/// Maps a canonical key to its platform key code.
pub fn key_to_code(key: Key) -> (r: Option<KeyCode>)
    ensures
        r == spec_key_to_code(key),
{
    match key {
        Key::KeyA => Some(0x00u32),
        Key::KeyS => Some(0x01u32),
        Key::KeyD => Some(0x02u32),
        Key::KeyF => Some(0x03u32),
        Key::KeyH => Some(0x04u32),
        Key::KeyG => Some(0x05u32),
        Key::KeyZ => Some(0x06u32),
        Key::KeyX => Some(0x07u32),
        Key::KeyC => Some(0x08u32),
        Key::KeyV => Some(0x09u32),
        Key::KeyB => Some(0x0Bu32),
        Key::KeyQ => Some(0x0Cu32),
        Key::KeyW => Some(0x0Du32),
        Key::KeyE => Some(0x0Eu32),
        Key::KeyR => Some(0x0Fu32),
        Key::KeyY => Some(0x10u32),
        Key::KeyT => Some(0x11u32),
        Key::Digit1 => Some(0x12u32),
        Key::Digit2 => Some(0x13u32),
        Key::Digit3 => Some(0x14u32),
        Key::Digit4 => Some(0x15u32),
        Key::Digit5 => Some(0x17u32),
        Key::Digit6 => Some(0x16u32),
        Key::Digit7 => Some(0x1Au32),
        Key::Digit8 => Some(0x1Cu32),
        Key::Digit9 => Some(0x19u32),
        Key::Digit0 => Some(0x1Du32),
        Key::Equal => Some(0x18u32),
        Key::Minus => Some(0x1Bu32),
        Key::BracketRight => Some(0x1Eu32),
        Key::BracketLeft => Some(0x21u32),
        Key::KeyO => Some(0x1Fu32),
        Key::KeyU => Some(0x20u32),
        Key::KeyI => Some(0x22u32),
        Key::KeyP => Some(0x23u32),
        Key::KeyL => Some(0x25u32),
        Key::KeyJ => Some(0x26u32),
        Key::KeyK => Some(0x28u32),
        Key::KeyN => Some(0x2Du32),
        Key::KeyM => Some(0x2Eu32),
        Key::Quote => Some(0x27u32),
        Key::Semicolon => Some(0x29u32),
        Key::Backslash => Some(0x2Au32),
        Key::Comma => Some(0x2Bu32),
        Key::Slash => Some(0x2Cu32),
        Key::Period => Some(0x2Fu32),
        Key::Backquote => Some(0x32u32),
        Key::IntlBackslash => Some(0x0Au32),
        Key::Enter => Some(0x24u32),
        Key::Tab => Some(0x30u32),
        Key::Space => Some(0x31u32),
        Key::Backspace => Some(0x33u32),
        Key::Escape => Some(0x35u32),
        Key::MetaRight => Some(0x36u32),
        Key::MetaLeft => Some(0x37u32),
        Key::ShiftLeft => Some(0x38u32),
        Key::CapsLock => Some(0x39u32),
        Key::AltLeft => Some(0x3Au32),
        Key::ControlLeft => Some(0x3Bu32),
        Key::ShiftRight => Some(0x3Cu32),
        Key::AltRight => Some(0x3Du32),
        Key::ControlRight => Some(0x3Eu32),
        Key::Home => Some(0x73u32),
        Key::PageUp => Some(0x74u32),
        Key::Delete => Some(0x75u32),
        Key::End => Some(0x77u32),
        Key::PageDown => Some(0x79u32),
        Key::Insert => Some(0x72u32),
        Key::ArrowLeft => Some(0x7Bu32),
        Key::ArrowRight => Some(0x7Cu32),
        Key::ArrowDown => Some(0x7Du32),
        Key::ArrowUp => Some(0x7Eu32),
        Key::NumpadDecimal => Some(0x41u32),
        Key::NumpadMultiply => Some(0x43u32),
        Key::NumpadAdd => Some(0x45u32),
        Key::NumLock => Some(0x47u32),
        Key::NumpadDivide => Some(0x4Bu32),
        Key::NumpadEnter => Some(0x4Cu32),
        Key::NumpadSubtract => Some(0x4Eu32),
        Key::Numpad0 => Some(0x52u32),
        Key::Numpad1 => Some(0x53u32),
        Key::Numpad2 => Some(0x54u32),
        Key::Numpad3 => Some(0x55u32),
        Key::Numpad4 => Some(0x56u32),
        Key::Numpad5 => Some(0x57u32),
        Key::Numpad6 => Some(0x58u32),
        Key::Numpad7 => Some(0x59u32),
        Key::Numpad8 => Some(0x5Bu32),
        Key::Numpad9 => Some(0x5Cu32),
        Key::F1 => Some(0x7Au32),
        Key::F2 => Some(0x78u32),
        Key::F3 => Some(0x63u32),
        Key::F4 => Some(0x76u32),
        Key::F5 => Some(0x60u32),
        Key::F6 => Some(0x61u32),
        Key::F7 => Some(0x62u32),
        Key::F8 => Some(0x64u32),
        Key::F9 => Some(0x65u32),
        Key::F10 => Some(0x6Du32),
        Key::F11 => Some(0x67u32),
        Key::F12 => Some(0x6Fu32),
        Key::F13 => Some(0x69u32),
        Key::F14 => Some(0x6Bu32),
        Key::F15 => Some(0x71u32),
        Key::F16 => Some(0x6Au32),
        Key::F17 => Some(0x40u32),
        Key::F18 => Some(0x4Fu32),
        Key::F19 => Some(0x50u32),
        Key::F20 => Some(0x5Au32),
        Key::IntlYen => Some(0x5Du32),
        Key::IntlRo => Some(0x5Eu32),
        _ => None,
    }
}

/// The canonical key a platform key code resolves to.
pub open spec fn spec_code_to_key(code: KeyCode) -> Key {
    match code {
        0x00u32 => Key::KeyA,
        0x01u32 => Key::KeyS,
        0x02u32 => Key::KeyD,
        0x03u32 => Key::KeyF,
        0x04u32 => Key::KeyH,
        0x05u32 => Key::KeyG,
        0x06u32 => Key::KeyZ,
        0x07u32 => Key::KeyX,
        0x08u32 => Key::KeyC,
        0x09u32 => Key::KeyV,
        0x0Bu32 => Key::KeyB,
        0x0Cu32 => Key::KeyQ,
        0x0Du32 => Key::KeyW,
        0x0Eu32 => Key::KeyE,
        0x0Fu32 => Key::KeyR,
        0x10u32 => Key::KeyY,
        0x11u32 => Key::KeyT,
        0x12u32 => Key::Digit1,
        0x13u32 => Key::Digit2,
        0x14u32 => Key::Digit3,
        0x15u32 => Key::Digit4,
        0x17u32 => Key::Digit5,
        0x16u32 => Key::Digit6,
        0x1Au32 => Key::Digit7,
        0x1Cu32 => Key::Digit8,
        0x19u32 => Key::Digit9,
        0x1Du32 => Key::Digit0,
        0x18u32 => Key::Equal,
        0x1Bu32 => Key::Minus,
        0x1Eu32 => Key::BracketRight,
        0x21u32 => Key::BracketLeft,
        0x1Fu32 => Key::KeyO,
        0x20u32 => Key::KeyU,
        0x22u32 => Key::KeyI,
        0x23u32 => Key::KeyP,
        0x25u32 => Key::KeyL,
        0x26u32 => Key::KeyJ,
        0x28u32 => Key::KeyK,
        0x2Du32 => Key::KeyN,
        0x2Eu32 => Key::KeyM,
        0x27u32 => Key::Quote,
        0x29u32 => Key::Semicolon,
        0x2Au32 => Key::Backslash,
        0x2Bu32 => Key::Comma,
        0x2Cu32 => Key::Slash,
        0x2Fu32 => Key::Period,
        0x32u32 => Key::Backquote,
        0x0Au32 => Key::IntlBackslash,
        0x24u32 => Key::Enter,
        0x30u32 => Key::Tab,
        0x31u32 => Key::Space,
        0x33u32 => Key::Backspace,
        0x35u32 => Key::Escape,
        0x36u32 => Key::MetaRight,
        0x37u32 => Key::MetaLeft,
        0x38u32 => Key::ShiftLeft,
        0x39u32 => Key::CapsLock,
        0x3Au32 => Key::AltLeft,
        0x3Bu32 => Key::ControlLeft,
        0x3Cu32 => Key::ShiftRight,
        0x3Du32 => Key::AltRight,
        0x3Eu32 => Key::ControlRight,
        0x73u32 => Key::Home,
        0x74u32 => Key::PageUp,
        0x75u32 => Key::Delete,
        0x77u32 => Key::End,
        0x79u32 => Key::PageDown,
        0x72u32 => Key::Insert,
        0x7Bu32 => Key::ArrowLeft,
        0x7Cu32 => Key::ArrowRight,
        0x7Du32 => Key::ArrowDown,
        0x7Eu32 => Key::ArrowUp,
        0x41u32 => Key::NumpadDecimal,
        0x43u32 => Key::NumpadMultiply,
        0x45u32 => Key::NumpadAdd,
        0x47u32 => Key::NumLock,
        0x4Bu32 => Key::NumpadDivide,
        0x4Cu32 => Key::NumpadEnter,
        0x4Eu32 => Key::NumpadSubtract,
        0x52u32 => Key::Numpad0,
        0x53u32 => Key::Numpad1,
        0x54u32 => Key::Numpad2,
        0x55u32 => Key::Numpad3,
        0x56u32 => Key::Numpad4,
        0x57u32 => Key::Numpad5,
        0x58u32 => Key::Numpad6,
        0x59u32 => Key::Numpad7,
        0x5Bu32 => Key::Numpad8,
        0x5Cu32 => Key::Numpad9,
        0x7Au32 => Key::F1,
        0x78u32 => Key::F2,
        0x63u32 => Key::F3,
        0x76u32 => Key::F4,
        0x60u32 => Key::F5,
        0x61u32 => Key::F6,
        0x62u32 => Key::F7,
        0x64u32 => Key::F8,
        0x65u32 => Key::F9,
        0x6Du32 => Key::F10,
        0x67u32 => Key::F11,
        0x6Fu32 => Key::F12,
        0x69u32 => Key::F13,
        0x6Bu32 => Key::F14,
        0x71u32 => Key::F15,
        0x6Au32 => Key::F16,
        0x40u32 => Key::F17,
        0x4Fu32 => Key::F18,
        0x50u32 => Key::F19,
        0x5Au32 => Key::F20,
        0x5Du32 => Key::IntlYen,
        0x5Eu32 => Key::IntlRo,
        _ => Key::Unidentified,
    }
}

/// Maps a platform key code to its canonical key.
pub fn code_to_key(code: KeyCode) -> (r: Key)
    ensures
        r == spec_code_to_key(code),
{
    match code {
        0x00u32 => Key::KeyA,
        0x01u32 => Key::KeyS,
        0x02u32 => Key::KeyD,
        0x03u32 => Key::KeyF,
        0x04u32 => Key::KeyH,
        0x05u32 => Key::KeyG,
        0x06u32 => Key::KeyZ,
        0x07u32 => Key::KeyX,
        0x08u32 => Key::KeyC,
        0x09u32 => Key::KeyV,
        0x0Bu32 => Key::KeyB,
        0x0Cu32 => Key::KeyQ,
        0x0Du32 => Key::KeyW,
        0x0Eu32 => Key::KeyE,
        0x0Fu32 => Key::KeyR,
        0x10u32 => Key::KeyY,
        0x11u32 => Key::KeyT,
        0x12u32 => Key::Digit1,
        0x13u32 => Key::Digit2,
        0x14u32 => Key::Digit3,
        0x15u32 => Key::Digit4,
        0x17u32 => Key::Digit5,
        0x16u32 => Key::Digit6,
        0x1Au32 => Key::Digit7,
        0x1Cu32 => Key::Digit8,
        0x19u32 => Key::Digit9,
        0x1Du32 => Key::Digit0,
        0x18u32 => Key::Equal,
        0x1Bu32 => Key::Minus,
        0x1Eu32 => Key::BracketRight,
        0x21u32 => Key::BracketLeft,
        0x1Fu32 => Key::KeyO,
        0x20u32 => Key::KeyU,
        0x22u32 => Key::KeyI,
        0x23u32 => Key::KeyP,
        0x25u32 => Key::KeyL,
        0x26u32 => Key::KeyJ,
        0x28u32 => Key::KeyK,
        0x2Du32 => Key::KeyN,
        0x2Eu32 => Key::KeyM,
        0x27u32 => Key::Quote,
        0x29u32 => Key::Semicolon,
        0x2Au32 => Key::Backslash,
        0x2Bu32 => Key::Comma,
        0x2Cu32 => Key::Slash,
        0x2Fu32 => Key::Period,
        0x32u32 => Key::Backquote,
        0x0Au32 => Key::IntlBackslash,
        0x24u32 => Key::Enter,
        0x30u32 => Key::Tab,
        0x31u32 => Key::Space,
        0x33u32 => Key::Backspace,
        0x35u32 => Key::Escape,
        0x36u32 => Key::MetaRight,
        0x37u32 => Key::MetaLeft,
        0x38u32 => Key::ShiftLeft,
        0x39u32 => Key::CapsLock,
        0x3Au32 => Key::AltLeft,
        0x3Bu32 => Key::ControlLeft,
        0x3Cu32 => Key::ShiftRight,
        0x3Du32 => Key::AltRight,
        0x3Eu32 => Key::ControlRight,
        0x73u32 => Key::Home,
        0x74u32 => Key::PageUp,
        0x75u32 => Key::Delete,
        0x77u32 => Key::End,
        0x79u32 => Key::PageDown,
        0x72u32 => Key::Insert,
        0x7Bu32 => Key::ArrowLeft,
        0x7Cu32 => Key::ArrowRight,
        0x7Du32 => Key::ArrowDown,
        0x7Eu32 => Key::ArrowUp,
        0x41u32 => Key::NumpadDecimal,
        0x43u32 => Key::NumpadMultiply,
        0x45u32 => Key::NumpadAdd,
        0x47u32 => Key::NumLock,
        0x4Bu32 => Key::NumpadDivide,
        0x4Cu32 => Key::NumpadEnter,
        0x4Eu32 => Key::NumpadSubtract,
        0x52u32 => Key::Numpad0,
        0x53u32 => Key::Numpad1,
        0x54u32 => Key::Numpad2,
        0x55u32 => Key::Numpad3,
        0x56u32 => Key::Numpad4,
        0x57u32 => Key::Numpad5,
        0x58u32 => Key::Numpad6,
        0x59u32 => Key::Numpad7,
        0x5Bu32 => Key::Numpad8,
        0x5Cu32 => Key::Numpad9,
        0x7Au32 => Key::F1,
        0x78u32 => Key::F2,
        0x63u32 => Key::F3,
        0x76u32 => Key::F4,
        0x60u32 => Key::F5,
        0x61u32 => Key::F6,
        0x62u32 => Key::F7,
        0x64u32 => Key::F8,
        0x65u32 => Key::F9,
        0x6Du32 => Key::F10,
        0x67u32 => Key::F11,
        0x6Fu32 => Key::F12,
        0x69u32 => Key::F13,
        0x6Bu32 => Key::F14,
        0x71u32 => Key::F15,
        0x6Au32 => Key::F16,
        0x40u32 => Key::F17,
        0x4Fu32 => Key::F18,
        0x50u32 => Key::F19,
        0x5Au32 => Key::F20,
        0x5Du32 => Key::IntlYen,
        0x5Eu32 => Key::IntlRo,
        _ => Key::Unidentified,
    }
}

/// Law: key translation round-trips.  For every canonical key with a
/// platform code, translating the code back yields the original key.
pub proof fn lemma_mac_round_trip(key: Key)
    ensures
        spec_key_to_code(key) matches Some(code) ==> spec_code_to_key(code) == key,
{
}

} // verus!
