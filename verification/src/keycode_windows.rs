//! Key translation table, Windows numbering: canonical keys to and from
//! virtual-key codes and hardware scan codes.
//!
//! The table is bidirectional and total in the code-to-key direction: a code
//! without an entry translates to [`Key::Unidentified`] rather than failing.
//! Three key positions share a virtual-key code with another position
//! (`NumpadEnter` with `Enter`, `IntlRo` with `IntlBackslash`, `IntlYen` with
//! `Backslash`), so the code-to-key direction resolves those codes to the
//! first of the pair; scan codes are unambiguous.

use vstd::prelude::*;

use crate::key::{Key, KeyCode};

verus! {

/// The virtual-key code assigned to a canonical key, if any.
pub open spec fn spec_key_to_code(key: Key) -> Option<KeyCode> {
    match key {
        Key::KeyA => Some(65u32),
        Key::KeyB => Some(66u32),
        Key::KeyC => Some(67u32),
        Key::KeyD => Some(68u32),
        Key::KeyE => Some(69u32),
        Key::KeyF => Some(70u32),
        Key::KeyG => Some(71u32),
        Key::KeyH => Some(72u32),
        Key::KeyI => Some(73u32),
        Key::KeyJ => Some(74u32),
        Key::KeyK => Some(75u32),
        Key::KeyL => Some(76u32),
        Key::KeyM => Some(77u32),
        Key::KeyN => Some(78u32),
        Key::KeyO => Some(79u32),
        Key::KeyP => Some(80u32),
        Key::KeyQ => Some(81u32),
        Key::KeyR => Some(82u32),
        Key::KeyS => Some(83u32),
        Key::KeyT => Some(84u32),
        Key::KeyU => Some(85u32),
        Key::KeyV => Some(86u32),
        Key::KeyW => Some(87u32),
        Key::KeyX => Some(88u32),
        Key::KeyY => Some(89u32),
        Key::KeyZ => Some(90u32),
        Key::Digit1 => Some(49u32),
        Key::Digit2 => Some(50u32),
        Key::Digit3 => Some(51u32),
        Key::Digit4 => Some(52u32),
        Key::Digit5 => Some(53u32),
        Key::Digit6 => Some(54u32),
        Key::Digit7 => Some(55u32),
        Key::Digit8 => Some(56u32),
        Key::Digit9 => Some(57u32),
        Key::Digit0 => Some(48u32),
        Key::Backquote => Some(192u32),
        Key::Backslash => Some(220u32),
        Key::BracketLeft => Some(219u32),
        Key::BracketRight => Some(221u32),
        Key::Comma => Some(188u32),
        Key::Equal => Some(187u32),
        Key::Minus => Some(189u32),
        Key::Period => Some(190u32),
        Key::Quote => Some(222u32),
        Key::Semicolon => Some(186u32),
        Key::Slash => Some(191u32),
        Key::IntlBackslash => Some(226u32),
        Key::AltLeft => Some(164u32),
        Key::AltRight => Some(165u32),
        Key::Backspace => Some(8u32),
        Key::CapsLock => Some(20u32),
        Key::ContextMenu => Some(93u32),
        Key::ControlLeft => Some(162u32),
        Key::ControlRight => Some(163u32),
        Key::Enter => Some(13u32),
        Key::Escape => Some(27u32),
        Key::MetaLeft => Some(91u32),
        Key::MetaRight => Some(92u32),
        Key::ShiftLeft => Some(160u32),
        Key::ShiftRight => Some(161u32),
        Key::Space => Some(32u32),
        Key::Tab => Some(9u32),
        Key::Convert => Some(28u32),
        Key::NonConvert => Some(29u32),
        Key::Delete => Some(46u32),
        Key::End => Some(35u32),
        Key::Home => Some(36u32),
        Key::Insert => Some(45u32),
        Key::PageDown => Some(34u32),
        Key::PageUp => Some(33u32),
        Key::ArrowDown => Some(40u32),
        Key::ArrowLeft => Some(37u32),
        Key::ArrowRight => Some(39u32),
        Key::ArrowUp => Some(38u32),
        Key::NumLock => Some(144u32),
        Key::Numpad0 => Some(96u32),
        Key::Numpad1 => Some(97u32),
        Key::Numpad2 => Some(98u32),
        Key::Numpad3 => Some(99u32),
        Key::Numpad4 => Some(100u32),
        Key::Numpad5 => Some(101u32),
        Key::Numpad6 => Some(102u32),
        Key::Numpad7 => Some(103u32),
        Key::Numpad8 => Some(104u32),
        Key::Numpad9 => Some(105u32),
        Key::NumpadAdd => Some(107u32),
        Key::NumpadDecimal => Some(110u32),
        Key::NumpadDivide => Some(111u32),
        Key::NumpadEnter => Some(13u32),
        Key::NumpadMultiply => Some(106u32),
        Key::NumpadSubtract => Some(109u32),
        Key::F1 => Some(112u32),
        Key::F2 => Some(113u32),
        Key::F3 => Some(114u32),
        Key::F4 => Some(115u32),
        Key::F5 => Some(116u32),
        Key::F6 => Some(117u32),
        Key::F7 => Some(118u32),
        Key::F8 => Some(119u32),
        Key::F9 => Some(120u32),
        Key::F10 => Some(121u32),
        Key::F11 => Some(122u32),
        Key::F12 => Some(123u32),
        Key::F13 => Some(124u32),
        Key::F14 => Some(125u32),
        Key::F15 => Some(126u32),
        Key::F16 => Some(127u32),
        Key::F17 => Some(128u32),
        Key::F18 => Some(129u32),
        Key::F19 => Some(130u32),
        Key::F20 => Some(131u32),
        Key::F21 => Some(132u32),
        Key::F22 => Some(133u32),
        Key::F23 => Some(134u32),
        Key::F24 => Some(135u32),
        Key::PrintScreen => Some(44u32),
        Key::ScrollLock => Some(145u32),
        Key::Pause => Some(19u32),
        Key::IntlRo => Some(226u32),
        Key::IntlYen => Some(220u32),
        _ => None,
    }
}

/// Maps a canonical key to its virtual-key code.
pub fn key_to_code(key: Key) -> (r: Option<KeyCode>)
    ensures
        r == spec_key_to_code(key),
{
    match key {
        Key::KeyA => Some(65u32),
        Key::KeyB => Some(66u32),
        Key::KeyC => Some(67u32),
        Key::KeyD => Some(68u32),
        Key::KeyE => Some(69u32),
        Key::KeyF => Some(70u32),
        Key::KeyG => Some(71u32),
        Key::KeyH => Some(72u32),
        Key::KeyI => Some(73u32),
        Key::KeyJ => Some(74u32),
        Key::KeyK => Some(75u32),
        Key::KeyL => Some(76u32),
        Key::KeyM => Some(77u32),
        Key::KeyN => Some(78u32),
        Key::KeyO => Some(79u32),
        Key::KeyP => Some(80u32),
        Key::KeyQ => Some(81u32),
        Key::KeyR => Some(82u32),
        Key::KeyS => Some(83u32),
        Key::KeyT => Some(84u32),
        Key::KeyU => Some(85u32),
        Key::KeyV => Some(86u32),
        Key::KeyW => Some(87u32),
        Key::KeyX => Some(88u32),
        Key::KeyY => Some(89u32),
        Key::KeyZ => Some(90u32),
        Key::Digit1 => Some(49u32),
        Key::Digit2 => Some(50u32),
        Key::Digit3 => Some(51u32),
        Key::Digit4 => Some(52u32),
        Key::Digit5 => Some(53u32),
        Key::Digit6 => Some(54u32),
        Key::Digit7 => Some(55u32),
        Key::Digit8 => Some(56u32),
        Key::Digit9 => Some(57u32),
        Key::Digit0 => Some(48u32),
        Key::Backquote => Some(192u32),
        Key::Backslash => Some(220u32),
        Key::BracketLeft => Some(219u32),
        Key::BracketRight => Some(221u32),
        Key::Comma => Some(188u32),
        Key::Equal => Some(187u32),
        Key::Minus => Some(189u32),
        Key::Period => Some(190u32),
        Key::Quote => Some(222u32),
        Key::Semicolon => Some(186u32),
        Key::Slash => Some(191u32),
        Key::IntlBackslash => Some(226u32),
        Key::AltLeft => Some(164u32),
        Key::AltRight => Some(165u32),
        Key::Backspace => Some(8u32),
        Key::CapsLock => Some(20u32),
        Key::ContextMenu => Some(93u32),
        Key::ControlLeft => Some(162u32),
        Key::ControlRight => Some(163u32),
        Key::Enter => Some(13u32),
        Key::Escape => Some(27u32),
        Key::MetaLeft => Some(91u32),
        Key::MetaRight => Some(92u32),
        Key::ShiftLeft => Some(160u32),
        Key::ShiftRight => Some(161u32),
        Key::Space => Some(32u32),
        Key::Tab => Some(9u32),
        Key::Convert => Some(28u32),
        Key::NonConvert => Some(29u32),
        Key::Delete => Some(46u32),
        Key::End => Some(35u32),
        Key::Home => Some(36u32),
        Key::Insert => Some(45u32),
        Key::PageDown => Some(34u32),
        Key::PageUp => Some(33u32),
        Key::ArrowDown => Some(40u32),
        Key::ArrowLeft => Some(37u32),
        Key::ArrowRight => Some(39u32),
        Key::ArrowUp => Some(38u32),
        Key::NumLock => Some(144u32),
        Key::Numpad0 => Some(96u32),
        Key::Numpad1 => Some(97u32),
        Key::Numpad2 => Some(98u32),
        Key::Numpad3 => Some(99u32),
        Key::Numpad4 => Some(100u32),
        Key::Numpad5 => Some(101u32),
        Key::Numpad6 => Some(102u32),
        Key::Numpad7 => Some(103u32),
        Key::Numpad8 => Some(104u32),
        Key::Numpad9 => Some(105u32),
        Key::NumpadAdd => Some(107u32),
        Key::NumpadDecimal => Some(110u32),
        Key::NumpadDivide => Some(111u32),
        Key::NumpadEnter => Some(13u32),
        Key::NumpadMultiply => Some(106u32),
        Key::NumpadSubtract => Some(109u32),
        Key::F1 => Some(112u32),
        Key::F2 => Some(113u32),
        Key::F3 => Some(114u32),
        Key::F4 => Some(115u32),
        Key::F5 => Some(116u32),
        Key::F6 => Some(117u32),
        Key::F7 => Some(118u32),
        Key::F8 => Some(119u32),
        Key::F9 => Some(120u32),
        Key::F10 => Some(121u32),
        Key::F11 => Some(122u32),
        Key::F12 => Some(123u32),
        Key::F13 => Some(124u32),
        Key::F14 => Some(125u32),
        Key::F15 => Some(126u32),
        Key::F16 => Some(127u32),
        Key::F17 => Some(128u32),
        Key::F18 => Some(129u32),
        Key::F19 => Some(130u32),
        Key::F20 => Some(131u32),
        Key::F21 => Some(132u32),
        Key::F22 => Some(133u32),
        Key::F23 => Some(134u32),
        Key::F24 => Some(135u32),
        Key::PrintScreen => Some(44u32),
        Key::ScrollLock => Some(145u32),
        Key::Pause => Some(19u32),
        Key::IntlRo => Some(226u32),
        Key::IntlYen => Some(220u32),
        _ => None,
    }
}

/// The canonical key a virtual-key code resolves to.
pub open spec fn spec_code_to_key(code: KeyCode) -> Key {
    match code {
        65u32 => Key::KeyA,
        66u32 => Key::KeyB,
        67u32 => Key::KeyC,
        68u32 => Key::KeyD,
        69u32 => Key::KeyE,
        70u32 => Key::KeyF,
        71u32 => Key::KeyG,
        72u32 => Key::KeyH,
        73u32 => Key::KeyI,
        74u32 => Key::KeyJ,
        75u32 => Key::KeyK,
        76u32 => Key::KeyL,
        77u32 => Key::KeyM,
        78u32 => Key::KeyN,
        79u32 => Key::KeyO,
        80u32 => Key::KeyP,
        81u32 => Key::KeyQ,
        82u32 => Key::KeyR,
        83u32 => Key::KeyS,
        84u32 => Key::KeyT,
        85u32 => Key::KeyU,
        86u32 => Key::KeyV,
        87u32 => Key::KeyW,
        88u32 => Key::KeyX,
        89u32 => Key::KeyY,
        90u32 => Key::KeyZ,
        49u32 => Key::Digit1,
        50u32 => Key::Digit2,
        51u32 => Key::Digit3,
        52u32 => Key::Digit4,
        53u32 => Key::Digit5,
        54u32 => Key::Digit6,
        55u32 => Key::Digit7,
        56u32 => Key::Digit8,
        57u32 => Key::Digit9,
        48u32 => Key::Digit0,
        192u32 => Key::Backquote,
        220u32 => Key::Backslash,
        219u32 => Key::BracketLeft,
        221u32 => Key::BracketRight,
        188u32 => Key::Comma,
        187u32 => Key::Equal,
        189u32 => Key::Minus,
        190u32 => Key::Period,
        222u32 => Key::Quote,
        186u32 => Key::Semicolon,
        191u32 => Key::Slash,
        226u32 => Key::IntlBackslash,
        164u32 => Key::AltLeft,
        165u32 => Key::AltRight,
        8u32 => Key::Backspace,
        20u32 => Key::CapsLock,
        93u32 => Key::ContextMenu,
        162u32 => Key::ControlLeft,
        163u32 => Key::ControlRight,
        13u32 => Key::Enter,
        27u32 => Key::Escape,
        91u32 => Key::MetaLeft,
        92u32 => Key::MetaRight,
        160u32 => Key::ShiftLeft,
        161u32 => Key::ShiftRight,
        32u32 => Key::Space,
        9u32 => Key::Tab,
        28u32 => Key::Convert,
        29u32 => Key::NonConvert,
        46u32 => Key::Delete,
        35u32 => Key::End,
        36u32 => Key::Home,
        45u32 => Key::Insert,
        34u32 => Key::PageDown,
        33u32 => Key::PageUp,
        40u32 => Key::ArrowDown,
        37u32 => Key::ArrowLeft,
        39u32 => Key::ArrowRight,
        38u32 => Key::ArrowUp,
        144u32 => Key::NumLock,
        96u32 => Key::Numpad0,
        97u32 => Key::Numpad1,
        98u32 => Key::Numpad2,
        99u32 => Key::Numpad3,
        100u32 => Key::Numpad4,
        101u32 => Key::Numpad5,
        102u32 => Key::Numpad6,
        103u32 => Key::Numpad7,
        104u32 => Key::Numpad8,
        105u32 => Key::Numpad9,
        107u32 => Key::NumpadAdd,
        110u32 => Key::NumpadDecimal,
        111u32 => Key::NumpadDivide,
        106u32 => Key::NumpadMultiply,
        109u32 => Key::NumpadSubtract,
        112u32 => Key::F1,
        113u32 => Key::F2,
        114u32 => Key::F3,
        115u32 => Key::F4,
        116u32 => Key::F5,
        117u32 => Key::F6,
        118u32 => Key::F7,
        119u32 => Key::F8,
        120u32 => Key::F9,
        121u32 => Key::F10,
        122u32 => Key::F11,
        123u32 => Key::F12,
        124u32 => Key::F13,
        125u32 => Key::F14,
        126u32 => Key::F15,
        127u32 => Key::F16,
        128u32 => Key::F17,
        129u32 => Key::F18,
        130u32 => Key::F19,
        131u32 => Key::F20,
        132u32 => Key::F21,
        133u32 => Key::F22,
        134u32 => Key::F23,
        135u32 => Key::F24,
        44u32 => Key::PrintScreen,
        145u32 => Key::ScrollLock,
        19u32 => Key::Pause,
        _ => Key::Unidentified,
    }
}

/// Maps a virtual-key code to its canonical key.
pub fn code_to_key(code: KeyCode) -> (r: Key)
    ensures
        r == spec_code_to_key(code),
{
    match code {
        65u32 => Key::KeyA,
        66u32 => Key::KeyB,
        67u32 => Key::KeyC,
        68u32 => Key::KeyD,
        69u32 => Key::KeyE,
        70u32 => Key::KeyF,
        71u32 => Key::KeyG,
        72u32 => Key::KeyH,
        73u32 => Key::KeyI,
        74u32 => Key::KeyJ,
        75u32 => Key::KeyK,
        76u32 => Key::KeyL,
        77u32 => Key::KeyM,
        78u32 => Key::KeyN,
        79u32 => Key::KeyO,
        80u32 => Key::KeyP,
        81u32 => Key::KeyQ,
        82u32 => Key::KeyR,
        83u32 => Key::KeyS,
        84u32 => Key::KeyT,
        85u32 => Key::KeyU,
        86u32 => Key::KeyV,
        87u32 => Key::KeyW,
        88u32 => Key::KeyX,
        89u32 => Key::KeyY,
        90u32 => Key::KeyZ,
        49u32 => Key::Digit1,
        50u32 => Key::Digit2,
        51u32 => Key::Digit3,
        52u32 => Key::Digit4,
        53u32 => Key::Digit5,
        54u32 => Key::Digit6,
        55u32 => Key::Digit7,
        56u32 => Key::Digit8,
        57u32 => Key::Digit9,
        48u32 => Key::Digit0,
        192u32 => Key::Backquote,
        220u32 => Key::Backslash,
        219u32 => Key::BracketLeft,
        221u32 => Key::BracketRight,
        188u32 => Key::Comma,
        187u32 => Key::Equal,
        189u32 => Key::Minus,
        190u32 => Key::Period,
        222u32 => Key::Quote,
        186u32 => Key::Semicolon,
        191u32 => Key::Slash,
        226u32 => Key::IntlBackslash,
        164u32 => Key::AltLeft,
        165u32 => Key::AltRight,
        8u32 => Key::Backspace,
        20u32 => Key::CapsLock,
        93u32 => Key::ContextMenu,
        162u32 => Key::ControlLeft,
        163u32 => Key::ControlRight,
        13u32 => Key::Enter,
        27u32 => Key::Escape,
        91u32 => Key::MetaLeft,
        92u32 => Key::MetaRight,
        160u32 => Key::ShiftLeft,
        161u32 => Key::ShiftRight,
        32u32 => Key::Space,
        9u32 => Key::Tab,
        28u32 => Key::Convert,
        29u32 => Key::NonConvert,
        46u32 => Key::Delete,
        35u32 => Key::End,
        36u32 => Key::Home,
        45u32 => Key::Insert,
        34u32 => Key::PageDown,
        33u32 => Key::PageUp,
        40u32 => Key::ArrowDown,
        37u32 => Key::ArrowLeft,
        39u32 => Key::ArrowRight,
        38u32 => Key::ArrowUp,
        144u32 => Key::NumLock,
        96u32 => Key::Numpad0,
        97u32 => Key::Numpad1,
        98u32 => Key::Numpad2,
        99u32 => Key::Numpad3,
        100u32 => Key::Numpad4,
        101u32 => Key::Numpad5,
        102u32 => Key::Numpad6,
        103u32 => Key::Numpad7,
        104u32 => Key::Numpad8,
        105u32 => Key::Numpad9,
        107u32 => Key::NumpadAdd,
        110u32 => Key::NumpadDecimal,
        111u32 => Key::NumpadDivide,
        106u32 => Key::NumpadMultiply,
        109u32 => Key::NumpadSubtract,
        112u32 => Key::F1,
        113u32 => Key::F2,
        114u32 => Key::F3,
        115u32 => Key::F4,
        116u32 => Key::F5,
        117u32 => Key::F6,
        118u32 => Key::F7,
        119u32 => Key::F8,
        120u32 => Key::F9,
        121u32 => Key::F10,
        122u32 => Key::F11,
        123u32 => Key::F12,
        124u32 => Key::F13,
        125u32 => Key::F14,
        126u32 => Key::F15,
        127u32 => Key::F16,
        128u32 => Key::F17,
        129u32 => Key::F18,
        130u32 => Key::F19,
        131u32 => Key::F20,
        132u32 => Key::F21,
        133u32 => Key::F22,
        134u32 => Key::F23,
        135u32 => Key::F24,
        44u32 => Key::PrintScreen,
        145u32 => Key::ScrollLock,
        19u32 => Key::Pause,
        _ => Key::Unidentified,
    }
}

/// The hardware scan code assigned to a canonical key, if any.
pub open spec fn spec_key_to_scancode(key: Key) -> Option<KeyCode> {
    match key {
        Key::KeyA => Some(0x1Eu32),
        Key::KeyB => Some(0x30u32),
        Key::KeyC => Some(0x2Eu32),
        Key::KeyD => Some(0x20u32),
        Key::KeyE => Some(0x12u32),
        Key::KeyF => Some(0x21u32),
        Key::KeyG => Some(0x22u32),
        Key::KeyH => Some(0x23u32),
        Key::KeyI => Some(0x17u32),
        Key::KeyJ => Some(0x24u32),
        Key::KeyK => Some(0x25u32),
        Key::KeyL => Some(0x26u32),
        Key::KeyM => Some(0x32u32),
        Key::KeyN => Some(0x31u32),
        Key::KeyO => Some(0x18u32),
        Key::KeyP => Some(0x19u32),
        Key::KeyQ => Some(0x10u32),
        Key::KeyR => Some(0x13u32),
        Key::KeyS => Some(0x1Fu32),
        Key::KeyT => Some(0x14u32),
        Key::KeyU => Some(0x16u32),
        Key::KeyV => Some(0x2Fu32),
        Key::KeyW => Some(0x11u32),
        Key::KeyX => Some(0x2Du32),
        Key::KeyY => Some(0x15u32),
        Key::KeyZ => Some(0x2Cu32),
        Key::Digit1 => Some(0x02u32),
        Key::Digit2 => Some(0x03u32),
        Key::Digit3 => Some(0x04u32),
        Key::Digit4 => Some(0x05u32),
        Key::Digit5 => Some(0x06u32),
        Key::Digit6 => Some(0x07u32),
        Key::Digit7 => Some(0x08u32),
        Key::Digit8 => Some(0x09u32),
        Key::Digit9 => Some(0x0Au32),
        Key::Digit0 => Some(0x0Bu32),
        Key::Backquote => Some(0x29u32),
        Key::Backslash => Some(0x2Bu32),
        Key::BracketLeft => Some(0x1Au32),
        Key::BracketRight => Some(0x1Bu32),
        Key::Comma => Some(0x33u32),
        Key::Equal => Some(0x0Du32),
        Key::Minus => Some(0x0Cu32),
        Key::Period => Some(0x34u32),
        Key::Quote => Some(0x28u32),
        Key::Semicolon => Some(0x27u32),
        Key::Slash => Some(0x35u32),
        Key::IntlBackslash => Some(0x56u32),
        Key::AltLeft => Some(0x38u32),
        Key::AltRight => Some(0xE038u32),
        Key::Backspace => Some(0x0Eu32),
        Key::CapsLock => Some(0x3Au32),
        Key::ContextMenu => Some(0xE05Du32),
        Key::ControlLeft => Some(0x1Du32),
        Key::ControlRight => Some(0xE01Du32),
        Key::Enter => Some(0x1Cu32),
        Key::Escape => Some(0x01u32),
        Key::MetaLeft => Some(0xE05Bu32),
        Key::MetaRight => Some(0xE05Cu32),
        Key::ShiftLeft => Some(0x2Au32),
        Key::ShiftRight => Some(0x36u32),
        Key::Space => Some(0x39u32),
        Key::Tab => Some(0x0Fu32),
        Key::Convert => Some(0x79u32),
        Key::NonConvert => Some(0x7Bu32),
        Key::Delete => Some(0xE053u32),
        Key::End => Some(0xE04Fu32),
        Key::Home => Some(0xE047u32),
        Key::Insert => Some(0xE052u32),
        Key::PageDown => Some(0xE051u32),
        Key::PageUp => Some(0xE049u32),
        Key::ArrowDown => Some(0xE050u32),
        Key::ArrowLeft => Some(0xE04Bu32),
        Key::ArrowRight => Some(0xE04Du32),
        Key::ArrowUp => Some(0xE048u32),
        Key::NumLock => Some(0x45u32),
        Key::Numpad0 => Some(0x52u32),
        Key::Numpad1 => Some(0x4Fu32),
        Key::Numpad2 => Some(0x50u32),
        Key::Numpad3 => Some(0x51u32),
        Key::Numpad4 => Some(0x4Bu32),
        Key::Numpad5 => Some(0x4Cu32),
        Key::Numpad6 => Some(0x4Du32),
        Key::Numpad7 => Some(0x47u32),
        Key::Numpad8 => Some(0x48u32),
        Key::Numpad9 => Some(0x49u32),
        Key::NumpadAdd => Some(0x4Eu32),
        Key::NumpadDecimal => Some(0x53u32),
        Key::NumpadDivide => Some(0xE035u32),
        Key::NumpadEnter => Some(0xE01Cu32),
        Key::NumpadMultiply => Some(0x37u32),
        Key::NumpadSubtract => Some(0x4Au32),
        Key::F1 => Some(0x3Bu32),
        Key::F2 => Some(0x3Cu32),
        Key::F3 => Some(0x3Du32),
        Key::F4 => Some(0x3Eu32),
        Key::F5 => Some(0x3Fu32),
        Key::F6 => Some(0x40u32),
        Key::F7 => Some(0x41u32),
        Key::F8 => Some(0x42u32),
        Key::F9 => Some(0x43u32),
        Key::F10 => Some(0x44u32),
        Key::F11 => Some(0x57u32),
        Key::F12 => Some(0x58u32),
        Key::F13 => Some(0x64u32),
        Key::F14 => Some(0x65u32),
        Key::F15 => Some(0x66u32),
        Key::F16 => Some(0x67u32),
        Key::F17 => Some(0x68u32),
        Key::F18 => Some(0x69u32),
        Key::F19 => Some(0x6Au32),
        Key::F20 => Some(0x6Bu32),
        Key::F21 => Some(0x6Cu32),
        Key::F22 => Some(0x6Du32),
        Key::F23 => Some(0x6Eu32),
        Key::F24 => Some(0x76u32),
        Key::PrintScreen => Some(0xE037u32),
        Key::ScrollLock => Some(0x46u32),
        Key::Pause => Some(0xE145u32),
        Key::IntlRo => Some(0x73u32),
        Key::IntlYen => Some(0x7Du32),
        _ => None,
    }
}

/// Maps a canonical key to its hardware scan code.
pub fn key_to_scancode(key: Key) -> (r: Option<KeyCode>)
    ensures
        r == spec_key_to_scancode(key),
{
    match key {
        Key::KeyA => Some(0x1Eu32),
        Key::KeyB => Some(0x30u32),
        Key::KeyC => Some(0x2Eu32),
        Key::KeyD => Some(0x20u32),
        Key::KeyE => Some(0x12u32),
        Key::KeyF => Some(0x21u32),
        Key::KeyG => Some(0x22u32),
        Key::KeyH => Some(0x23u32),
        Key::KeyI => Some(0x17u32),
        Key::KeyJ => Some(0x24u32),
        Key::KeyK => Some(0x25u32),
        Key::KeyL => Some(0x26u32),
        Key::KeyM => Some(0x32u32),
        Key::KeyN => Some(0x31u32),
        Key::KeyO => Some(0x18u32),
        Key::KeyP => Some(0x19u32),
        Key::KeyQ => Some(0x10u32),
        Key::KeyR => Some(0x13u32),
        Key::KeyS => Some(0x1Fu32),
        Key::KeyT => Some(0x14u32),
        Key::KeyU => Some(0x16u32),
        Key::KeyV => Some(0x2Fu32),
        Key::KeyW => Some(0x11u32),
        Key::KeyX => Some(0x2Du32),
        Key::KeyY => Some(0x15u32),
        Key::KeyZ => Some(0x2Cu32),
        Key::Digit1 => Some(0x02u32),
        Key::Digit2 => Some(0x03u32),
        Key::Digit3 => Some(0x04u32),
        Key::Digit4 => Some(0x05u32),
        Key::Digit5 => Some(0x06u32),
        Key::Digit6 => Some(0x07u32),
        Key::Digit7 => Some(0x08u32),
        Key::Digit8 => Some(0x09u32),
        Key::Digit9 => Some(0x0Au32),
        Key::Digit0 => Some(0x0Bu32),
        Key::Backquote => Some(0x29u32),
        Key::Backslash => Some(0x2Bu32),
        Key::BracketLeft => Some(0x1Au32),
        Key::BracketRight => Some(0x1Bu32),
        Key::Comma => Some(0x33u32),
        Key::Equal => Some(0x0Du32),
        Key::Minus => Some(0x0Cu32),
        Key::Period => Some(0x34u32),
        Key::Quote => Some(0x28u32),
        Key::Semicolon => Some(0x27u32),
        Key::Slash => Some(0x35u32),
        Key::IntlBackslash => Some(0x56u32),
        Key::AltLeft => Some(0x38u32),
        Key::AltRight => Some(0xE038u32),
        Key::Backspace => Some(0x0Eu32),
        Key::CapsLock => Some(0x3Au32),
        Key::ContextMenu => Some(0xE05Du32),
        Key::ControlLeft => Some(0x1Du32),
        Key::ControlRight => Some(0xE01Du32),
        Key::Enter => Some(0x1Cu32),
        Key::Escape => Some(0x01u32),
        Key::MetaLeft => Some(0xE05Bu32),
        Key::MetaRight => Some(0xE05Cu32),
        Key::ShiftLeft => Some(0x2Au32),
        Key::ShiftRight => Some(0x36u32),
        Key::Space => Some(0x39u32),
        Key::Tab => Some(0x0Fu32),
        Key::Convert => Some(0x79u32),
        Key::NonConvert => Some(0x7Bu32),
        Key::Delete => Some(0xE053u32),
        Key::End => Some(0xE04Fu32),
        Key::Home => Some(0xE047u32),
        Key::Insert => Some(0xE052u32),
        Key::PageDown => Some(0xE051u32),
        Key::PageUp => Some(0xE049u32),
        Key::ArrowDown => Some(0xE050u32),
        Key::ArrowLeft => Some(0xE04Bu32),
        Key::ArrowRight => Some(0xE04Du32),
        Key::ArrowUp => Some(0xE048u32),
        Key::NumLock => Some(0x45u32),
        Key::Numpad0 => Some(0x52u32),
        Key::Numpad1 => Some(0x4Fu32),
        Key::Numpad2 => Some(0x50u32),
        Key::Numpad3 => Some(0x51u32),
        Key::Numpad4 => Some(0x4Bu32),
        Key::Numpad5 => Some(0x4Cu32),
        Key::Numpad6 => Some(0x4Du32),
        Key::Numpad7 => Some(0x47u32),
        Key::Numpad8 => Some(0x48u32),
        Key::Numpad9 => Some(0x49u32),
        Key::NumpadAdd => Some(0x4Eu32),
        Key::NumpadDecimal => Some(0x53u32),
        Key::NumpadDivide => Some(0xE035u32),
        Key::NumpadEnter => Some(0xE01Cu32),
        Key::NumpadMultiply => Some(0x37u32),
        Key::NumpadSubtract => Some(0x4Au32),
        Key::F1 => Some(0x3Bu32),
        Key::F2 => Some(0x3Cu32),
        Key::F3 => Some(0x3Du32),
        Key::F4 => Some(0x3Eu32),
        Key::F5 => Some(0x3Fu32),
        Key::F6 => Some(0x40u32),
        Key::F7 => Some(0x41u32),
        Key::F8 => Some(0x42u32),
        Key::F9 => Some(0x43u32),
        Key::F10 => Some(0x44u32),
        Key::F11 => Some(0x57u32),
        Key::F12 => Some(0x58u32),
        Key::F13 => Some(0x64u32),
        Key::F14 => Some(0x65u32),
        Key::F15 => Some(0x66u32),
        Key::F16 => Some(0x67u32),
        Key::F17 => Some(0x68u32),
        Key::F18 => Some(0x69u32),
        Key::F19 => Some(0x6Au32),
        Key::F20 => Some(0x6Bu32),
        Key::F21 => Some(0x6Cu32),
        Key::F22 => Some(0x6Du32),
        Key::F23 => Some(0x6Eu32),
        Key::F24 => Some(0x76u32),
        Key::PrintScreen => Some(0xE037u32),
        Key::ScrollLock => Some(0x46u32),
        Key::Pause => Some(0xE145u32),
        Key::IntlRo => Some(0x73u32),
        Key::IntlYen => Some(0x7Du32),
        _ => None,
    }
}

/// The canonical key a hardware scan code resolves to.
pub open spec fn spec_scancode_to_key(code: KeyCode) -> Key {
    match code {
        0x1Eu32 => Key::KeyA,
        0x30u32 => Key::KeyB,
        0x2Eu32 => Key::KeyC,
        0x20u32 => Key::KeyD,
        0x12u32 => Key::KeyE,
        0x21u32 => Key::KeyF,
        0x22u32 => Key::KeyG,
        0x23u32 => Key::KeyH,
        0x17u32 => Key::KeyI,
        0x24u32 => Key::KeyJ,
        0x25u32 => Key::KeyK,
        0x26u32 => Key::KeyL,
        0x32u32 => Key::KeyM,
        0x31u32 => Key::KeyN,
        0x18u32 => Key::KeyO,
        0x19u32 => Key::KeyP,
        0x10u32 => Key::KeyQ,
        0x13u32 => Key::KeyR,
        0x1Fu32 => Key::KeyS,
        0x14u32 => Key::KeyT,
        0x16u32 => Key::KeyU,
        0x2Fu32 => Key::KeyV,
        0x11u32 => Key::KeyW,
        0x2Du32 => Key::KeyX,
        0x15u32 => Key::KeyY,
        0x2Cu32 => Key::KeyZ,
        0x02u32 => Key::Digit1,
        0x03u32 => Key::Digit2,
        0x04u32 => Key::Digit3,
        0x05u32 => Key::Digit4,
        0x06u32 => Key::Digit5,
        0x07u32 => Key::Digit6,
        0x08u32 => Key::Digit7,
        0x09u32 => Key::Digit8,
        0x0Au32 => Key::Digit9,
        0x0Bu32 => Key::Digit0,
        0x29u32 => Key::Backquote,
        0x2Bu32 => Key::Backslash,
        0x1Au32 => Key::BracketLeft,
        0x1Bu32 => Key::BracketRight,
        0x33u32 => Key::Comma,
        0x0Du32 => Key::Equal,
        0x0Cu32 => Key::Minus,
        0x34u32 => Key::Period,
        0x28u32 => Key::Quote,
        0x27u32 => Key::Semicolon,
        0x35u32 => Key::Slash,
        0x56u32 => Key::IntlBackslash,
        0x38u32 => Key::AltLeft,
        0xE038u32 => Key::AltRight,
        0x0Eu32 => Key::Backspace,
        0x3Au32 => Key::CapsLock,
        0xE05Du32 => Key::ContextMenu,
        0x1Du32 => Key::ControlLeft,
        0xE01Du32 => Key::ControlRight,
        0x1Cu32 => Key::Enter,
        0x01u32 => Key::Escape,
        0xE05Bu32 => Key::MetaLeft,
        0xE05Cu32 => Key::MetaRight,
        0x2Au32 => Key::ShiftLeft,
        0x36u32 => Key::ShiftRight,
        0x39u32 => Key::Space,
        0x0Fu32 => Key::Tab,
        0x79u32 => Key::Convert,
        0x7Bu32 => Key::NonConvert,
        0xE053u32 => Key::Delete,
        0xE04Fu32 => Key::End,
        0xE047u32 => Key::Home,
        0xE052u32 => Key::Insert,
        0xE051u32 => Key::PageDown,
        0xE049u32 => Key::PageUp,
        0xE050u32 => Key::ArrowDown,
        0xE04Bu32 => Key::ArrowLeft,
        0xE04Du32 => Key::ArrowRight,
        0xE048u32 => Key::ArrowUp,
        0x45u32 => Key::NumLock,
        0x52u32 => Key::Numpad0,
        0x4Fu32 => Key::Numpad1,
        0x50u32 => Key::Numpad2,
        0x51u32 => Key::Numpad3,
        0x4Bu32 => Key::Numpad4,
        0x4Cu32 => Key::Numpad5,
        0x4Du32 => Key::Numpad6,
        0x47u32 => Key::Numpad7,
        0x48u32 => Key::Numpad8,
        0x49u32 => Key::Numpad9,
        0x4Eu32 => Key::NumpadAdd,
        0x53u32 => Key::NumpadDecimal,
        0xE035u32 => Key::NumpadDivide,
        0xE01Cu32 => Key::NumpadEnter,
        0x37u32 => Key::NumpadMultiply,
        0x4Au32 => Key::NumpadSubtract,
        0x3Bu32 => Key::F1,
        0x3Cu32 => Key::F2,
        0x3Du32 => Key::F3,
        0x3Eu32 => Key::F4,
        0x3Fu32 => Key::F5,
        0x40u32 => Key::F6,
        0x41u32 => Key::F7,
        0x42u32 => Key::F8,
        0x43u32 => Key::F9,
        0x44u32 => Key::F10,
        0x57u32 => Key::F11,
        0x58u32 => Key::F12,
        0x64u32 => Key::F13,
        0x65u32 => Key::F14,
        0x66u32 => Key::F15,
        0x67u32 => Key::F16,
        0x68u32 => Key::F17,
        0x69u32 => Key::F18,
        0x6Au32 => Key::F19,
        0x6Bu32 => Key::F20,
        0x6Cu32 => Key::F21,
        0x6Du32 => Key::F22,
        0x6Eu32 => Key::F23,
        0x76u32 => Key::F24,
        0xE037u32 => Key::PrintScreen,
        0x46u32 => Key::ScrollLock,
        0xE145u32 => Key::Pause,
        0x73u32 => Key::IntlRo,
        0x7Du32 => Key::IntlYen,
        _ => Key::Unidentified,
    }
}

/// Maps a hardware scan code to its canonical key.
pub fn scancode_to_key(code: KeyCode) -> (r: Key)
    ensures
        r == spec_scancode_to_key(code),
{
    match code {
        0x1Eu32 => Key::KeyA,
        0x30u32 => Key::KeyB,
        0x2Eu32 => Key::KeyC,
        0x20u32 => Key::KeyD,
        0x12u32 => Key::KeyE,
        0x21u32 => Key::KeyF,
        0x22u32 => Key::KeyG,
        0x23u32 => Key::KeyH,
        0x17u32 => Key::KeyI,
        0x24u32 => Key::KeyJ,
        0x25u32 => Key::KeyK,
        0x26u32 => Key::KeyL,
        0x32u32 => Key::KeyM,
        0x31u32 => Key::KeyN,
        0x18u32 => Key::KeyO,
        0x19u32 => Key::KeyP,
        0x10u32 => Key::KeyQ,
        0x13u32 => Key::KeyR,
        0x1Fu32 => Key::KeyS,
        0x14u32 => Key::KeyT,
        0x16u32 => Key::KeyU,
        0x2Fu32 => Key::KeyV,
        0x11u32 => Key::KeyW,
        0x2Du32 => Key::KeyX,
        0x15u32 => Key::KeyY,
        0x2Cu32 => Key::KeyZ,
        0x02u32 => Key::Digit1,
        0x03u32 => Key::Digit2,
        0x04u32 => Key::Digit3,
        0x05u32 => Key::Digit4,
        0x06u32 => Key::Digit5,
        0x07u32 => Key::Digit6,
        0x08u32 => Key::Digit7,
        0x09u32 => Key::Digit8,
        0x0Au32 => Key::Digit9,
        0x0Bu32 => Key::Digit0,
        0x29u32 => Key::Backquote,
        0x2Bu32 => Key::Backslash,
        0x1Au32 => Key::BracketLeft,
        0x1Bu32 => Key::BracketRight,
        0x33u32 => Key::Comma,
        0x0Du32 => Key::Equal,
        0x0Cu32 => Key::Minus,
        0x34u32 => Key::Period,
        0x28u32 => Key::Quote,
        0x27u32 => Key::Semicolon,
        0x35u32 => Key::Slash,
        0x56u32 => Key::IntlBackslash,
        0x38u32 => Key::AltLeft,
        0xE038u32 => Key::AltRight,
        0x0Eu32 => Key::Backspace,
        0x3Au32 => Key::CapsLock,
        0xE05Du32 => Key::ContextMenu,
        0x1Du32 => Key::ControlLeft,
        0xE01Du32 => Key::ControlRight,
        0x1Cu32 => Key::Enter,
        0x01u32 => Key::Escape,
        0xE05Bu32 => Key::MetaLeft,
        0xE05Cu32 => Key::MetaRight,
        0x2Au32 => Key::ShiftLeft,
        0x36u32 => Key::ShiftRight,
        0x39u32 => Key::Space,
        0x0Fu32 => Key::Tab,
        0x79u32 => Key::Convert,
        0x7Bu32 => Key::NonConvert,
        0xE053u32 => Key::Delete,
        0xE04Fu32 => Key::End,
        0xE047u32 => Key::Home,
        0xE052u32 => Key::Insert,
        0xE051u32 => Key::PageDown,
        0xE049u32 => Key::PageUp,
        0xE050u32 => Key::ArrowDown,
        0xE04Bu32 => Key::ArrowLeft,
        0xE04Du32 => Key::ArrowRight,
        0xE048u32 => Key::ArrowUp,
        0x45u32 => Key::NumLock,
        0x52u32 => Key::Numpad0,
        0x4Fu32 => Key::Numpad1,
        0x50u32 => Key::Numpad2,
        0x51u32 => Key::Numpad3,
        0x4Bu32 => Key::Numpad4,
        0x4Cu32 => Key::Numpad5,
        0x4Du32 => Key::Numpad6,
        0x47u32 => Key::Numpad7,
        0x48u32 => Key::Numpad8,
        0x49u32 => Key::Numpad9,
        0x4Eu32 => Key::NumpadAdd,
        0x53u32 => Key::NumpadDecimal,
        0xE035u32 => Key::NumpadDivide,
        0xE01Cu32 => Key::NumpadEnter,
        0x37u32 => Key::NumpadMultiply,
        0x4Au32 => Key::NumpadSubtract,
        0x3Bu32 => Key::F1,
        0x3Cu32 => Key::F2,
        0x3Du32 => Key::F3,
        0x3Eu32 => Key::F4,
        0x3Fu32 => Key::F5,
        0x40u32 => Key::F6,
        0x41u32 => Key::F7,
        0x42u32 => Key::F8,
        0x43u32 => Key::F9,
        0x44u32 => Key::F10,
        0x57u32 => Key::F11,
        0x58u32 => Key::F12,
        0x64u32 => Key::F13,
        0x65u32 => Key::F14,
        0x66u32 => Key::F15,
        0x67u32 => Key::F16,
        0x68u32 => Key::F17,
        0x69u32 => Key::F18,
        0x6Au32 => Key::F19,
        0x6Bu32 => Key::F20,
        0x6Cu32 => Key::F21,
        0x6Du32 => Key::F22,
        0x6Eu32 => Key::F23,
        0x76u32 => Key::F24,
        0xE037u32 => Key::PrintScreen,
        0x46u32 => Key::ScrollLock,
        0xE145u32 => Key::Pause,
        0x73u32 => Key::IntlRo,
        0x7Du32 => Key::IntlYen,
        _ => Key::Unidentified,
    }
}

/// The key a payload resolves to when both a virtual-key code and a scan
/// code are present: the scan code is preferred for layout fidelity, except
/// for the positions whose scan code is shared with another key, where the
/// virtual-key code disambiguates.
pub open spec fn spec_get_win_key(keycode: KeyCode, scancode: KeyCode) -> Key {
    let key = spec_code_to_key(keycode);
    let scancode_key = spec_scancode_to_key(scancode);
    if key == Key::AltRight || key == Key::NumpadDivide || key == Key::ControlRight {
        key
    } else if scancode_key != Key::Unidentified {
        scancode_key
    } else {
        key
    }
}

/// Resolves a hook payload carrying both a virtual-key code and a scan code
/// to one canonical key, preferring the scan code.
pub fn get_win_key(keycode: KeyCode, scancode: KeyCode) -> (r: Key)
    ensures
        r == spec_get_win_key(keycode, scancode),
{
    let key = code_to_key(keycode);
    let scancode_key = scancode_to_key(scancode);
    if key == Key::AltRight || key == Key::NumpadDivide || key == Key::ControlRight {
        key
    } else if scancode_key != Key::Unidentified {
        scancode_key
    } else {
        key
    }
}

/// The (virtual-key, scan) code pair used to inject a canonical key, if the
/// key has both.
pub open spec fn spec_get_win_codes(key: Key) -> Option<(KeyCode, KeyCode)> {
    match spec_key_to_code(key) {
        None => None,
        Some(keycode) => {
            let key = if key == Key::Unidentified {
                spec_code_to_key(keycode)
            } else {
                key
            };
            match spec_key_to_scancode(key) {
                None => None,
                Some(scancode) => Some((keycode, scancode)),
            }
        },
    }
}

/// Looks up the (virtual-key, scan) code pair for injecting a canonical key.
pub fn get_win_codes(key: Key) -> (r: Option<(KeyCode, KeyCode)>)
    ensures
        r == spec_get_win_codes(key),
{
    match key_to_code(key) {
        None => None,
        Some(keycode) => {
            let key = if key == Key::Unidentified {
                code_to_key(keycode)
            } else {
                key
            };
            match key_to_scancode(key) {
                None => None,
                Some(scancode) => Some((keycode, scancode)),
            }
        },
    }
}

/// Law: virtual-key translation round-trips.  For every canonical key with a
/// virtual-key code, translating the code back yields the original key,
/// except for the three positions that share their code with another key.
pub proof fn lemma_win_vk_round_trip(key: Key)
    ensures
        spec_key_to_code(key) matches Some(code) ==> spec_code_to_key(code) == key || key
            == Key::NumpadEnter || key == Key::IntlRo || key == Key::IntlYen,
{
}

/// Law: scan-code translation round-trips for every canonical key that has a
/// scan code, without exception.
pub proof fn lemma_win_scan_round_trip(key: Key)
    ensures
        spec_key_to_scancode(key) matches Some(code) ==> spec_scancode_to_key(code) == key,
{
}

} // verus!
