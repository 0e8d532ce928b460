//! Canonical keyboard vocabulary.
//!
//! The variants follow the W3C `KeyboardEvent.code` naming: they identify
//! physical key positions, independent of layout and locale.  Translation
//! from platform codes never fails; a code without a table entry degrades to
//! [`Key::Unidentified`].

use vstd::prelude::*;

verus! {

/// Platform raw key code (OS-dependent numeric value).
pub type KeyCode = u32;

/// A physical key position, aligned with W3C `KeyboardEvent.code` values.
#[derive(Debug, Copy, Clone, PartialEq, Eq, Hash, Structural)]
pub enum Key {
    // --- Writing system keys ---
    Backquote,
    Backslash,
    BracketLeft,
    BracketRight,
    Comma,
    Digit0,
    Digit1,
    Digit2,
    Digit3,
    Digit4,
    Digit5,
    Digit6,
    Digit7,
    Digit8,
    Digit9,
    Equal,
    IntlBackslash,
    IntlRo,
    IntlYen,
    KeyA,
    KeyB,
    KeyC,
    KeyD,
    KeyE,
    KeyF,
    KeyG,
    KeyH,
    KeyI,
    KeyJ,
    KeyK,
    KeyL,
    KeyM,
    KeyN,
    KeyO,
    KeyP,
    KeyQ,
    KeyR,
    KeyS,
    KeyT,
    KeyU,
    KeyV,
    KeyW,
    KeyX,
    KeyY,
    KeyZ,
    Minus,
    Period,
    Quote,
    Semicolon,
    Slash,
    // --- Functional keys ---
    AltLeft,
    AltRight,
    Backspace,
    CapsLock,
    ContextMenu,
    ControlLeft,
    ControlRight,
    Enter,
    MetaLeft,
    MetaRight,
    ShiftLeft,
    ShiftRight,
    Space,
    Tab,
    Convert,
    NonConvert,
    // --- Control pad ---
    Delete,
    End,
    Help,
    Home,
    Insert,
    PageDown,
    PageUp,
    // --- Arrow pad ---
    ArrowDown,
    ArrowLeft,
    ArrowRight,
    ArrowUp,
    // --- Numpad ---
    NumLock,
    Numpad0,
    Numpad1,
    Numpad2,
    Numpad3,
    Numpad4,
    Numpad5,
    Numpad6,
    Numpad7,
    Numpad8,
    Numpad9,
    NumpadAdd,
    NumpadDecimal,
    NumpadDivide,
    NumpadEnter,
    NumpadMultiply,
    NumpadSubtract,
    // --- Function section ---
    Escape,
    F1,
    F2,
    F3,
    F4,
    F5,
    F6,
    F7,
    F8,
    F9,
    F10,
    F11,
    F12,
    F13,
    F14,
    F15,
    F16,
    F17,
    F18,
    F19,
    F20,
    F21,
    F22,
    F23,
    F24,
    PrintScreen,
    ScrollLock,
    Pause,
    /// Fallback for codes without a translation entry.
    Unidentified,
}

impl Default for Key {
    /// The default key is the fallback variant.
    fn default() -> (r: Self)
        ensures
            r == Key::Unidentified,
    {
        Key::Unidentified
    }
}

} // verus!
