use raw_input::bits::{get_code, get_scan_code, hibyte, hiword, lobyte, loword};
use raw_input::{keycode_macos, keycode_windows, Key};

#[test]
fn test_win_vk_translation() {
    assert_eq!(keycode_windows::key_to_code(Key::KeyA), Some(65));
    assert_eq!(keycode_windows::code_to_key(65), Key::KeyA);
    assert_eq!(keycode_windows::key_to_code(Key::Escape), Some(27));
    assert_eq!(keycode_windows::code_to_key(27), Key::Escape);
    // A code without an entry degrades to Unidentified.
    assert_eq!(keycode_windows::code_to_key(0xFFFF), Key::Unidentified);
    // A key without a virtual-key entry has no code.
    assert_eq!(keycode_windows::key_to_code(Key::Unidentified), None);
    assert_eq!(keycode_windows::key_to_code(Key::Help), None);
}

#[test]
fn test_win_vk_round_trip_with_documented_exceptions() {
    let keys = [
        Key::KeyA, Key::KeyZ, Key::Digit0, Key::Digit9, Key::Enter, Key::Space, Key::F1,
        Key::F24, Key::ArrowLeft, Key::NumLock, Key::Numpad5, Key::ShiftRight, Key::MetaLeft,
        Key::Backquote, Key::IntlBackslash, Key::Pause,
    ];
    for key in keys {
        let code = keycode_windows::key_to_code(key).expect("key has a virtual-key code");
        assert_eq!(keycode_windows::code_to_key(code), key, "round trip of {:?}", key);
    }
    // The documented ambiguity exceptions: two canonical keys sharing one
    // code resolve to the first of the pair.
    assert_eq!(keycode_windows::key_to_code(Key::NumpadEnter), Some(13));
    assert_eq!(keycode_windows::code_to_key(13), Key::Enter);
    assert_eq!(keycode_windows::key_to_code(Key::IntlRo), Some(226));
    assert_eq!(keycode_windows::code_to_key(226), Key::IntlBackslash);
    assert_eq!(keycode_windows::key_to_code(Key::IntlYen), Some(220));
    assert_eq!(keycode_windows::code_to_key(220), Key::Backslash);
}

#[test]
fn test_win_scan_round_trip_is_exact() {
    let keys = [
        Key::KeyA, Key::KeyZ, Key::Digit0, Key::Enter, Key::NumpadEnter, Key::IntlRo,
        Key::IntlYen, Key::ArrowUp, Key::AltRight, Key::ControlRight, Key::NumpadDivide,
        Key::ShiftRight, Key::Pause, Key::PrintScreen, Key::F13,
    ];
    for key in keys {
        let scan = keycode_windows::key_to_scancode(key).expect("key has a scan code");
        assert_eq!(keycode_windows::scancode_to_key(scan), key, "round trip of {:?}", key);
    }
    assert_eq!(keycode_windows::key_to_scancode(Key::NumpadEnter), Some(0xE01C));
    assert_eq!(keycode_windows::scancode_to_key(0), Key::Unidentified);
}

#[test]
fn test_get_win_key_prefers_scan_codes() {
    // With both codes present the scan code wins for layout fidelity.
    let vk_a = keycode_windows::key_to_code(Key::KeyA).unwrap();
    let scan_q = keycode_windows::key_to_scancode(Key::KeyQ).unwrap();
    assert_eq!(keycode_windows::get_win_key(vk_a, scan_q), Key::KeyQ);

    // Positions whose scan code is ambiguous resolve by virtual key.
    let vk_alt_right = keycode_windows::key_to_code(Key::AltRight).unwrap();
    let scan_alt = keycode_windows::key_to_scancode(Key::AltLeft).unwrap();
    assert_eq!(keycode_windows::get_win_key(vk_alt_right, scan_alt), Key::AltRight);

    // An unknown scan code falls back to the virtual key.
    assert_eq!(keycode_windows::get_win_key(vk_a, 0xFFFF), Key::KeyA);
}

#[test]
fn test_get_win_codes_pairs() {
    assert_eq!(keycode_windows::get_win_codes(Key::KeyA), Some((65, 0x1E)));
    assert_eq!(keycode_windows::get_win_codes(Key::ArrowLeft), Some((37, 0xE04B)));
    assert_eq!(keycode_windows::get_win_codes(Key::Unidentified), None);
}

#[test]
fn test_mac_translation_round_trip() {
    assert_eq!(keycode_macos::key_to_code(Key::KeyA), Some(0x00));
    assert_eq!(keycode_macos::code_to_key(0x00), Key::KeyA);
    assert_eq!(keycode_macos::key_to_code(Key::Enter), Some(0x24));
    assert_eq!(keycode_macos::code_to_key(0x24), Key::Enter);
    let keys = [
        Key::KeyA, Key::KeyZ, Key::Digit5, Key::Digit6, Key::Insert, Key::ArrowUp, Key::F20,
        Key::IntlYen, Key::MetaRight, Key::NumpadEnter,
    ];
    for key in keys {
        let code = keycode_macos::key_to_code(key).expect("key has a platform code");
        assert_eq!(keycode_macos::code_to_key(code), key, "round trip of {:?}", key);
    }
    assert_eq!(keycode_macos::code_to_key(0xFF), Key::Unidentified);
    assert_eq!(keycode_macos::key_to_code(Key::ContextMenu), None);
}

#[test]
fn test_word_and_byte_extraction() {
    assert_eq!(hiword(0x8001_0203), 0x8001);
    assert_eq!(loword(0x8001_0203), 0x0203);
    assert_eq!(hibyte(0xA1B2), 0xA1);
    assert_eq!(lobyte(0xA1B2), 0xB2);
}

#[test]
fn test_get_code_unicode_packet() {
    // An ordinary payload reports its virtual-key code.
    assert_eq!(get_code(65, 0x1E), 65);
    // A unicode packet payload carries the character in the scan-code field.
    assert_eq!(get_code(0xE7, 0x4E2D), 0x4E2D);
}

#[test]
fn test_get_scan_code_extended_prefix() {
    // An extended key gains the 0xE0 prefix.
    assert_eq!(get_scan_code(0x1D, true), 0xE01D);
    // A plain key keeps its code.
    assert_eq!(get_scan_code(0x1D, false), 0x1D);
    // Right shift and num lock have scan codes of their own, never prefixed.
    assert_eq!(get_scan_code(0x36, true), 0x36);
    assert_eq!(get_scan_code(0x45, true), 0x45);
}

#[test]
fn test_key_default_is_unidentified() {
    assert_eq!(Key::default(), Key::Unidentified);
}
