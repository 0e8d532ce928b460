use raw_input::simulate::{
    KEYEVENTF_EXTENDEDKEY, KEYEVENTF_KEYUP, KEYEVENTF_SCANCODE, MOUSEEVENTF_ABSOLUTE,
    MOUSEEVENTF_HWHEEL, MOUSEEVENTF_LEFTDOWN, MOUSEEVENTF_MOVE, MOUSEEVENTF_RIGHTUP,
    MOUSEEVENTF_VIRTUALDESK, MOUSEEVENTF_WHEEL, MOUSEEVENTF_XDOWN, MOUSEEVENTF_XUP,
};
use raw_input::{
    Event, InputDesc, Key, MouseButton, MouseInput, Point, Simulate, VirtualDesktop,
};

fn mouse(desc: &InputDesc) -> &MouseInput {
    match desc {
        InputDesc::Mouse(mi) => mi,
        InputDesc::Keyboard(_) => panic!("expected a mouse record"),
    }
}

#[test]
fn test_simulate_relative_move() {
    let batch = Simulate::mouse_move(15, -3);
    assert_eq!(batch.len(), 1);
    let mi = mouse(&batch[0]);
    assert_eq!((mi.dx, mi.dy, mi.mouse_data, mi.flags), (15, -3, 0, MOUSEEVENTF_MOVE));
}

#[test]
fn test_coordinate_conversion() {
    // Virtual desktop bounds (x = -1920, y = 0, w = 5760, h = 1080), scale
    // 1.0, target logical (0, 0).  The documented mapping is
    // normalized = (physical - origin) * 65535 / (extent - 1), evaluated as
    // one exact rational and floored:
    // X: 1920 * 65535 / 5759 = 125827200 / 5759 = 21848.  Y: 0.
    let desk = VirtualDesktop { x: -1920, y: 0, width: 5760, height: 1080, scale_percent: 100 };
    let batch = Simulate::mouse_move_to(0, 0, &desk);
    assert_eq!(batch.len(), 1);
    let mi = mouse(&batch[0]);
    assert_eq!(mi.dx, 21848);
    assert_eq!(mi.dy, 0);
    assert_eq!(mi.flags, MOUSEEVENTF_MOVE | MOUSEEVENTF_ABSOLUTE | MOUSEEVENTF_VIRTUALDESK);

    // The far corner maps to the top of the normalized range.
    let batch = Simulate::mouse_move_to(3839, 1079, &desk);
    let mi = *mouse(&batch[0]);
    assert_eq!((mi.dx, mi.dy), (65535, 65535));

    // The origin of the desktop maps to zero on both axes.
    let batch = Simulate::mouse_move_to(-1920, 0, &desk);
    let mi = *mouse(&batch[0]);
    assert_eq!((mi.dx, mi.dy), (0, 0));

    // A 150% scale multiplies the logical target before mapping:
    // physical x = 1.5 * 640 = 960, (960 + 1920) * 65535 / 5759 = 32773.
    let scaled = VirtualDesktop { x: -1920, y: 0, width: 5760, height: 1080, scale_percent: 150 };
    let batch = Simulate::mouse_move_to(640, 0, &scaled);
    let mi = *mouse(&batch[0]);
    assert_eq!(mi.dx as i64, (960i64 + 1920) * 65535 / 5759);
    assert_eq!(mi.dx, 32773);
}

#[test]
fn test_degenerate_desktop_is_a_no_op() {
    let flat = VirtualDesktop { x: 0, y: 0, width: 1, height: 1080, scale_percent: 100 };
    assert!(Simulate::mouse_move_to(10, 10, &flat).is_empty());
    let thin = VirtualDesktop { x: 0, y: 0, width: 5760, height: 0, scale_percent: 100 };
    assert!(Simulate::mouse_move_to(10, 10, &thin).is_empty());
}

#[test]
fn test_wheel_axes_are_emitted_independently() {
    // Vertical only.
    let batch = Simulate::mouse_wheel(0, -120);
    assert_eq!(batch.len(), 1);
    let mi = mouse(&batch[0]);
    assert_eq!((mi.mouse_data, mi.flags), (-120, MOUSEEVENTF_WHEEL));

    // Horizontal only.
    let batch = Simulate::mouse_wheel(240, 0);
    assert_eq!(batch.len(), 1);
    let mi = mouse(&batch[0]);
    assert_eq!((mi.mouse_data, mi.flags), (240, MOUSEEVENTF_HWHEEL));

    // Both: vertical first, then horizontal.
    let batch = Simulate::mouse_wheel(240, -120);
    assert_eq!(batch.len(), 2);
    assert_eq!(mouse(&batch[0]).flags, MOUSEEVENTF_WHEEL);
    assert_eq!(mouse(&batch[1]).flags, MOUSEEVENTF_HWHEEL);

    // Neither: nothing is injected.
    assert!(Simulate::mouse_wheel(0, 0).is_empty());
}

#[test]
fn test_mouse_button_records() {
    let batch = Simulate::mouse_button(MouseButton::Left, true);
    let mi = mouse(&batch[0]);
    assert_eq!((mi.mouse_data, mi.flags), (0, MOUSEEVENTF_LEFTDOWN));

    let batch = Simulate::mouse_button(MouseButton::Right, false);
    let mi = mouse(&batch[0]);
    assert_eq!((mi.mouse_data, mi.flags), (0, MOUSEEVENTF_RIGHTUP));

    // Extra buttons carry their index in the data field.
    let batch = Simulate::mouse_button(MouseButton::Back, true);
    let mi = mouse(&batch[0]);
    assert_eq!((mi.mouse_data, mi.flags), (1, MOUSEEVENTF_XDOWN));

    let batch = Simulate::mouse_button(MouseButton::Forward, false);
    let mi = mouse(&batch[0]);
    assert_eq!((mi.mouse_data, mi.flags), (2, MOUSEEVENTF_XUP));
}

#[test]
fn test_keyboard_records_prefer_scan_codes() {
    // KeyA has scan code 0x1E: scan-code mode, no extended prefix.
    let batch = Simulate::keyboard(Key::KeyA, true);
    assert_eq!(batch.len(), 1);
    match &batch[0] {
        InputDesc::Keyboard(ki) => {
            assert_eq!((ki.vk, ki.scan), (0, 0x1E));
            assert_eq!(ki.flags, KEYEVENTF_SCANCODE);
        }
        InputDesc::Mouse(_) => panic!("expected a keyboard record"),
    }

    // A release sets the key-up flag.
    let batch = Simulate::keyboard(Key::KeyA, false);
    match &batch[0] {
        InputDesc::Keyboard(ki) => assert_eq!(ki.flags, KEYEVENTF_SCANCODE | KEYEVENTF_KEYUP),
        InputDesc::Mouse(_) => panic!("expected a keyboard record"),
    }
}

#[test]
fn test_keyboard_extended_key_flag() {
    // ArrowLeft's scan code carries the 0xE0 prefix: the extended flag is set.
    let batch = Simulate::keyboard(Key::ArrowLeft, true);
    match &batch[0] {
        InputDesc::Keyboard(ki) => {
            assert_eq!(ki.scan, 0xE04B);
            assert_eq!(ki.flags, KEYEVENTF_SCANCODE | KEYEVENTF_EXTENDEDKEY);
        }
        InputDesc::Mouse(_) => panic!("expected a keyboard record"),
    }

    // Pause's scan code carries the 0xE1 prefix.
    let batch = Simulate::keyboard(Key::Pause, true);
    match &batch[0] {
        InputDesc::Keyboard(ki) => {
            assert_eq!(ki.scan, 0xE145);
            assert_eq!(ki.flags, KEYEVENTF_SCANCODE | KEYEVENTF_EXTENDEDKEY);
        }
        InputDesc::Mouse(_) => panic!("expected a keyboard record"),
    }
}

#[test]
fn test_unmapped_key_is_silently_dropped() {
    assert!(Simulate::keyboard(Key::Unidentified, true).is_empty());
    assert!(Simulate::keyboard(Key::Help, true).is_empty());
}

#[test]
fn test_simulation_workflow() {
    // Event-based simulation goes through the same conversions as the
    // discrete helpers.
    let move_batch = Simulate::simulate(Event::MouseMove { delta: Point { x: 4, y: 9 } });
    assert_eq!(move_batch, Simulate::mouse_move(4, 9));

    let wheel_batch = Simulate::simulate(Event::MouseWheel { delta_x: 0, delta_y: 120 });
    assert_eq!(wheel_batch, Simulate::mouse_wheel(0, 120));

    let down_batch = Simulate::simulate(Event::MouseDown { button: MouseButton::Middle });
    assert_eq!(down_batch, Simulate::mouse_button(MouseButton::Middle, true));

    let key_batch = Simulate::simulate(Event::KeyDown { key: Key::Enter, code: None });
    assert_eq!(key_batch, Simulate::keyboard(Key::Enter, true));

    let up_batch = Simulate::simulate(Event::KeyUp { key: Key::Enter, code: None });
    assert_eq!(up_batch, Simulate::keyboard(Key::Enter, false));
}

#[test]
fn test_wheel_ticks_saturate_to_the_data_field() {
    let batch = Simulate::mouse_wheel(0, i64::MAX);
    let mi = mouse(&batch[0]);
    assert_eq!(mi.mouse_data, i32::MAX);
    let batch = Simulate::mouse_wheel(i64::MIN, 0);
    let mi = mouse(&batch[0]);
    assert_eq!(mi.mouse_data, i32::MIN);
}
