use std::cell::RefCell;
use std::rc::Rc;

use raw_input::{Event, EventCallback, Key, Listen, MouseButton, Point, RawEvent, RawKey, WheelUnit};

struct Recorder {
    log: Rc<RefCell<Vec<Event>>>,
}

impl EventCallback for Recorder {
    fn invoke(&self, event: Event) {
        self.log.borrow_mut().push(event);
    }
}

fn recording_listener() -> (Listen<Recorder>, Rc<RefCell<Vec<Event>>>) {
    let log: Rc<RefCell<Vec<Event>>> = Rc::new(RefCell::new(Vec::new()));
    let mut listen: Listen<Recorder> = Listen::new();
    let _handle = listen.subscribe(Recorder { log: log.clone() });
    listen.start();
    (listen, log)
}

#[test]
fn test_listen_mouse_move_event() {
    let (mut listen, log) = recording_listener();
    let produced = listen.handle(RawEvent::MouseMove { dx: 10, dy: -2 });
    let expected = Event::MouseMove { delta: Point { x: 10, y: -2 } };
    assert_eq!(produced, Some(expected));
    assert_eq!(log.borrow().as_slice(), &[expected]);
}

#[test]
fn test_listen_not_running_drops_everything() {
    let (mut listen, log) = recording_listener();
    listen.pause();
    assert_eq!(listen.handle(RawEvent::MouseMove { dx: 1, dy: 1 }), None);
    assert_eq!(listen.handle(RawEvent::Key { key: RawKey::WinVirtualKeycode(65), down: true }), None);
    assert!(log.borrow().is_empty());
}

#[test]
fn test_listen_pause_resume_logic() {
    let (mut listen, log) = recording_listener();
    listen.pause();
    assert_eq!(listen.handle(RawEvent::MouseMove { dx: 5, dy: 5 }), None);
    listen.resume();
    assert!(listen.handle(RawEvent::MouseMove { dx: 5, dy: 5 }).is_some());
    assert_eq!(
        log.borrow().len(),
        1,
        "Listen capture logic failed: expected 1 event (after resume), but got {}.",
        log.borrow().len()
    );
}

#[test]
fn test_zero_delta_move_never_reaches_a_subscriber() {
    let (mut listen, log) = recording_listener();
    assert_eq!(listen.handle(RawEvent::MouseMove { dx: 0, dy: 0 }), None);
    assert_eq!(
        listen.handle(RawEvent::MouseWheel { dx: 0, dy: 0, unit: WheelUnit::Tick }),
        None
    );
    assert_eq!(
        listen.handle(RawEvent::MouseWheel { dx: 0, dy: 0, unit: WheelUnit::Notch }),
        None
    );
    assert!(log.borrow().is_empty());
}

#[test]
fn test_listen_mouse_wheel_event() {
    let (mut listen, _log) = recording_listener();
    // A tick-unit platform reports 1/120 notches: the value passes through.
    assert_eq!(
        listen.handle(RawEvent::MouseWheel { dx: 0, dy: -120, unit: WheelUnit::Tick }),
        Some(Event::MouseWheel { delta_x: 0, delta_y: -120 })
    );
    // A notch-unit platform reports whole lines: one line is 120 ticks.
    assert_eq!(
        listen.handle(RawEvent::MouseWheel { dx: 2, dy: 1, unit: WheelUnit::Notch }),
        Some(Event::MouseWheel { delta_x: 240, delta_y: 120 })
    );
    // An axis of zero magnitude stays zero independently of the other axis.
    assert_eq!(
        listen.handle(RawEvent::MouseWheel { dx: 3, dy: 0, unit: WheelUnit::Tick }),
        Some(Event::MouseWheel { delta_x: 3, delta_y: 0 })
    );
}

#[test]
fn test_listen_button_mapping() {
    let (mut listen, _log) = recording_listener();
    let cases = [
        (0, MouseButton::Left),
        (1, MouseButton::Right),
        (2, MouseButton::Middle),
        (3, MouseButton::Back),
        (4, MouseButton::Forward),
    ];
    for (index, button) in cases {
        assert_eq!(
            listen.handle(RawEvent::MouseButton { index, down: true }),
            Some(Event::MouseDown { button })
        );
        assert_eq!(
            listen.handle(RawEvent::MouseButton { index, down: false }),
            Some(Event::MouseUp { button })
        );
    }
    // An unrecognized index is dropped, not an error.
    assert_eq!(listen.handle(RawEvent::MouseButton { index: 5, down: true }), None);
}

#[test]
fn test_listen_keyboard_event() {
    let (mut listen, _log) = recording_listener();
    assert_eq!(
        listen.handle(RawEvent::Key { key: RawKey::WinVirtualKeycode(65), down: true }),
        Some(Event::KeyDown { key: Key::KeyA, code: Some(65) })
    );
    assert_eq!(
        listen.handle(RawEvent::Key { key: RawKey::MacVirtualKeycode(0x00), down: false }),
        Some(Event::KeyUp { key: Key::KeyA, code: Some(0) })
    );
    assert_eq!(
        listen.handle(RawEvent::Key { key: RawKey::ScanCode(0x1C), down: true }),
        Some(Event::KeyDown { key: Key::Enter, code: Some(0x1C) })
    );
    // A code without a table entry degrades to Unidentified instead of failing.
    assert_eq!(
        listen.handle(RawEvent::Key { key: RawKey::WinVirtualKeycode(0xFFFF), down: true }),
        Some(Event::KeyDown { key: Key::Unidentified, code: Some(0xFFFF) })
    );
    assert_eq!(
        listen.handle(RawEvent::Key { key: RawKey::LinuxXorgKeycode(38), down: true }),
        Some(Event::KeyDown { key: Key::Unidentified, code: Some(38) })
    );
}

#[test]
fn test_capability_bits_are_independent() {
    // Disabling the keyboard category must still deliver mouse events and
    // must drop all key events.
    let (mut listen, log) = recording_listener();
    listen.keyboard(false);
    assert_eq!(listen.handle(RawEvent::Key { key: RawKey::WinVirtualKeycode(65), down: true }), None);
    assert_eq!(
        listen.handle(RawEvent::FlagsChanged { flags: 0x20000, key: RawKey::MacVirtualKeycode(0x38) }),
        None
    );
    assert!(listen.handle(RawEvent::MouseMove { dx: 1, dy: 0 }).is_some());
    assert!(listen.handle(RawEvent::MouseButton { index: 0, down: true }).is_some());
    assert!(listen
        .handle(RawEvent::MouseWheel { dx: 0, dy: 120, unit: WheelUnit::Tick })
        .is_some());
    assert_eq!(log.borrow().len(), 3);

    // Re-enable keyboard, disable only mouse motion: keys flow again.
    listen.keyboard(true);
    listen.mouse_move(false);
    assert_eq!(listen.handle(RawEvent::MouseMove { dx: 1, dy: 0 }), None);
    assert!(listen.handle(RawEvent::Key { key: RawKey::WinVirtualKeycode(66), down: true }).is_some());
}

#[test]
fn test_modifier_flags_decoding() {
    let (mut listen, log) = recording_listener();
    let shift = RawKey::MacVirtualKeycode(0x38);

    // Old flags 0x00000, new flags 0x20000: exactly one key-down.
    assert_eq!(
        listen.handle(RawEvent::FlagsChanged { flags: 0x20000, key: shift }),
        Some(Event::KeyDown { key: Key::ShiftLeft, code: Some(0x38) })
    );
    // Unchanged flags: a duplicate notification produces zero events.
    assert_eq!(listen.handle(RawEvent::FlagsChanged { flags: 0x20000, key: shift }), None);
    // Back to zero: exactly one key-up.
    assert_eq!(
        listen.handle(RawEvent::FlagsChanged { flags: 0x00000, key: shift }),
        Some(Event::KeyUp { key: Key::ShiftLeft, code: Some(0x38) })
    );
    assert_eq!(log.borrow().len(), 2);
}

#[test]
fn test_listen_mouse_move_to_interception_logic() {
    // Absolute-motion reports are consumed without producing an event: only
    // relative deltas are observed.
    let (mut listen, log) = recording_listener();
    assert!(listen.handle_mouse_move(true, 100, 200));
    assert!(log.borrow().is_empty());

    // A relative report of the same shape is delivered.
    assert!(listen.handle_mouse_move(false, 100, 200));
    assert_eq!(log.borrow().as_slice(), &[Event::MouseMove { delta: Point { x: 100, y: 200 } }]);

    // A zero relative delta is consumed but dropped.
    assert!(listen.handle_mouse_move(false, 0, 0));
    assert_eq!(log.borrow().len(), 1);

    // With the motion category off the report is not consumed.
    listen.mouse_move(false);
    assert!(!listen.handle_mouse_move(false, 1, 1));
}

#[test]
fn test_listen_stop_clears_subscriptions_and_mask() {
    let (mut listen, log) = recording_listener();
    listen.stop();
    assert!(!listen.is_runing());
    assert_eq!(listen.handle(RawEvent::MouseMove { dx: 1, dy: 1 }), None);
    assert!(log.borrow().is_empty());
    // The id counter is reset: the next subscription starts at zero again.
    let h = listen.subscribe(Recorder { log: log.clone() });
    assert_eq!(h.id, 0);
}

#[test]
fn test_listen_start_is_idempotent_and_keeps_mask() {
    let mut listen: Listen<Recorder> = Listen::new();
    listen.start();
    listen.keyboard(false);
    // A second start while running must not reset the mask.
    listen.start();
    assert_eq!(listen.handle(RawEvent::Key { key: RawKey::WinVirtualKeycode(65), down: true }), None);
    assert!(listen.handle(RawEvent::MouseMove { dx: 1, dy: 1 }).is_some());
}
