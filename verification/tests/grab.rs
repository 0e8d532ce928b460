use std::cell::RefCell;
use std::rc::Rc;

use raw_input::{
    process_event, Core, Event, EventCallback, Grab, HookAction, HookKind, Listen, NativeHook,
    RawEvent, RawKey, WheelUnit,
};

struct Recorder {
    log: Rc<RefCell<Vec<Event>>>,
}

impl EventCallback for Recorder {
    fn invoke(&self, event: Event) {
        self.log.borrow_mut().push(event);
    }
}

struct NopHook;

impl NativeHook for NopHook {
    fn install(&mut self, _kind: HookKind) -> Result<(), String> {
        Ok(())
    }
    fn uninstall(&mut self, _kind: HookKind) {}
}

fn running_setup() -> (Core, Listen<Recorder>, Grab, Rc<RefCell<Vec<Event>>>) {
    let mut core = Core::new();
    let mut hook = NopHook;
    core.start(&mut hook).expect("start");
    let log: Rc<RefCell<Vec<Event>>> = Rc::new(RefCell::new(Vec::new()));
    let mut listen: Listen<Recorder> = Listen::new();
    let _handle = listen.subscribe(Recorder { log: log.clone() });
    listen.start();
    let mut grab = Grab::new();
    grab.start();
    (core, listen, grab, log)
}

#[test]
fn test_grab_blocks_nothing_when_stopped() {
    let grab = Grab::new();
    assert!(!grab.should_block(&RawEvent::MouseMove { dx: 1, dy: 1 }));
    assert!(!grab.should_block(&RawEvent::Key { key: RawKey::WinVirtualKeycode(65), down: true }));
}

#[test]
fn test_grab_category_decisions() {
    let mut grab = Grab::new();
    grab.start();
    assert!(grab.should_block(&RawEvent::MouseMove { dx: 1, dy: 1 }));
    assert!(grab.should_block(&RawEvent::MouseButton { index: 0, down: true }));
    assert!(grab.should_block(&RawEvent::MouseWheel { dx: 0, dy: 120, unit: WheelUnit::Tick }));
    assert!(grab.should_block(&RawEvent::Key { key: RawKey::WinVirtualKeycode(65), down: true }));
    assert!(grab.should_block(&RawEvent::FlagsChanged {
        flags: 0x20000,
        key: RawKey::MacVirtualKeycode(0x38)
    }));

    // Clearing one category leaves the others blocked.
    grab.keyboard(false);
    assert!(!grab.should_block(&RawEvent::Key { key: RawKey::WinVirtualKeycode(65), down: true }));
    assert!(grab.should_block(&RawEvent::MouseMove { dx: 1, dy: 1 }));

    // While paused, no blocking occurs regardless of the mask contents.
    grab.pause();
    assert!(!grab.should_block(&RawEvent::MouseMove { dx: 1, dy: 1 }));
    grab.resume();
    assert!(grab.should_block(&RawEvent::MouseMove { dx: 1, dy: 1 }));

    // Stop clears the mask: resuming afterwards blocks nothing.
    grab.stop();
    grab.resume();
    assert!(!grab.should_block(&RawEvent::MouseMove { dx: 1, dy: 1 }));
}

#[test]
fn test_grab_simulate_move_interception() {
    // A pointer motion reaching the hook while the interceptor blocks the
    // motion category is consumed, and the cursor is warped back once.
    let (core, mut listen, grab, _log) = running_setup();
    let action = process_event(&core, &mut listen, &grab, RawEvent::MouseMove { dx: 100, dy: 200 });
    assert_eq!(action, HookAction::Block { warp: true });
}

#[test]
fn test_grab_mouse_button_interception_block_without_warp() {
    // A blocked non-motion event is consumed without a cursor warp.
    let (core, mut listen, grab, _log) = running_setup();
    let action =
        process_event(&core, &mut listen, &grab, RawEvent::MouseButton { index: 0, down: true });
    assert_eq!(action, HookAction::Block { warp: false });
}

#[test]
fn test_listener_and_interceptor_are_independent() {
    // Blocking the mouse-button category in the interceptor does not prevent
    // the listener from normalizing and dispatching mouse-button events.
    let (core, mut listen, mut grab, log) = running_setup();
    grab.mouse_move(false);
    grab.mouse_wheel(false);
    grab.keyboard(false);

    let raw = RawEvent::MouseButton { index: 0, down: true };
    let action = process_event(&core, &mut listen, &grab, raw);
    assert_eq!(action, HookAction::Block { warp: false });
    assert_eq!(
        log.borrow().as_slice(),
        &[Event::MouseDown { button: raw_input::MouseButton::Left }],
        "the listener must observe the event the interceptor blocks"
    );

    // Conversely, pausing the listener does not change the blocking decision.
    listen.pause();
    let action = process_event(&core, &mut listen, &grab, raw);
    assert_eq!(action, HookAction::Block { warp: false });
    assert_eq!(log.borrow().len(), 1);
}

#[test]
fn test_paused_capture_gates_listener_and_interceptor() {
    // While the capture engine is paused, raw events are dropped before the
    // listener or the interceptor sees them: nothing is dispatched, nothing
    // is blocked.
    let (mut core, mut listen, grab, log) = running_setup();
    core.pause();
    let action = process_event(&core, &mut listen, &grab, RawEvent::MouseMove { dx: 5, dy: 5 });
    assert_eq!(action, HookAction::Forward);
    assert!(log.borrow().is_empty());

    core.resume();
    let action = process_event(&core, &mut listen, &grab, RawEvent::MouseMove { dx: 5, dy: 5 });
    assert_eq!(action, HookAction::Block { warp: true });
    assert_eq!(log.borrow().len(), 1);
}

#[test]
fn test_forward_when_grab_passes() {
    let (core, mut listen, mut grab, log) = running_setup();
    grab.stop();
    let action = process_event(&core, &mut listen, &grab, RawEvent::MouseMove { dx: 7, dy: 0 });
    assert_eq!(action, HookAction::Forward);
    // The listener still observed and dispatched it.
    assert_eq!(log.borrow().len(), 1);
}
