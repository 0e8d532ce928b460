use std::cell::RefCell;
use std::rc::Rc;

use raw_input::{Event, EventCallback, MouseButton, Point, Registry};

/// Records every event it is invoked with into a shared log, under a label.
struct Recorder {
    label: u64,
    log: Rc<RefCell<Vec<(u64, Event)>>>,
}

impl EventCallback for Recorder {
    fn invoke(&self, event: Event) {
        self.log.borrow_mut().push((self.label, event));
    }
}

fn sample_event() -> Event {
    Event::MouseMove { delta: Point { x: 3, y: -4 } }
}

#[test]
fn test_dispatch_reaches_exactly_the_active_subscribers() {
    let log: Rc<RefCell<Vec<(u64, Event)>>> = Rc::new(RefCell::new(Vec::new()));
    let mut registry: Registry<Recorder> = Registry::new();

    let a = registry.subscribe(Recorder { label: 10, log: log.clone() });
    let b = registry.subscribe(Recorder { label: 20, log: log.clone() });
    let c = registry.subscribe(Recorder { label: 30, log: log.clone() });

    // All three are active at first.
    let invoked = registry.dispatch(sample_event());
    assert_eq!(invoked, vec![a.id, b.id, c.id]);
    assert_eq!(log.borrow().len(), 3);

    // A paused subscriber is skipped without removal.
    b.pause(&mut registry);
    let invoked = registry.dispatch(sample_event());
    assert_eq!(invoked, vec![a.id, c.id]);

    // Resuming brings it back.
    b.resume(&mut registry);
    let invoked = registry.dispatch(sample_event());
    assert_eq!(invoked, vec![a.id, b.id, c.id]);

    // A removed subscriber can never be reached again.
    a.unsubscribe(&mut registry);
    let invoked = registry.dispatch(sample_event());
    assert_eq!(invoked, vec![b.id, c.id]);

    let labels: Vec<u64> = log.borrow().iter().map(|(l, _)| *l).collect();
    assert_eq!(labels, vec![10, 20, 30, 10, 30, 10, 20, 30, 20, 30]);
}

#[test]
fn test_pause_of_stale_handle_changes_nothing() {
    let mut registry: Registry<Recorder> = Registry::new();
    let log: Rc<RefCell<Vec<(u64, Event)>>> = Rc::new(RefCell::new(Vec::new()));
    let a = registry.subscribe(Recorder { label: 1, log: log.clone() });
    let b = registry.subscribe(Recorder { label: 2, log: log.clone() });
    a.unsubscribe(&mut registry);

    // The stale handle's id no longer exists; pausing through it is a no-op.
    let stale = raw_input::SubscriptionHandle { id: 0 };
    stale.pause(&mut registry);
    let invoked = registry.dispatch(sample_event());
    assert_eq!(invoked, vec![b.id]);
}

#[test]
fn test_subscriber_ids_unique_and_monotonic() {
    let log: Rc<RefCell<Vec<(u64, Event)>>> = Rc::new(RefCell::new(Vec::new()));
    let mut registry: Registry<Recorder> = Registry::new();

    let h0 = registry.subscribe(Recorder { label: 0, log: log.clone() });
    let h1 = registry.subscribe(Recorder { label: 1, log: log.clone() });
    let h2 = registry.subscribe(Recorder { label: 2, log: log.clone() });
    assert_eq!((h0.id, h1.id, h2.id), (0, 1, 2));

    // Ids are not reused while subscribers live: removing one and adding a
    // new one continues the sequence.
    h1.unsubscribe(&mut registry);
    let h3 = registry.subscribe(Recorder { label: 3, log: log.clone() });
    assert_eq!(h3.id, 3);

    // remove_all resets the counter to zero.
    registry.remove_all();
    let h4 = registry.subscribe(Recorder { label: 4, log: log.clone() });
    assert_eq!(h4.id, 0);
    let invoked = registry.dispatch(sample_event());
    assert_eq!(invoked, vec![0]);
}

#[test]
fn test_dispatch_on_empty_registry_invokes_nobody() {
    let registry: Registry<Recorder> = Registry::new();
    let invoked = registry.dispatch(sample_event());
    assert!(invoked.is_empty());
}

#[test]
fn test_dispatch_passes_the_event_through() {
    let log: Rc<RefCell<Vec<(u64, Event)>>> = Rc::new(RefCell::new(Vec::new()));
    let mut registry: Registry<Recorder> = Registry::new();
    let _h = registry.subscribe(Recorder { label: 7, log: log.clone() });
    let event = Event::MouseDown { button: MouseButton::Back };
    registry.dispatch(event);
    assert_eq!(log.borrow().as_slice(), &[(7, event)]);
}
