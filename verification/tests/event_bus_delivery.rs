use std::sync::atomic::{AtomicUsize, Ordering};
use std::sync::{Arc, RwLock};

use concurrency_lab::event_bus::{EventBus, EventRecorder, Subscriber};

/// A handler that bumps a shared counter once per event.
struct CountingHandler {
    counter: Arc<AtomicUsize>,
}

impl Subscriber for CountingHandler {
    type Event = String;

    fn notify(&mut self, _event: &String) {
        self.counter.fetch_add(1, Ordering::SeqCst);
    }
}

/// A handler that bumps a shared counter once per integer event.
struct TallyHandler {
    counter: Arc<AtomicUsize>,
}

impl Subscriber for TallyHandler {
    type Event = i32;

    fn notify(&mut self, _event: &i32) {
        self.counter.fetch_add(1, Ordering::SeqCst);
    }
}

/// A handler that stores a copy of each event it receives.
struct StoringHandler {
    received: Arc<RwLock<Vec<String>>>,
}

impl Subscriber for StoringHandler {
    type Event = String;

    fn notify(&mut self, event: &String) {
        self.received.write().unwrap().push(event.clone());
    }
}

#[test]
fn test_basic_subscribe_publish() {
    let mut bus = EventBus::new();
    let counter = Arc::new(AtomicUsize::new(0));

    bus.subscribe(CountingHandler { counter: Arc::clone(&counter) });

    bus.publish(&"hello".to_string());
    bus.publish(&"world".to_string());

    assert_eq!(counter.load(Ordering::SeqCst), 2);
}

#[test]
fn test_multiple_handlers() {
    let mut bus = EventBus::new();
    let counter = Arc::new(AtomicUsize::new(0));

    // Subscribe 3 handlers
    for _ in 0..3 {
        bus.subscribe(TallyHandler { counter: Arc::clone(&counter) });
    }

    assert_eq!(bus.handler_count(), 3);

    // Publish 5 events
    for i in 0..5 {
        bus.publish(&i);
    }

    // 3 handlers × 5 events = 15 calls
    assert_eq!(counter.load(Ordering::SeqCst), 15);
}

#[test]
fn test_handler_receives_event_data() {
    let mut bus = EventBus::new();
    let received = Arc::new(RwLock::new(Vec::new()));

    bus.subscribe(StoringHandler { received: Arc::clone(&received) });

    bus.publish(&"first".to_string());
    bus.publish(&"second".to_string());

    let messages = received.read().unwrap();
    assert_eq!(messages.len(), 2);
    assert_eq!(messages[0], "first");
    assert_eq!(messages[1], "second");
}

#[test]
fn test_recorder_keeps_events_in_order() {
    let mut bus: EventBus<EventRecorder<i32>> = EventBus::default();
    bus.subscribe(EventRecorder::new());
    bus.subscribe(EventRecorder::new());

    for i in 0..4 {
        bus.publish(&i);
    }

    assert_eq!(bus.handler_count(), 2);
    for recorder in bus.handlers() {
        assert_eq!(recorder.count(), 4);
        assert_eq!(recorder.events(), &vec![0, 1, 2, 3]);
    }
}

#[test]
fn test_recorder_alone_observes_once_per_notify() {
    let mut recorder: EventRecorder<u8> = EventRecorder::new();
    assert_eq!(recorder.count(), 0);
    recorder.notify(&9);
    recorder.notify(&9);
    assert_eq!(recorder.count(), 2);
    assert_eq!(recorder.events(), &vec![9, 9]);
}
