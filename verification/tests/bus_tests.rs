use ingest::bus::{EventBus, RecvOutcome};
use ingest::event::{event_from_fields, NormalizedEvent};

fn event(tag: i64) -> NormalizedEvent {
    let payload: serde_json::Value = serde_json::from_str("{}").unwrap();
    event_from_fields("binance", Some(format!("sym{}", tag)), Some(tag), 0, payload)
}

fn expect_event(outcome: RecvOutcome) -> NormalizedEvent {
    match outcome {
        RecvOutcome::Event(e) => e,
        _ => panic!("expected an event"),
    }
}

#[test]
fn queue_roundtrip() {
    let mut bus = EventBus::new(1);
    let mut consumer = bus.subscribe();
    let payload: serde_json::Value = serde_json::from_str("{\"k\":[1,2]}").unwrap();
    bus.publish(event_from_fields("x", Some("y".to_string()), Some(1), 0, payload));
    let got = expect_event(consumer.recv(&bus));
    assert_eq!(got.timestamp_ms, 1);
    assert_eq!(got.venue, "x");
    assert_eq!(got.symbol, "Y");
    let expected: serde_json::Value = serde_json::from_str("{\"k\":[1,2]}").unwrap();
    assert_eq!(got.payload, expected);
}

#[test]
fn subscriber_receives_all_events_in_order() {
    let mut bus = EventBus::new(8);
    let mut consumer = bus.subscribe();
    for i in 0..5 {
        bus.publish(event(i));
    }
    for i in 0..5 {
        let e = expect_event(consumer.recv(&bus));
        assert_eq!(e.timestamp_ms, i);
        assert_eq!(e.venue, "binance");
    }
    assert!(matches!(consumer.recv(&bus), RecvOutcome::Empty));
}

#[test]
fn two_subscribers_each_get_a_full_copy() {
    let mut bus = EventBus::new(8);
    let mut a = bus.subscribe();
    let mut b = bus.subscribe();
    for i in 0..4 {
        bus.publish(event(i));
    }
    for i in 0..4 {
        assert_eq!(expect_event(a.recv(&bus)).timestamp_ms, i);
    }
    for i in 0..4 {
        assert_eq!(expect_event(b.recv(&bus)).timestamp_ms, i);
    }
    assert!(matches!(a.recv(&bus), RecvOutcome::Empty));
    assert!(matches!(b.recv(&bus), RecvOutcome::Empty));
}

#[test]
fn lagging_subscriber_observes_gap_and_resumes() {
    let mut bus = EventBus::new(2);
    let mut consumer = bus.subscribe();
    for i in 0..5 {
        bus.publish(event(i));
    }
    match consumer.recv(&bus) {
        RecvOutcome::Lagged(gap) => assert_eq!(gap, 3),
        _ => panic!("expected a lag report"),
    }
    assert_eq!(expect_event(consumer.recv(&bus)).timestamp_ms, 3);
    assert_eq!(expect_event(consumer.recv(&bus)).timestamp_ms, 4);
    assert!(matches!(consumer.recv(&bus), RecvOutcome::Empty));
}

#[test]
fn publish_with_no_subscribers_discards() {
    let mut bus = EventBus::new(2);
    for i in 0..10 {
        bus.publish(event(i));
    }
    assert_eq!(bus.published_count(), 10);
    let mut late = bus.subscribe();
    assert!(matches!(late.recv(&bus), RecvOutcome::Empty));
}

#[test]
fn subscriber_only_sees_events_after_subscribing() {
    let mut bus = EventBus::new(8);
    bus.publish(event(0));
    let mut consumer = bus.subscribe();
    bus.publish(event(1));
    assert_eq!(expect_event(consumer.recv(&bus)).timestamp_ms, 1);
    assert!(matches!(consumer.recv(&bus), RecvOutcome::Empty));
}

#[test]
fn error_messages_are_reachable() {
    let err = ingest::error::IngestError::Io("disk gone".to_string());
    assert_eq!(err.message(), "disk gone");
}
