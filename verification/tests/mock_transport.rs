use cardinal::message::DDSMessage;
use cardinal::mock::{MockDDSSystem, MOCK_CAPACITY};
use cardinal::DdsError;

fn msg(content: &str) -> DDSMessage {
    DDSMessage::with_timestamp(content.to_string(), 1_700_000_000)
}

#[test]
fn publish_then_receive_round_trips_in_fifo_order() {
    let mut sys = MockDDSSystem::new();
    sys.publish(&msg("A")).unwrap();
    sys.publish(&msg("B")).unwrap();
    sys.publish(&msg("C")).unwrap();
    assert_eq!(sys.receive().unwrap().content, "A");
    assert_eq!(sys.receive().unwrap().content, "B");
    assert_eq!(sys.receive().unwrap().content, "C");
    assert!(sys.receive().is_none());
}

#[test]
fn receive_on_empty_is_idempotent() {
    let mut sys = MockDDSSystem::new();
    assert!(sys.receive().is_none());
    assert!(sys.receive().is_none());
    assert!(sys.receive().is_none());
    assert_eq!(sys.len(), 0);
}

#[test]
fn receive_consumes_each_entry_exactly_once() {
    let mut sys = MockDDSSystem::new();
    sys.publish(&msg("same")).unwrap();
    sys.publish(&msg("same")).unwrap();
    assert_eq!(sys.len(), 2);
    assert_eq!(sys.receive().unwrap().content, "same");
    assert_eq!(sys.len(), 1);
    assert_eq!(sys.receive().unwrap().content, "same");
    assert_eq!(sys.len(), 0);
    assert!(sys.receive().is_none());
}

#[test]
fn ring_buffer_never_exceeds_capacity_and_evicts_oldest() {
    let mut sys = MockDDSSystem::new();
    for i in 0..(MOCK_CAPACITY + 1) {
        sys.publish(&msg(&format!("m{}", i))).unwrap();
        assert!(sys.len() <= MOCK_CAPACITY);
    }
    assert_eq!(sys.len(), MOCK_CAPACITY);
    // the single oldest entry, m0, was evicted
    assert_eq!(sys.receive().unwrap().content, "m1");
}

#[test]
fn publish_preserves_timestamp() {
    let mut sys = MockDDSSystem::new();
    sys.publish(&DDSMessage::with_timestamp("t".to_string(), 42)).unwrap();
    let got = sys.receive().unwrap();
    assert_eq!(got.content, "t");
    assert_eq!(got.timestamp, 42);
}

#[test]
fn invalid_content_is_rejected_and_buffer_unchanged() {
    let mut sys = MockDDSSystem::new();
    sys.publish(&msg("ok")).unwrap();
    let too_long = "y".repeat(256);
    assert_eq!(sys.publish(&msg(&too_long)), Err(DdsError::Serialization));
    assert_eq!(sys.publish(&msg("with\0zero")), Err(DdsError::Serialization));
    assert_eq!(sys.len(), 1);
    assert_eq!(sys.receive().unwrap().content, "ok");
}

#[test]
fn boundary_255_bytes_publishes_and_round_trips() {
    let mut sys = MockDDSSystem::new();
    let content = "z".repeat(255);
    sys.publish(&msg(&content)).unwrap();
    assert_eq!(sys.receive().unwrap().content, content);
}
