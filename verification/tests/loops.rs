use cardinal::display::DisplayQueue;
use cardinal::message::DDSMessage;
use cardinal::mock::MockDDSSystem;
use cardinal::pipeline::{producer_tick, record_publish_outcome, record_receive_outcome};

fn msg(content: &str) -> DDSMessage {
    DDSMessage::with_timestamp(content.to_string(), 1_700_000_000)
}

#[test]
fn producer_tick_advances_counter_and_labels_content() {
    let (next, message) = producer_tick(0, 0);
    assert_eq!(next, 1);
    assert_eq!(message.content, "Hello World #1");
}

#[test]
fn producer_content_renders_multi_digit_counters() {
    let (next, message) = producer_tick(41, 0);
    assert_eq!(next, 42);
    assert_eq!(message.content, "Hello World #42");

    let (_, message) = producer_tick(999, 0);
    assert_eq!(message.content, "Hello World #1000");

    let (_, message) = producer_tick(1_000_000, 0);
    assert_eq!(message.content, "Hello World #1000001");
}

#[test]
fn producer_messages_always_publish_on_the_mock() {
    let mut sys = MockDDSSystem::new();
    let mut counter: u64 = 0;
    let mut last_timestamp: i64 = 0;
    for _ in 0..5 {
        let (next, message) = producer_tick(counter, last_timestamp);
        counter = next;
        last_timestamp = message.timestamp;
        sys.publish(&message).unwrap();
    }
    assert_eq!(sys.len(), 5);
    assert_eq!(sys.receive().unwrap().content, "Hello World #1");
}

#[test]
fn producer_timestamps_never_decrease_within_a_run() {
    let mut counter: u64 = 0;
    let mut last_timestamp: i64 = 0;
    for _ in 0..5 {
        let (next, message) = producer_tick(counter, last_timestamp);
        counter = next;
        assert!(message.timestamp >= last_timestamp);
        last_timestamp = message.timestamp;
    }
}

#[test]
fn producer_timestamp_is_clamped_to_the_previous_stamp() {
    // a previous stamp far in the future: the clock reads earlier, so the
    // new message keeps the previous stamp rather than going backwards
    let future: i64 = 9_000_000_000_000;
    let (_, message) = producer_tick(0, future);
    assert_eq!(message.timestamp, future);
}

#[test]
fn successful_publish_reaches_the_display_queue() {
    let mut q = DisplayQueue::new();
    record_publish_outcome(&mut q, msg("sent"), true);
    assert_eq!(q.len(), 1);
    assert_eq!(q.snapshot()[0].content, "sent");
}

#[test]
fn failed_publish_is_dropped() {
    let mut q = DisplayQueue::new();
    record_publish_outcome(&mut q, msg("lost"), false);
    assert_eq!(q.len(), 0);
}

#[test]
fn received_message_reaches_the_display_queue() {
    let mut q = DisplayQueue::new();
    record_receive_outcome(&mut q, Some(msg("got")));
    assert_eq!(q.len(), 1);
    assert_eq!(q.snapshot()[0].content, "got");
}

#[test]
fn absent_message_changes_nothing() {
    let mut q = DisplayQueue::new();
    record_receive_outcome(&mut q, None);
    assert_eq!(q.len(), 0);
}
