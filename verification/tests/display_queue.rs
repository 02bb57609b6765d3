use cardinal::display::{DisplayQueue, DISPLAY_CAPACITY};
use cardinal::message::DDSMessage;

fn msg(content: &str) -> DDSMessage {
    DDSMessage::with_timestamp(content.to_string(), 1_700_000_000)
}

#[test]
fn queue_never_exceeds_capacity_and_evicts_oldest() {
    let mut q = DisplayQueue::new();
    for i in 0..(DISPLAY_CAPACITY + 1) {
        q.push(msg(&format!("m{}", i)));
        assert!(q.len() <= DISPLAY_CAPACITY);
    }
    assert_eq!(q.len(), DISPLAY_CAPACITY);
    let snap = q.snapshot();
    // the single oldest entry, m0, was evicted; the rest kept their order
    assert_eq!(snap[0].content, "m1");
    assert_eq!(snap[DISPLAY_CAPACITY - 1].content, format!("m{}", DISPLAY_CAPACITY));
}

#[test]
fn snapshot_is_ordered_oldest_first() {
    let mut q = DisplayQueue::new();
    q.push(msg("first"));
    q.push(msg("second"));
    q.push(msg("third"));
    let snap = q.snapshot();
    assert_eq!(snap.len(), 3);
    assert_eq!(snap[0].content, "first");
    assert_eq!(snap[1].content, "second");
    assert_eq!(snap[2].content, "third");
}

#[test]
fn snapshot_of_empty_queue_is_empty() {
    let q = DisplayQueue::new();
    assert_eq!(q.len(), 0);
    assert!(q.snapshot().is_empty());
}

#[test]
fn change_stamp_counts_pushes() {
    let mut q = DisplayQueue::new();
    assert_eq!(q.change_stamp(), 0);
    q.push(msg("one"));
    assert_eq!(q.change_stamp(), 1);
    q.push(msg("two"));
    assert_eq!(q.change_stamp(), 2);
    // reading the queue does not count as a change
    let _ = q.snapshot();
    let _ = q.len();
    assert_eq!(q.change_stamp(), 2);
}

#[test]
fn snapshot_leaves_queue_unchanged() {
    let mut q = DisplayQueue::new();
    q.push(msg("keep"));
    let _ = q.snapshot();
    assert_eq!(q.len(), 1);
    assert_eq!(q.snapshot()[0].content, "keep");
}
