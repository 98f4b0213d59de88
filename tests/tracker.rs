use nfs_mamont::buffers::{ResponseBuffer, WriteCounter};
use nfs_mamont::tracker::TransactionTracker;

#[test]
fn first_sight_is_new_second_is_retransmission() {
    let mut t = TransactionTracker::new(60_000);
    assert!(!t.is_retransmission(1, b"10.0.0.1:1000", 0));
    assert!(t.is_retransmission(1, b"10.0.0.1:1000", 10));
    assert!(!t.is_retransmission(2, b"10.0.0.1:1000", 10));
    assert!(!t.is_retransmission(1, b"10.0.0.2:1000", 10));
}

#[test]
fn in_progress_records_are_never_evicted() {
    let mut t = TransactionTracker::new(1_000);
    assert!(!t.is_retransmission(5, b"a", 0));
    assert!(t.is_retransmission(5, b"a", 1_000_000));
}

#[test]
fn completed_records_expire_after_retention() {
    let mut t = TransactionTracker::new(1_000);
    assert!(!t.is_retransmission(5, b"a", 0));
    t.mark_processed(5, b"a", 100);
    // kept while the completion is within the window, cutoff inclusive
    assert!(t.is_retransmission(5, b"a", 1_100));
    // evicted once it is older than the window
    assert!(!t.is_retransmission(5, b"a", 1_101));
}

#[test]
fn marking_an_unknown_pair_records_nothing() {
    let mut t = TransactionTracker::new(1_000);
    t.mark_processed(9, b"b", 5);
    assert!(!t.is_retransmission(9, b"b", 6));
}

#[test]
fn housekeeping_keeps_recent_records() {
    let mut t = TransactionTracker::new(50);
    assert!(!t.is_retransmission(1, b"x", 0));
    assert!(!t.is_retransmission(2, b"x", 0));
    t.mark_processed(1, b"x", 10);
    t.mark_processed(2, b"x", 40);
    t.housekeeping(80);
    assert!(!t.is_retransmission(1, b"x", 80));
    assert!(t.is_retransmission(2, b"x", 80));
}

#[test]
fn response_buffer_lifecycle() {
    let mut b = ResponseBuffer::with_capacity(16);
    assert!(!b.has_content());
    b.extend(&[1, 2, 3]);
    b.mark_has_content();
    assert!(b.has_content());
    b.clear();
    assert!(!b.has_content());
    b.extend(&[4]);
    assert_eq!(b.into_inner(), vec![4]);
}

#[test]
fn write_counter_counts_what_passes() {
    let mut w = WriteCounter::new(vec![9, 9]);
    assert_eq!(w.bytes_written(), 0);
    w.write(&[1, 2, 3]);
    w.write(&[]);
    w.write(&[4]);
    assert_eq!(w.bytes_written(), 4);
    assert_eq!(w.into_inner(), vec![9, 9, 1, 2, 3, 4]);
}
