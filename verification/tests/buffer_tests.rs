use sematext2psql::buffer::Buffer;
use sematext2psql::record::LogRecord;
use sematext2psql::timestamp::Timestamp;

fn record(tag: &str) -> LogRecord {
    LogRecord {
        pod_name: format!("pod-{}", tag),
        message: format!("msg-{}", tag),
        created_at: Timestamp { secs: 1666353600, nanos: 0 },
    }
}

#[test]
fn writes_below_capacity_hand_nothing_out() {
    let mut buf = Buffer::new(3);
    assert!(buf.write(record("a")).is_none());
    assert!(buf.write(record("b")).is_none());
    assert_eq!(buf.len(), 2);
}

#[test]
fn the_write_reaching_capacity_hands_the_batch_out_in_order() {
    let mut buf = Buffer::new(3);
    assert!(buf.write(record("a")).is_none());
    assert!(buf.write(record("b")).is_none());
    let batch = buf.write(record("c")).unwrap();
    assert_eq!(batch.len(), 3);
    assert_eq!(batch[0].pod_name, "pod-a");
    assert_eq!(batch[1].pod_name, "pod-b");
    assert_eq!(batch[2].pod_name, "pod-c");
    assert_eq!(buf.len(), 0);
}

#[test]
fn five_writes_at_capacity_two_flush_twice() {
    // floor(5 / 2) = 2 automatic flushes, 5 mod 2 = 1 record left over.
    let mut buf = Buffer::new(2);
    let mut batches: usize = 0;
    for tag in ["a", "b", "c", "d", "e"] {
        if buf.write(record(tag)).is_some() {
            batches += 1;
        }
    }
    assert_eq!(batches, 2);
    assert_eq!(buf.len(), 1);
    let rest = buf.drain();
    assert_eq!(rest.len(), 1);
    assert_eq!(rest[0].pod_name, "pod-e");
    assert_eq!(buf.len(), 0);
}

#[test]
fn a_multiple_of_the_capacity_leaves_nothing_behind() {
    let mut buf = Buffer::new(2);
    let mut batches: usize = 0;
    for tag in ["a", "b", "c", "d"] {
        if buf.write(record(tag)).is_some() {
            batches += 1;
        }
    }
    assert_eq!(batches, 2);
    assert_eq!(buf.len(), 0);
    assert_eq!(buf.drain().len(), 0);
}

#[test]
fn capacity_one_flushes_every_write() {
    let mut buf = Buffer::new(1);
    let batch = buf.write(record("solo")).unwrap();
    assert_eq!(batch.len(), 1);
    assert_eq!(buf.len(), 0);
}

#[test]
fn draining_an_empty_buffer_yields_an_empty_batch() {
    let mut buf = Buffer::new(4);
    assert_eq!(buf.drain().len(), 0);
}
