use vki::serial::{Serial, SerialQueue};

#[test]
fn serial_queue_iter_up_to() {
    let mut queue = SerialQueue::new();
    queue.enqueue("0", Serial(0));
    queue.enqueue("1", Serial(1));
    queue.enqueue("2", Serial(2));
    queue.enqueue("3", Serial(3));
    queue.enqueue("4", Serial(4));

    let a: Vec<_> = queue.iter_up_to(Serial(2)).iter().map(|item| item.0).collect();

    assert_eq!(a, &["0", "1", "2"])
}

#[test]
fn serial_queue_drain_up_to() {
    let mut queue = SerialQueue::new();
    queue.enqueue("0", Serial(0));
    queue.enqueue("1", Serial(1));
    queue.enqueue("2", Serial(2));
    queue.enqueue("3", Serial(3));
    queue.enqueue("4", Serial(4));

    queue.drain_up_to(Serial(2)).len();

    let a: Vec<_> = queue.iter_up_to(Serial(4)).iter().map(|item| item.0).collect();

    assert_eq!(a, &["3", "4"])
}

#[test]
fn serial_queue_drain_range_keeps_the_rest() {
    let mut queue = SerialQueue::new();
    for i in 0..5u64 {
        queue.enqueue(i, Serial(i));
    }
    let drained: Vec<u64> = queue.drain(1, 3).iter().map(|e| e.0).collect();
    assert_eq!(drained, vec![1, 2]);
    let rest: Vec<u64> = queue.iter().iter().map(|e| e.0).collect();
    assert_eq!(rest, vec![0, 3, 4]);
    assert_eq!(queue.len(), 3);
    assert!(!queue.is_empty());
    assert_eq!(queue.first().map(|e| e.0), Some(0));
}

#[test]
fn serial_next_and_increment() {
    let mut s = Serial::zero();
    assert_eq!(s.next(), Serial::one());
    assert_eq!(s.increment(), Serial(1));
    assert_eq!(s.get(), 1);
}
