use msgpacknet::queue::{Queue, Step};

fn ready<R>(s: Step<R>) -> R {
    match s {
        Step::Ready(r) => r,
        Step::Wait => panic!("expected a result, the reader would wait"),
    }
}

#[test]
fn queue_fifo_order() {
    let mut q: Queue<u32> = Queue::new();
    assert!(q.put(1));
    assert!(q.put(2));
    assert!(q.put(3));
    assert_eq!(ready(q.get()), Some(1));
    assert_eq!(ready(q.get()), Some(2));
    assert_eq!(ready(q.get()), Some(3));
    assert!(matches!(q.get(), Step::Wait));
}

#[test]
fn queue_empty_open_waits() {
    let mut q: Queue<u32> = Queue::new();
    assert!(matches!(q.get(), Step::Wait));
    assert!(matches!(q.get_timeout(false), Step::Wait));
    assert!(q.put(7));
    assert_eq!(ready(q.get()), Some(7));
}

#[test]
fn queue_close_keeps_items_and_refuses_new_ones() {
    let mut q: Queue<u32> = Queue::new();
    assert!(q.put(1));
    q.close();
    assert!(!q.put(2));
    assert_eq!(ready(q.get()), Some(1));
    assert_eq!(ready(q.get()), None);
    assert_eq!(ready(q.get()), None);
}

#[test]
fn queue_get_timeout_results() {
    let mut q: Queue<u32> = Queue::new();
    assert!(q.put(5));
    // a reader whose wait timed out gives up, even with an item queued
    assert_eq!(ready(q.get_timeout(true)), None);
    assert_eq!(ready(q.get_timeout(false)), Some(Some(5)));
    q.close();
    assert_eq!(ready(q.get_timeout(false)), Some(None));
}
