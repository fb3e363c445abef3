//! Tests of the in-flight queue's first-in-first-out behaviour.
use api_client::queue::InFlightQueue;

#[test]
fn drains_in_insertion_order() {
    let mut q: InFlightQueue<u32> = InFlightQueue::new();
    assert!(q.is_empty());
    q.push_back(1);
    q.push_back(2);
    q.push_back(3);
    assert_eq!(q.len(), 3);
    assert_eq!(q.pop_front(), Some(1));
    assert_eq!(q.pop_front(), Some(2));
    assert_eq!(q.pop_front(), Some(3));
    assert_eq!(q.pop_front(), None);
    assert!(q.is_empty());
}

#[test]
fn push_front_undoes_pop_front() {
    let mut q: InFlightQueue<u32> = InFlightQueue::new();
    q.push_back(10);
    q.push_back(20);
    let head = q.pop_front().unwrap();
    q.push_front(head);
    assert_eq!(q.len(), 2);
    assert_eq!(q.pop_front(), Some(10));
    assert_eq!(q.pop_front(), Some(20));
}

#[test]
fn interleaved_pushes_keep_issue_order() {
    let mut q: InFlightQueue<u32> = InFlightQueue::new();
    q.push_back(1);
    assert_eq!(q.pop_front(), Some(1));
    q.push_back(2);
    q.push_back(3);
    assert_eq!(q.pop_front(), Some(2));
    q.push_back(4);
    assert_eq!(q.pop_front(), Some(3));
    assert_eq!(q.pop_front(), Some(4));
    assert!(q.is_empty());
}
