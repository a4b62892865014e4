use async_cond::{Condition, ProtocolViolation};
use std::sync::atomic::{AtomicUsize, Ordering};
use std::sync::Arc;
use std::task::{Poll, Wake, Waker};

/// Counts how often it is woken.
struct Counter(AtomicUsize);

impl Wake for Counter {
    fn wake(self: Arc<Self>) {
        self.0.fetch_add(1, Ordering::SeqCst);
    }
}

fn counter() -> (Arc<Counter>, Waker) {
    let c = Arc::new(Counter(AtomicUsize::new(0)));
    (c.clone(), Waker::from(c))
}

fn wakes(c: &Arc<Counter>) -> usize {
    c.0.load(Ordering::SeqCst)
}

#[test]
fn fresh_condition_reports_pending() {
    let (seen, waker) = counter();
    let mut c = Condition::<i32>::new();
    assert_eq!(c.poll(waker), Poll::Pending);
    assert_eq!(wakes(&seen), 0);
}

#[test]
fn delivered_value_is_returned_once() {
    let (_, first) = counter();
    let (_, second) = counter();
    let mut c = Condition::new();
    assert_eq!(c.ready(5), Ok(()));
    assert_eq!(c.poll(first), Poll::Ready(5));
    assert_eq!(c.poll(second), Poll::Pending);
}

#[test]
fn delivery_before_poll_wakes_nobody() {
    let (seen, waker) = counter();
    let mut c = Condition::new();
    assert_eq!(c.ready(String::from("done")), Ok(()));
    assert_eq!(c.poll(waker), Poll::Ready(String::from("done")));
    assert_eq!(wakes(&seen), 0);
}

#[test]
fn delivery_wakes_the_registered_handle() {
    let (seen, waker) = counter();
    let (_, next) = counter();
    let mut c = Condition::new();
    assert_eq!(c.poll(waker), Poll::Pending);
    assert_eq!(wakes(&seen), 0);
    assert_eq!(c.ready(9u8), Ok(()));
    assert_eq!(wakes(&seen), 1);
    assert_eq!(c.poll(next), Poll::Ready(9u8));
    assert_eq!(wakes(&seen), 1);
}

#[test]
fn later_poll_replaces_the_registered_handle() {
    let (old_seen, old_waker) = counter();
    let (new_seen, new_waker) = counter();
    let mut c = Condition::new();
    assert_eq!(c.poll(old_waker), Poll::Pending);
    assert_eq!(c.poll(new_waker), Poll::Pending);
    assert_eq!(c.ready(1), Ok(()));
    assert_eq!(wakes(&old_seen), 0);
    assert_eq!(wakes(&new_seen), 1);
}

#[test]
fn second_delivery_is_a_protocol_violation() {
    let (_, waker) = counter();
    let mut c = Condition::new();
    assert_eq!(c.ready(1), Ok(()));
    assert_eq!(c.ready(2), Err(ProtocolViolation));
    assert_eq!(c.poll(waker), Poll::Ready(1));
}

#[test]
fn refused_delivery_wakes_nobody() {
    let (seen, waker) = counter();
    let mut c = Condition::new();
    assert_eq!(c.poll(waker), Poll::Pending);
    assert_eq!(c.ready(1), Ok(()));
    assert_eq!(c.ready(2), Err(ProtocolViolation));
    assert_eq!(wakes(&seen), 1);
}

#[test]
fn delivery_after_the_value_was_taken_is_accepted() {
    let (_, first) = counter();
    let (_, second) = counter();
    let mut c = Condition::new();
    assert_eq!(c.ready(1), Ok(()));
    assert_eq!(c.poll(first), Poll::Ready(1));
    assert_eq!(c.ready(2), Ok(()));
    assert_eq!(c.poll(second), Poll::Ready(2));
}

#[test]
fn store_hands_out_the_registered_handle() {
    let (seen, waker) = counter();
    let mut c = Condition::new();
    assert_eq!(c.poll(waker), Poll::Pending);
    let handle = c.store(4).unwrap().unwrap();
    assert_eq!(wakes(&seen), 0);
    handle.wake();
    assert_eq!(wakes(&seen), 1);
}

#[test]
fn store_without_a_waiting_task_hands_out_nothing() {
    let mut c = Condition::new();
    assert!(matches!(c.store(4), Ok(None)));
    assert!(matches!(c.store(5), Err(ProtocolViolation)));
}

#[test]
fn protocol_violation_says_what_went_wrong() {
    assert_eq!(ProtocolViolation.message(), "call ready function twice");
}
