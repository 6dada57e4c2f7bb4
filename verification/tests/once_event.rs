use folo::once_event::OnceEvent;
use futures::task::noop_waker_ref;
use std::task::Poll;

#[test]
fn get_after_set_ref() {
    let mut storage = OnceEvent::new_slab_storage();
    let (sender, mut receiver) = OnceEvent::new_in_ref(&mut storage);

    sender.set(&mut storage, 42);

    let result = receiver.poll(&mut storage, noop_waker_ref());
    assert_eq!(result, Poll::Ready(42));
}

#[test]
fn get_before_set_ref() {
    let mut storage = OnceEvent::new_slab_storage();
    let (sender, mut receiver) = OnceEvent::new_in_ref(&mut storage);

    let result = receiver.poll(&mut storage, noop_waker_ref());
    assert_eq!(result, Poll::Pending);

    sender.set(&mut storage, 42);

    let result = receiver.poll(&mut storage, noop_waker_ref());
    assert_eq!(result, Poll::Ready(42));
}

#[test]
fn get_after_set_rc() {
    let mut storage = OnceEvent::new_slab_storage();
    let (sender, mut receiver) = OnceEvent::new_in_rc(&mut storage);

    sender.set(&mut storage, 42);

    let result = receiver.poll(&mut storage, noop_waker_ref());
    assert_eq!(result, Poll::Ready(42));
}

#[test]
fn get_before_set_rc() {
    let mut storage = OnceEvent::new_slab_storage();
    let (sender, mut receiver) = OnceEvent::new_in_rc(&mut storage);

    let result = receiver.poll(&mut storage, noop_waker_ref());
    assert_eq!(result, Poll::Pending);

    sender.set(&mut storage, 42);

    let result = receiver.poll(&mut storage, noop_waker_ref());
    assert_eq!(result, Poll::Ready(42));
}

#[test]
fn get_after_set_unsafe() {
    let mut storage = OnceEvent::new_slab_storage();
    let (sender, mut receiver) = OnceEvent::new_in_unsafe(&mut storage);

    sender.set(&mut storage, 42);

    let result = receiver.poll(&mut storage, noop_waker_ref());
    assert_eq!(result, Poll::Ready(42));
}

#[test]
fn get_before_set_unsafe() {
    let mut storage = OnceEvent::new_slab_storage();
    let (sender, mut receiver) = OnceEvent::new_in_unsafe(&mut storage);

    let result = receiver.poll(&mut storage, noop_waker_ref());
    assert_eq!(result, Poll::Pending);

    sender.set(&mut storage, 42);

    let result = receiver.poll(&mut storage, noop_waker_ref());
    assert_eq!(result, Poll::Ready(42));
}

#[test]
fn get_after_set_embedded() {
    let mut storage = OnceEvent::new_embedded_storage();
    let (sender, mut receiver) = OnceEvent::new_embedded(&mut storage);

    sender.set(&mut storage, 42);

    let result = receiver.poll(&mut storage, noop_waker_ref());
    assert_eq!(result, Poll::Ready(42));
}

#[test]
fn get_before_set_embedded() {
    let mut storage = OnceEvent::new_embedded_storage();
    let (sender, mut receiver) = OnceEvent::new_embedded(&mut storage);

    let result = receiver.poll(&mut storage, noop_waker_ref());
    assert_eq!(result, Poll::Pending);

    sender.set(&mut storage, 42);

    let result = receiver.poll(&mut storage, noop_waker_ref());
    assert_eq!(result, Poll::Ready(42));
}

#[test]
fn set_before_poll_and_poll_before_set_embedded() {
    let mut early = OnceEvent::new_embedded_storage();
    let mut late = OnceEvent::new_embedded_storage();
    assert!(early.is_inert());
    assert!(late.is_inert());

    let (early_sender, mut early_receiver) = OnceEvent::new_embedded(&mut early);
    let (late_sender, mut late_receiver) = OnceEvent::new_embedded(&mut late);
    assert_eq!(early.ref_count(), 2);
    assert_eq!(late.ref_count(), 2);

    early_sender.set(&mut early, 42);
    assert_eq!(early.ref_count(), 1);
    assert_eq!(late_receiver.poll(&mut late, noop_waker_ref()), Poll::Pending);
    late_sender.set(&mut late, 7);

    assert_eq!(early_receiver.poll(&mut early, noop_waker_ref()), Poll::Ready(42));
    assert_eq!(late_receiver.poll(&mut late, noop_waker_ref()), Poll::Ready(7));
    assert!(!early.is_inert());

    early_receiver.release(&mut early);
    late_receiver.release(&mut late);
    assert!(early.is_inert());
    assert!(late.is_inert());
    assert_eq!(early.ref_count(), 0);
    assert_eq!(late.ref_count(), 0);
}

#[test]
fn embedded_storage_takes_a_new_event_once_inert() {
    let mut storage = OnceEvent::new_embedded_storage();
    let (sender, mut receiver) = OnceEvent::new_embedded(&mut storage);
    sender.set(&mut storage, 1);
    assert_eq!(receiver.poll(&mut storage, noop_waker_ref()), Poll::Ready(1));
    receiver.release(&mut storage);
    assert!(storage.is_inert());

    let (sender, mut receiver) = OnceEvent::new_embedded(&mut storage);
    assert_eq!(storage.ref_count(), 2);
    assert_eq!(receiver.poll(&mut storage, noop_waker_ref()), Poll::Pending);
    sender.set(&mut storage, 2);
    assert_eq!(receiver.poll(&mut storage, noop_waker_ref()), Poll::Ready(2));
}
