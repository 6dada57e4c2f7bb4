use folo::buffer::PinnedBuffer;
use folo::buffer::MAX_IO_LEN;
use folo::error::Error;
use folo::error::OperationResult;
use folo::operation::completion_result;
use folo::operation::CompletionEntry;
use folo::operation::OperationStore;
use folo::operation::Overlapped;
use futures::task::noop_waker_ref;
use std::sync::Arc;
use std::sync::Mutex;
use std::task::Poll;
use std::task::Wake;
use std::task::Waker;

const PENDING: Error = Error::Winsock { code: -1, detail: 997 };

struct Rung {
    times: Mutex<usize>,
}

impl Wake for Rung {
    fn wake(self: Arc<Self>) {
        *self.times.lock().unwrap() += 1;
    }
}

fn ready(result: Poll<OperationResult>) -> OperationResult {
    match result {
        Poll::Ready(result) => result,
        Poll::Pending => panic!("the result is not there yet"),
    }
}

#[test]
fn new_store_is_empty() {
    let store = OperationStore::new();
    assert!(store.is_empty());
    assert_eq!(store.awaited_results(), 0);
}

#[test]
fn operation_completed_at_once_delivers_the_buffer() {
    let mut store = OperationStore::new();
    let operation = store.new_operation(PinnedBuffer::new(64));
    assert!(!store.is_empty());

    let outcome = operation.begin(&mut store, 0, |_buffer, _header, bytes| {
        *bytes = 64;
        Ok(())
    });

    let mut receiver = outcome.expect("the submission was not refused");
    assert!(store.is_empty());
    let buffer = ready(store.poll_result(&mut receiver, noop_waker_ref()))
        .expect("the operation succeeded");
    assert_eq!(buffer.len(), 64);
    assert_eq!(buffer.capacity(), 64);
    store.forget_result(receiver);
    assert!(store.is_empty());
    assert_eq!(store.awaited_results(), 0);
}

#[test]
fn operation_accepted_delivers_what_the_poller_reports() {
    let mut store = OperationStore::new();
    let operation = store.new_operation(PinnedBuffer::new(128));
    let key = operation.key();

    let outcome = operation.begin(&mut store, 0, |_buffer, _header, _bytes| Err(PENDING));
    let mut receiver = outcome.expect("the submission was not refused");
    assert!(!store.is_empty());
    assert!(store.poll_result(&mut receiver, noop_waker_ref()).is_pending());

    let entry = CompletionEntry { key, bytes_transferred: 40, status: 0 };
    assert!(store.can_complete(&entry));
    store.complete_operation(entry, 0);
    assert!(store.is_empty());

    let buffer = ready(store.poll_result(&mut receiver, noop_waker_ref()))
        .expect("the operation succeeded");
    assert_eq!(buffer.len(), 40);
    assert_eq!(buffer.capacity(), 128);
    assert_eq!(buffer.as_slice().len(), 40);
}

#[test]
fn operation_refused_hands_the_buffer_back_with_the_error() {
    let mut store = OperationStore::new();
    let operation = store.new_operation(PinnedBuffer::from_vec((0..32).collect()));
    let refusal = Error::Windows(-2147024891);

    let outcome = operation.begin(&mut store, 0, |_buffer, _header, _bytes| Err(refusal));

    let failure = outcome.err().expect("the submission was refused");
    assert_eq!(failure.error, refusal);
    assert_eq!(failure.buffer.len(), 32);
    assert_eq!(failure.buffer.capacity(), 32);
    let expected: Vec<u8> = (0..32).collect();
    assert_eq!(failure.buffer.as_slice(), &expected[..]);
    assert!(store.is_empty());
    assert_eq!(store.awaited_results(), 0);
}

#[test]
fn awaiter_that_gives_up_leaves_nothing_behind() {
    let mut store = OperationStore::new();
    let operation = store.new_operation(PinnedBuffer::new(16));
    let key = operation.key();
    let receiver = operation
        .begin(&mut store, 0, |_buffer, _header, _bytes| Err(PENDING))
        .expect("the submission was not refused");

    store.forget_result(receiver);
    assert!(!store.is_empty());
    assert_eq!(store.awaited_results(), 1);

    store.complete_operation(CompletionEntry { key, bytes_transferred: 16, status: 0 }, 0);
    assert!(store.is_empty());
    assert_eq!(store.awaited_results(), 0);
}

#[test]
fn completion_of_no_bytes_is_a_success() {
    let mut store = OperationStore::new();
    let operation = store.new_operation(PinnedBuffer::new(8));
    let key = operation.key();
    let mut receiver = operation
        .begin(&mut store, 0, |_buffer, _header, _bytes| Err(PENDING))
        .expect("the submission was not refused");

    let entry = CompletionEntry { key, bytes_transferred: 0, status: 0 };
    assert!(store.can_complete(&entry));
    store.complete_operation(entry, 0);

    let buffer = ready(store.poll_result(&mut receiver, noop_waker_ref()))
        .expect("the operation succeeded");
    assert_eq!(buffer.len(), 0);
    assert_eq!(buffer.capacity(), 8);
    assert!(buffer.as_slice().is_empty());
}

#[test]
fn completion_at_once_of_no_bytes_is_a_success() {
    let mut store = OperationStore::new();
    let operation = store.new_operation(PinnedBuffer::new(8));
    let mut receiver = operation
        .begin(&mut store, 0, |_buffer, _header, _bytes| Ok(()))
        .expect("the submission was not refused");
    let buffer = ready(store.poll_result(&mut receiver, noop_waker_ref()))
        .expect("the operation succeeded");
    assert_eq!(buffer.len(), 0);
    assert!(store.is_empty());
}

#[test]
fn failed_completion_carries_the_status_and_the_buffer() {
    let mut store = OperationStore::new();
    let operation = store.new_operation(PinnedBuffer::new(10));
    let key = operation.key();
    let mut receiver = operation
        .begin(&mut store, 0, |_buffer, _header, _bytes| Err(PENDING))
        .expect("the submission was not refused");

    // An access violation, as a status; its result code has the status bit.
    let status = -1073741819;
    store.complete_operation(CompletionEntry { key, bytes_transferred: 3, status }, 0);
    assert!(store.is_empty());

    let failure = ready(store.poll_result(&mut receiver, noop_waker_ref()))
        .err()
        .expect("the operation failed");
    assert_eq!(failure.error, Error::Windows(-805306363));
    assert_eq!(failure.buffer.len(), 3);
    assert_eq!(failure.buffer.capacity(), 10);
}

#[test]
fn completion_wakes_the_awaiter() {
    let rung = Arc::new(Rung { times: Mutex::new(0) });
    let waker = Waker::from(rung.clone());
    let mut store = OperationStore::new();
    let operation = store.new_operation(PinnedBuffer::new(4));
    let key = operation.key();
    let mut receiver = operation
        .begin(&mut store, 0, |_buffer, _header, _bytes| Err(PENDING))
        .expect("the submission was not refused");

    assert!(store.poll_result(&mut receiver, &waker).is_pending());
    assert_eq!(*rung.times.lock().unwrap(), 0);
    store.complete_operation(CompletionEntry { key, bytes_transferred: 4, status: 0 }, 0);
    assert_eq!(*rung.times.lock().unwrap(), 1);
    assert!(store.poll_result(&mut receiver, &waker).is_ready());
}

#[test]
fn both_pending_errors_mean_accepted() {
    assert!(Error::Winsock { code: -1, detail: 997 }.is_pending());
    assert!(Error::Windows(-2147023899).is_pending());
    assert!(!Error::Winsock { code: -1, detail: 10054 }.is_pending());
    assert!(!Error::Winsock { code: 0, detail: 997 }.is_pending());
    assert!(!Error::Windows(997).is_pending());
    assert!(!Error::Windows(-2147024891).is_pending());

    let mut store = OperationStore::new();
    let operation = store.new_operation(PinnedBuffer::new(4));
    let outcome =
        operation.begin(&mut store, 0, |_buffer, _header, _bytes| Err(Error::Windows(-2147023899)));
    assert!(outcome.is_ok());
    assert!(!store.is_empty());
}

#[test]
fn callback_is_handed_the_buffer_the_header_and_an_empty_cell() {
    let mut store = OperationStore::new();
    let mut operation = store.new_operation(PinnedBuffer::from_vec(vec![1, 2, 3]));
    operation.set_offset(&mut store, 0x1_2345_6789);

    let mut seen = None;
    let outcome = operation.begin(&mut store, 0, |buffer, header, bytes| {
        seen = Some((buffer.as_slice().to_vec(), header, *bytes));
        buffer.write(0, 9);
        *bytes = 2;
        Ok(())
    });

    assert_eq!(
        seen,
        Some((vec![1, 2, 3], Overlapped { offset: 0x2345_6789, offset_high: 1 }, 0))
    );
    let mut receiver = outcome.expect("the submission was not refused");
    let buffer = ready(store.poll_result(&mut receiver, noop_waker_ref()))
        .expect("the operation succeeded");
    assert_eq!(buffer.as_slice(), &[9, 2][..]);
    assert_eq!(buffer.capacity(), 3);
}

#[test]
fn offset_is_split_into_two_halves() {
    assert_eq!(Overlapped::zeroed(), Overlapped { offset: 0, offset_high: 0 });
    assert_eq!(Overlapped::for_offset(0), Overlapped { offset: 0, offset_high: 0 });
    assert_eq!(
        Overlapped::for_offset(0xffff_ffff),
        Overlapped { offset: 0xffff_ffff, offset_high: 0 }
    );
    assert_eq!(Overlapped::for_offset(0x1_0000_0000), Overlapped { offset: 0, offset_high: 1 });
    assert_eq!(
        Overlapped::for_offset(0xfedc_ba98_7654_3210),
        Overlapped { offset: 0x7654_3210, offset_high: 0xfedc_ba98 }
    );
}

#[test]
fn completion_reports_the_time_the_operation_took() {
    let mut store = OperationStore::new();
    let operation = store.new_operation(PinnedBuffer::new(4));
    let key = operation.key();
    let _receiver = operation
        .begin(&mut store, 1_000, |_buffer, _header, _bytes| Err(PENDING))
        .expect("the submission was not refused");
    let elapsed =
        store.complete_operation(CompletionEntry { key, bytes_transferred: 4, status: 0 }, 1_250);
    assert_eq!(elapsed, 250);
}

#[test]
fn clock_that_went_backwards_reports_no_time() {
    let mut store = OperationStore::new();
    let operation = store.new_operation(PinnedBuffer::new(4));
    let key = operation.key();
    let _receiver = operation
        .begin(&mut store, 1_000, |_buffer, _header, _bytes| Err(PENDING))
        .expect("the submission was not refused");
    let elapsed =
        store.complete_operation(CompletionEntry { key, bytes_transferred: 4, status: 0 }, 999);
    assert_eq!(elapsed, 0);
}

#[test]
fn operation_given_up_before_submission_releases_its_block() {
    let mut store = OperationStore::new();
    let operation = store.new_operation(PinnedBuffer::new(4));
    assert!(!store.is_empty());
    assert_eq!(store.awaited_results(), 1);
    operation.abandon(&mut store);
    assert!(store.is_empty());
    assert_eq!(store.awaited_results(), 0);
}

#[test]
fn completion_is_refused_for_what_is_not_in_flight() {
    let mut store = OperationStore::new();
    let never = CompletionEntry { key: 0, bytes_transferred: 0, status: 0 };
    assert!(!store.can_complete(&never));

    let operation = store.new_operation(PinnedBuffer::new(4));
    let key = operation.key();
    let prepared = CompletionEntry { key, bytes_transferred: 0, status: 0 };
    assert!(!store.can_complete(&prepared));

    let _receiver = operation
        .begin(&mut store, 0, |_buffer, _header, _bytes| Err(PENDING))
        .expect("the submission was not refused");
    assert!(store.can_complete(&CompletionEntry { key, bytes_transferred: 4, status: 0 }));
    assert!(!store.can_complete(&CompletionEntry { key, bytes_transferred: 5, status: 0 }));
    let neighbour = CompletionEntry { key: key + 1, bytes_transferred: 0, status: 0 };
    assert!(!store.can_complete(&neighbour));

    store.complete_operation(CompletionEntry { key, bytes_transferred: 4, status: 0 }, 0);
    assert!(!store.can_complete(&CompletionEntry { key, bytes_transferred: 4, status: 0 }));
}

#[test]
fn operations_in_flight_complete_in_any_order() {
    let mut store = OperationStore::new();
    let mut keys = Vec::new();
    let mut receivers = Vec::new();
    for size in [10usize, 20, 30] {
        let operation = store.new_operation(PinnedBuffer::new(size));
        keys.push(operation.key());
        receivers.push(
            operation
                .begin(&mut store, 0, |_buffer, _header, _bytes| Err(PENDING))
                .expect("the submission was not refused"),
        );
    }
    assert_eq!(store.awaited_results(), 3);

    for index in [1usize, 2, 0] {
        store.complete_operation(
            CompletionEntry { key: keys[index], bytes_transferred: index as u32, status: 0 },
            0,
        );
    }
    assert!(store.is_empty());

    for (index, receiver) in receivers.iter_mut().enumerate() {
        let buffer = ready(store.poll_result(receiver, noop_waker_ref()))
            .expect("the operation succeeded");
        assert_eq!(buffer.len(), index);
        assert_eq!(buffer.capacity(), 10 * (index + 1));
    }
    for receiver in receivers {
        store.forget_result(receiver);
    }
    assert_eq!(store.awaited_results(), 0);
}

#[test]
fn released_key_is_used_for_the_next_operation() {
    let mut store = OperationStore::new();
    let first = store.new_operation(PinnedBuffer::new(1));
    let second = store.new_operation(PinnedBuffer::new(1));
    let first_key = first.key();
    assert_ne!(first_key, second.key());
    first.abandon(&mut store);
    let third = store.new_operation(PinnedBuffer::new(1));
    assert_eq!(third.key(), first_key);
    second.abandon(&mut store);
    third.abandon(&mut store);
    assert!(store.is_empty());
}

#[test]
fn finish_submission_acts_on_each_answer() {
    let mut store = OperationStore::new();

    let operation = store.new_operation(PinnedBuffer::new(6));
    let key = operation.key();
    let receiver = operation
        .begin(&mut store, 0, |_buffer, _header, bytes| {
            *bytes = 5;
            Err(PENDING)
        })
        .expect("the submission was not refused");

    // The operating system changes its mind: the same block, answered again.
    let mut receiver = store
        .finish_submission(key, receiver, Ok(()))
        .expect("a completion at once is no refusal");
    assert!(store.is_empty());
    let buffer = ready(store.poll_result(&mut receiver, noop_waker_ref()))
        .expect("the operation succeeded");
    assert_eq!(buffer.len(), 5);

    let operation = store.new_operation(PinnedBuffer::new(6));
    let key = operation.key();
    let receiver = operation
        .begin(&mut store, 0, |_buffer, _header, _bytes| Err(PENDING))
        .expect("the submission was not refused");
    let failure = store
        .finish_submission(key, receiver, Err(Error::Winsock { code: -1, detail: 10054 }))
        .err()
        .expect("the submission was refused");
    assert_eq!(failure.error, Error::Winsock { code: -1, detail: 10054 });
    assert_eq!(failure.buffer.len(), 6);
    assert!(store.is_empty());
}

#[test]
fn completion_result_follows_the_status() {
    let buffer = completion_result(PinnedBuffer::new(9), 4, 0).expect("status zero is success");
    assert_eq!(buffer.len(), 4);
    assert_eq!(buffer.capacity(), 9);

    // A status that reports no failure keeps its code.
    let failure = completion_result(PinnedBuffer::new(9), 9, 259).err().expect("not a success");
    assert_eq!(failure.error, Error::Windows(259));
    assert_eq!(failure.buffer.len(), 9);

    let failure =
        completion_result(PinnedBuffer::new(9), 0, -1073741823).err().expect("not a success");
    assert_eq!(failure.error, Error::Windows(-805306367));
    assert_eq!(failure.buffer.len(), 0);
}

#[test]
fn buffer_within_the_limit_is_submitted_whole() {
    let size = 1 << 20;
    let mut store = OperationStore::new();
    let operation = store.new_operation(PinnedBuffer::from_vec(vec![0u8; size]));
    let mut seen = 0;
    let outcome = operation.begin(&mut store, 0, |buffer, _header, _bytes| {
        seen = buffer.len();
        Err(Error::Windows(5))
    });
    assert_eq!(seen, size);
    assert!(size < MAX_IO_LEN);
    assert_eq!(outcome.err().expect("the submission was refused").buffer.len(), size);
}

#[test]
fn buffer_handed_back_is_the_memory_that_was_supplied() {
    let buffer = PinnedBuffer::new(128);
    let supplied = format!("{:p}", buffer.as_slice().as_ptr());

    let mut store = OperationStore::new();
    let operation = store.new_operation(buffer);
    let key = operation.key();
    let mut submitted = String::new();
    let mut receiver = operation
        .begin(&mut store, 0, |buffer, _header, _bytes| {
            submitted = format!("{:p}", buffer.as_mut_slice().as_ptr());
            Err(PENDING)
        })
        .expect("the submission was not refused");
    assert_eq!(submitted, supplied);

    // Other operations come and go while this one is in flight.
    for _ in 0..100 {
        let other = store.new_operation(PinnedBuffer::new(16));
        let _ = other.begin(&mut store, 0, |_buffer, _header, _bytes| Ok(()));
    }

    store.complete_operation(CompletionEntry { key, bytes_transferred: 40, status: 0 }, 0);
    let buffer = ready(store.poll_result(&mut receiver, noop_waker_ref()))
        .expect("the operation succeeded");
    assert_eq!(format!("{:p}", buffer.as_slice().as_ptr()), supplied);
    assert_eq!(buffer.len(), 40);
}

#[test]
fn operation_in_flight_is_left_alone_by_what_happens_around_it() {
    let mut store = OperationStore::new();
    let mut operation = store.new_operation(PinnedBuffer::from_vec(vec![1, 2, 3, 4]));
    operation.set_offset(&mut store, 77);
    let key = operation.key();
    let mut receiver = operation
        .begin(&mut store, 5, |_buffer, _header, _bytes| Err(PENDING))
        .expect("the submission was not refused");

    let mut neighbour = store.new_operation(PinnedBuffer::new(2));
    neighbour.set_offset(&mut store, 1);
    let abandoned = store.new_operation(PinnedBuffer::new(2));
    abandoned.abandon(&mut store);
    let neighbour_key = neighbour.key();
    let neighbour_receiver = neighbour
        .begin(&mut store, 6, |_buffer, _header, _bytes| Err(PENDING))
        .expect("the submission was not refused");
    store.complete_operation(
        CompletionEntry { key: neighbour_key, bytes_transferred: 1, status: 0 },
        7,
    );
    store.forget_result(neighbour_receiver);

    assert!(store.can_complete(&CompletionEntry { key, bytes_transferred: 4, status: 0 }));
    let elapsed =
        store.complete_operation(CompletionEntry { key, bytes_transferred: 3, status: 0 }, 9);
    assert_eq!(elapsed, 4);
    let buffer = ready(store.poll_result(&mut receiver, noop_waker_ref()))
        .expect("the operation succeeded");
    assert_eq!(buffer.as_slice(), &[1, 2, 3][..]);
    assert!(store.is_empty());
}

#[test]
fn handle_is_prepared_until_it_is_used() {
    let mut store = OperationStore::new();
    let operation = store.new_operation(PinnedBuffer::new(2));
    assert!(store.is_prepared(&operation));

    let mut elsewhere = OperationStore::new();
    assert!(!elsewhere.is_prepared(&operation));
    let other = elsewhere.new_operation(PinnedBuffer::new(2));
    let _receiver = other.begin(&mut elsewhere, 0, |_buffer, _header, _bytes| Err(PENDING));
    // The same key, in another store, is in flight there.
    assert!(!elsewhere.is_prepared(&operation));

    operation.abandon(&mut store);
    assert!(store.is_empty());
}

#[test]
fn new_block_comes_with_an_event_of_its_own() {
    let mut events = folo::once_event::OnceEvent::new_slab_storage();
    let first = folo::operation::OperationCore::new(0, PinnedBuffer::new(4), &mut events);
    assert_eq!(events.len(), 1);
    let second = folo::operation::OperationCore::new(1, PinnedBuffer::new(4), &mut events);
    assert_eq!(events.len(), 2);
    let shown = format!("{:?} {:?}", first, second);
    assert!(shown.contains("immediate_bytes_transferred: 0"));
    assert!(shown.contains("started: None"));
}

#[test]
fn refused_submission_hands_back_the_memory_that_was_supplied() {
    let buffer = PinnedBuffer::from_vec(vec![3; 32]);
    let supplied = format!("{:p}", buffer.as_slice().as_ptr());

    let mut store = OperationStore::new();
    let operation = store.new_operation(buffer);
    let failure = operation
        .begin(&mut store, 0, |buffer, _header, _bytes| {
            buffer.as_mut_slice()[31] = 4;
            Err(Error::Windows(-2147024891))
        })
        .err()
        .expect("the submission was refused");

    assert_eq!(format!("{:p}", failure.buffer.as_slice().as_ptr()), supplied);
    assert_eq!(failure.buffer.capacity(), 32);
    assert_eq!(failure.buffer.len(), 32);
    assert_eq!(failure.buffer.as_slice()[30..], [3, 4]);
}

#[test]
fn callback_is_called_once_with_a_cell_of_zero() {
    let mut store = OperationStore::new();
    let first = store.new_operation(PinnedBuffer::new(8));
    let mut calls = 0;
    let mut cells = Vec::new();
    let _ = first.begin(&mut store, 0, |_buffer, _header, bytes| {
        calls += 1;
        cells.push(*bytes);
        *bytes = 8;
        Ok(())
    });
    // The key of the first operation is used again: its cell starts at 0 too.
    let second = store.new_operation(PinnedBuffer::new(8));
    let _ = second.begin(&mut store, 0, |_buffer, _header, bytes| {
        calls += 1;
        cells.push(*bytes);
        Err(PENDING)
    });
    assert_eq!(calls, 2);
    assert_eq!(cells, vec![0, 0]);
}

#[test]
fn completion_at_once_keeps_the_size_of_the_buffer() {
    let mut store = OperationStore::new();
    let operation = store.new_operation(PinnedBuffer::new(64));
    let mut receiver = operation
        .begin(&mut store, 0, |buffer, _header, bytes| {
            buffer.write(0, 1);
            *bytes = 10;
            Ok(())
        })
        .expect("the submission was not refused");
    let buffer = ready(store.poll_result(&mut receiver, noop_waker_ref()))
        .expect("the operation succeeded");
    assert_eq!(buffer.len(), 10);
    assert_eq!(buffer.capacity(), 64);
    assert_eq!(buffer.as_slice()[0], 1);
}
