//! The lifecycle of one I/O operation: a metadata block is allocated in the
//! store with the caller's buffer, handed to the operating system by the
//! submission callback, and released when the operation has completed or was
//! refused. The result reaches the awaiter through a once-event.
//!
//! What each function does to the store is stated over the model in
//! [`crate::lifecycle`].

use crate::buffer::PinnedBuffer;
use crate::buffer::MAX_IO_LEN;
use crate::error::hresult_from_nt;
use crate::error::Error;
use crate::error::OperationError;
use crate::error::OperationResult;
use crate::error::STATUS_SUCCESS;
use crate::lifecycle::outcome_of;
use crate::lifecycle::spec_completion_result;
use crate::lifecycle::spec_elapsed;
use crate::lifecycle::BlockView;
use crate::lifecycle::StoreOp;
use crate::lifecycle::StoreState;
use crate::once_event::poll_of;
use crate::once_event::CellView;
use crate::once_event::OnceEvent;
use crate::once_event::OnceEventSlabStorage;
use crate::once_event::RcReceiver;
use crate::once_event::RcSender;
use crate::pool::Pool;
use std::marker::PhantomData;
use std::rc::Rc;
use std::task::Poll;
use std::task::Waker;
use vstd::prelude::*;

verus! {

/// The part of a metadata block that the operating system reads: the byte
/// offset at which a seekable operation takes place, in two halves.
#[derive(Debug, Clone, Copy, PartialEq, Eq, Structural)]
pub struct Overlapped {
    pub offset: u32,
    pub offset_high: u32,
}

impl Overlapped {
    /// The offset that the two halves stand for.
    pub open spec fn file_offset(self) -> int {
        self.offset + self.offset_high * 0x1_0000_0000
    }

    /// The header that stands for `offset`.
    pub open spec fn at(offset: usize) -> Overlapped {
        Overlapped {
            offset: (offset as int % 0x1_0000_0000) as u32,
            offset_high: (offset as int / 0x1_0000_0000) as u32,
        }
    }

    /// A header with offset zero.
    pub fn zeroed() -> (header: Self)
        ensures
            header == Overlapped::at(0),
    {
        Overlapped { offset: 0, offset_high: 0 }
    }

    /// Splits `offset` into the two halves of a header.
    pub fn for_offset(offset: usize) -> (header: Self)
        ensures
            header == Overlapped::at(offset),
            header.file_offset() == offset,
    {
        let wide = offset as u64;
        Overlapped {
            offset: (wide % 0x1_0000_0000) as u32,
            offset_high: (wide / 0x1_0000_0000) as u32,
        }
    }
}

/// What the poller hands over for one completed operation: the key of its
/// metadata block, the number of bytes transferred, and the status.
#[derive(Debug, Clone, Copy, PartialEq, Eq, Structural)]
pub struct CompletionEntry {
    pub key: usize,
    pub bytes_transferred: u32,
    pub status: i32,
}

pub fn completion_result(buffer: PinnedBuffer, bytes: u32, status: i32) -> (result: OperationResult)
    requires
        bytes <= buffer.spec_capacity(),
    ensures
        result == spec_completion_result(buffer, bytes, status),
{
    let mut buffer = buffer;
    buffer.set_len(bytes as usize);
    if status != STATUS_SUCCESS {
        Err(OperationError::new(Error::Windows(hresult_from_nt(status)), buffer))
    } else {
        Ok(buffer)
    }
}

/// The metadata block of one operation. It stays where it is from allocation
/// until it is released, and is referred to by one party at a time: the
/// handle of the operation, or the operating system.
#[derive(Debug)]
pub struct OperationCore {
    overlapped: Overlapped,
    buffer: Option<PinnedBuffer>,
    key: usize,
    immediate_bytes_transferred: u32,
    result_tx: Option<RcSender<OperationResult>>,
    result_rx: Option<RcReceiver<OperationResult>>,
    started: Option<u64>,
}

impl OperationCore {
    pub closed spec fn view(&self) -> BlockView {
        BlockView {
            header: self.overlapped,
            buffer: self.buffer->Some_0,
            immediate_bytes: self.immediate_bytes_transferred,
            started: self.started,
            event: self.result_tx->Some_0.key(),
        }
    }

    /// The block knows its key, holds its buffer and the sender of its
    /// event, and holds the receiver until it is submitted.
    pub closed spec fn wf(&self, key: usize) -> bool {
        &&& self.key == key
        &&& self.buffer is Some
        &&& self.result_tx is Some
        &&& self.result_rx is Some <==> self.started is None
        &&& self.result_rx is Some ==> self.result_rx->Some_0.key() == self.result_tx->Some_0.key()
    }

    /// Builds the block of a new operation on `buffer`, with a new event in
    /// `events`. No more of the buffer is active in it than one operation
    /// can transfer.
    pub fn new(
        key: usize,
        buffer: PinnedBuffer,
        events: &mut OnceEventSlabStorage<OperationResult>,
    ) -> (core: Self)
        requires
            old(events).wf(),
        ensures
            final(events).wf(),
            !old(events)@.contains_key(old(events).spec_next_key()),
            final(events)@ == old(events)@.insert(old(events).spec_next_key(), CellView::fresh()),
            core.wf(key),
            core@ == BlockView::fresh(buffer, old(events).spec_next_key()),
    {
        let (result_tx, result_rx) = OnceEvent::new_in_rc(events);
        let mut buffer = buffer;
        if buffer.len() > MAX_IO_LEN {
            buffer.set_len(MAX_IO_LEN);
        }
        OperationCore {
            overlapped: Overlapped::zeroed(),
            buffer: Some(buffer),
            key,
            immediate_bytes_transferred: 0,
            result_tx: Some(result_tx),
            result_rx: Some(result_rx),
            started: None,
        }
    }
}

/// The handle of an operation that has not been submitted. It stands for
/// one metadata block, and is used up by submitting the operation or by
/// giving it up.
#[derive(Debug)]
pub struct Operation {
    key: usize,
    /// Keeps the handle on the thread of its store.
    marker: PhantomData<Rc<OperationCore>>,
}

impl Operation {
    /// The key of the metadata block.
    pub closed spec fn spec_key(&self) -> usize {
        self.key
    }

    #[verifier::when_used_as_spec(spec_key)]
    pub fn key(&self) -> (key: usize)
        ensures
            key == self.spec_key(),
    {
        self.key
    }
}

/// The metadata blocks of the operations of one agent, and the once-events
/// that carry their results.
pub struct OperationStore {
    items: Pool<OperationCore>,
    events: OnceEventSlabStorage<OperationResult>,
}

impl OperationStore {
    pub closed spec fn view(&self) -> StoreState {
        StoreState {
            blocks: Map::new(
                |key: usize| self.items@.contains_key(key),
                |key: usize| self.items@[key]@,
            ),
            events: self.events@,
        }
    }

    pub closed spec fn wf(&self) -> bool {
        &&& self.items.wf()
        &&& self.events.wf()
        &&& forall|key: usize|
            self.items@.contains_key(key) ==> (#[trigger] self.items@[key]).wf(key)
        &&& self@.wf()
    }

    /// The key that the next operation will get.
    pub closed spec fn spec_next_key(&self) -> usize {
        self.items.spec_next_key()
    }

    /// The key that the event of the next operation will get.
    pub closed spec fn spec_next_event(&self) -> usize {
        self.events.spec_next_key()
    }

    /// What holds of every store: its view is well formed, and the keys it
    /// will hand out next are not in use.
    pub proof fn view_is_wf(&self)
        requires
            self.wf(),
        ensures
            self@.wf(),
            !self@.blocks.contains_key(self.spec_next_key()),
            !self@.events.contains_key(self.spec_next_event()),
    {
        self.items.next_key_is_vacant();
        self.events.events_are_referenced();
    }

    pub fn new() -> (store: Self)
        ensures
            store.wf(),
            store@ == StoreState::empty(),
    {
        let store = OperationStore { items: Pool::new(), events: OnceEventSlabStorage::new() };
        assert(store@.blocks =~= Map::<usize, BlockView>::empty());
        store
    }

    /// Whether no operation is outstanding or awaiting completion. Only
    /// then may the store be dropped.
    pub fn is_empty(&self) -> (empty: bool)
        requires
            self.wf(),
        ensures
            empty <==> self@.blocks == Map::<usize, BlockView>::empty(),
            empty <==> forall|key: usize| !self@.blocks.contains_key(key),
            empty <==> forall|key: usize| !self@.prepared(key) && !self@.in_flight(key),
    {
        let empty = self.items.is_empty();
        proof {
            if empty {
                assert(self@.blocks =~= Map::<usize, BlockView>::empty());
            } else {
                if forall|key: usize| !self@.blocks.contains_key(key) {
                    assert forall|key: usize| !self.items@.contains_key(key) by {
                        assert(!self@.blocks.contains_key(key));
                    }
                }
                let key = choose|key: usize| self@.blocks.contains_key(key);
                assert(self@.prepared(key) || self@.in_flight(key));
            }
        }
        empty
    }

    /// Creates a new operation on `buffer`, which the operation owns until
    /// its result hands it back.
    pub fn new_operation(&mut self, buffer: PinnedBuffer) -> (operation: Operation)
        requires
            old(self).wf(),
        ensures
            final(self).wf(),
            operation.key() == old(self).spec_next_key(),
            old(self)@.allows(
                StoreOp::Allocate {
                    key: operation.key(),
                    event: old(self).spec_next_event(),
                    buffer,
                },
            ),
            final(self)@ == old(self)@.step(
                StoreOp::Allocate {
                    key: operation.key(),
                    event: old(self).spec_next_event(),
                    buffer,
                },
            ),
            final(self)@.prepared(operation.key()),
    {
        let key = self.items.next_key();
        let core = OperationCore::new(key, buffer, &mut self.events);
        let _ = self.items.insert(core);
        proof {
            let after = old(self)@.allocate(key, old(self).spec_next_event(), buffer);
            assert(self@.blocks =~= after.blocks);
            buffer.with_len_keeps_region(MAX_IO_LEN);
        }
        Operation { key, marker: PhantomData }
    }

    /// Takes the block under `key` out of the pool and frees its slot.
    fn release(&mut self, key: usize) -> (core: OperationCore)
        requires
            old(self).items.wf(),
            old(self).items@.contains_key(key),
        ensures
            final(self).items.wf(),
            final(self).items@ == old(self).items@.remove(key),
            final(self).events == old(self).events,
            core == old(self).items@[key],
    {
        match self.items.remove(key) {
            Some(core) => core,
            None => unreached(),
        }
    }

    /// Delivers the result of the submitted operation under `key` and
    /// releases its block. Returns when the operation was submitted.
    fn complete(&mut self, key: usize, bytes: u32, status: i32) -> (started: u64)
        requires
            old(self).wf(),
            old(self)@.in_flight(key),
            bytes <= old(self)@.blocks[key].buffer.spec_capacity(),
        ensures
            final(self).wf(),
            final(self)@ == old(self)@.deliver(
                key,
                spec_completion_result(old(self)@.blocks[key].buffer, bytes, status),
            ),
            Some(started) == old(self)@.blocks[key].started,
    {
        let core = self.release(key);
        let buffer = match core.buffer {
            Some(buffer) => buffer,
            None => unreached(),
        };
        let started = match core.started {
            Some(started) => started,
            None => unreached(),
        };
        let result_tx = match core.result_tx {
            Some(result_tx) => result_tx,
            None => unreached(),
        };
        let result = completion_result(buffer, bytes, status);
        result_tx.set(&mut self.events, result);
        proof {
            assert(self@.blocks =~= old(self)@.deliver(key, result).blocks);
        }
        started
    }

    /// Delivers the result of an operation that completed asynchronously,
    /// as the poller reports it, and releases its metadata block. Returns
    /// the time the operation took. If the awaiter is gone, the result is
    /// dropped; the block is released all the same.
    pub fn complete_operation(&mut self, entry: CompletionEntry, now: u64) -> (elapsed: u64)
        requires
            old(self).wf(),
            old(self)@.allows(StoreOp::Complete { entry }),
        ensures
            final(self).wf(),
            final(self)@ == old(self)@.step(StoreOp::Complete { entry }),
            elapsed == spec_elapsed(old(self)@.blocks[entry.key].started->Some_0, now),
    {
        let started = self.complete(entry.key, entry.bytes_transferred, entry.status);
        if now >= started {
            now - started
        } else {
            0
        }
    }

    /// Delivers the result of an operation that completed while it was
    /// submitted, with the byte count that the submission callback wrote,
    /// and releases its metadata block.
    pub fn complete_immediately(&mut self, key: usize)
        requires
            old(self).wf(),
            old(self)@.in_flight(key),
            old(self)@.blocks[key].immediate_bytes <= old(self)@.blocks[key].buffer.spec_capacity(),
        ensures
            final(self).wf(),
            final(self)@ == old(self)@.answered(key, Ok(())),
    {
        let bytes = self.items.get(key).immediate_bytes_transferred;
        let _ = self.complete(key, bytes, STATUS_SUCCESS);
    }

    /// Whether `operation` is an operation of this store that has not been
    /// submitted.
    pub fn is_prepared(&self, operation: &Operation) -> (yes: bool)
        requires
            self.wf(),
        ensures
            yes == self@.prepared(operation.key()),
    {
        if !self.items.contains(operation.key) {
            return false;
        }
        self.items.get(operation.key).started.is_none()
    }

    /// The number of results that have not been collected or given up:
    /// those of the operations in the pool, and those that were delivered
    /// and wait for their awaiter.
    pub fn awaited_results(&self) -> (count: usize)
        requires
            self.wf(),
        ensures
            count == self@.events.dom().len(),
    {
        self.events.len()
    }

    /// Whether the poller may report `entry`: its operation was submitted
    /// and has not completed, and its buffer can hold the bytes transferred.
    pub fn can_complete(&self, entry: &CompletionEntry) -> (yes: bool)
        requires
            self.wf(),
        ensures
            yes == self@.allows(StoreOp::Complete { entry: *entry }),
    {
        if !self.items.contains(entry.key) {
            return false;
        }
        let core = self.items.get(entry.key);
        match &core.buffer {
            Some(buffer) => core.started.is_some() && entry.bytes_transferred as usize
                <= buffer.capacity(),
            None => false,
        }
    }

    /// Acts on the answer of the submission callback for the submitted
    /// operation under `key`, whose receiver is `receiver`. Accepted: the
    /// operating system has the block, and the receiver is handed back to
    /// wait on. Completed at once: the result is delivered first. Refused:
    /// the block is released, and the failure holds the buffer.
    pub fn finish_submission(
        &mut self,
        key: usize,
        receiver: RcReceiver<OperationResult>,
        answer: Result<(), Error>,
    ) -> (outcome: Result<RcReceiver<OperationResult>, OperationError>)
        requires
            old(self).wf(),
            old(self)@.in_flight(key),
            old(self)@.awaited(receiver.key()),
            receiver.key() == old(self)@.blocks[key].event,
            answer is Ok ==> old(self)@.blocks[key].immediate_bytes
                <= old(self)@.blocks[key].buffer.spec_capacity(),
        ensures
            final(self).wf(),
            final(self)@ == old(self)@.answered(key, answer),
            outcome_of(outcome, old(self)@.blocks[key], answer),
            outcome is Ok ==> final(self)@.awaited(old(self)@.blocks[key].event),
    {
        match answer {
            Ok(_) => {
                self.complete_immediately(key);
                Ok(receiver)
            },
            Err(error) => {
                if error.is_pending() {
                    Ok(receiver)
                } else {
                    let core = self.release(key);
                    let buffer = match core.buffer {
                        Some(buffer) => buffer,
                        None => unreached(),
                    };
                    let result_tx = match core.result_tx {
                        Some(result_tx) => result_tx,
                        None => unreached(),
                    };
                    result_tx.release(&mut self.events);
                    receiver.release(&mut self.events);
                    proof {
                        let after = old(self)@.discard(key);
                        assert(self@.blocks =~= after.blocks);
                        assert(self@.events =~= after.events);
                    }
                    Err(OperationError::new(error, buffer))
                }
            },
        }
    }

    /// Polls for the result of an operation on behalf of its awaiter.
    pub fn poll_result(
        &mut self,
        receiver: &mut RcReceiver<OperationResult>,
        waker: &Waker,
    ) -> (result: Poll<OperationResult>)
        requires
            old(self).wf(),
            old(self)@.allows(StoreOp::PollResult { event: old(receiver).key(), waker: *waker }),
        ensures
            final(receiver).key() == old(receiver).key(),
            final(self).wf(),
            final(self)@ == old(self)@.step(
                StoreOp::PollResult { event: old(receiver).key(), waker: *waker },
            ),
            result == poll_of(old(self)@.events[old(receiver).key()].state.polled()),
    {
        receiver.poll(&mut self.events, waker)
    }

    /// Gives up waiting for the result of an operation. The operation goes
    /// on; its result is dropped when it arrives.
    pub fn forget_result(&mut self, receiver: RcReceiver<OperationResult>)
        requires
            old(self).wf(),
            old(self)@.allows(StoreOp::ForgetResult { event: receiver.key() }),
        ensures
            final(self).wf(),
            final(self)@ == old(self)@.step(StoreOp::ForgetResult { event: receiver.key() }),
    {
        receiver.release(&mut self.events);
        proof {
            assert forall|other: usize| #[trigger] self@.blocks.contains_key(other) implies {
                &&& self@.events.contains_key(self@.blocks[other].event)
                &&& self@.events[self@.blocks[other].event].sender
                &&& !self@.blocks[other].in_flight()
                    ==> self@.events[self@.blocks[other].event].receiver
            } by {
                if !old(self)@.blocks[other].in_flight() {
                    assert(old(self)@.prepared(other));
                }
            }
        }
    }
}

impl Operation {
    /// Sets the byte offset at which a seekable operation takes place.
    pub fn set_offset(&mut self, store: &mut OperationStore, offset: usize)
        requires
            old(store).wf(),
            old(store)@.allows(StoreOp::SetOffset { key: old(self).key(), offset }),
        ensures
            final(self).key() == old(self).key(),
            final(store).wf(),
            final(store)@ == old(store)@.step(StoreOp::SetOffset { key: old(self).key(), offset }),
            final(store)@.blocks[old(self).key()].header.file_offset() == offset,
    {
        let core = store.items.get_mut(self.key);
        core.overlapped = Overlapped::for_offset(offset);
        proof {
            let after = old(store)@.with_block(
                self.key,
                old(store)@.blocks[self.key].with_header(Overlapped::at(offset)),
            );
            assert(store@.blocks =~= after.blocks);
        }
    }

    /// Gives the operation up before it was submitted: its block is
    /// released, and its buffer goes with it.
    pub fn abandon(self, store: &mut OperationStore)
        requires
            old(store).wf(),
            old(store)@.allows(StoreOp::Abandon { key: self.key() }),
        ensures
            final(store).wf(),
            final(store)@ == old(store)@.step(StoreOp::Abandon { key: self.key() }),
    {
        let core = store.release(self.key);
        let result_tx = match core.result_tx {
            Some(result_tx) => result_tx,
            None => unreached(),
        };
        let result_rx = match core.result_rx {
            Some(result_rx) => result_rx,
            None => unreached(),
        };
        result_tx.release(&mut store.events);
        result_rx.release(&mut store.events);
        proof {
            let after = old(store)@.discard(self.key);
            assert(store@.blocks =~= after.blocks);
            assert(store@.events =~= after.events);
        }
    }

    /// Turns the handle into what the submission callback is called with:
    /// the buffer, the header, and the cell for the byte count of an
    /// operation that completes at once. The block is marked as submitted at
    /// `now`, and from here on nothing but the completion of the operation,
    /// or its refusal, releases it.
    fn into_callback_arguments(self, store: &mut OperationStore, now: u64) -> (arguments: (
        &mut PinnedBuffer,
        Overlapped,
        &mut u32,
    ))
        requires
            old(store).items.wf(),
            old(store).items@.contains_key(self.key()),
            old(store).items@[self.key()].buffer is Some,
        ensures
            *arguments.0 == old(store).items@[self.key()].buffer->Some_0,
            arguments.1 == old(store).items@[self.key()].overlapped,
            *arguments.2 == old(store).items@[self.key()].immediate_bytes_transferred,
            final(store).events == old(store).events,
            final(store).items.wf(),
            final(store).items@ == old(store).items@.insert(
                self.key(),
                OperationCore {
                    overlapped: old(store).items@[self.key()].overlapped,
                    buffer: Some(*final(arguments.0)),
                    key: old(store).items@[self.key()].key,
                    immediate_bytes_transferred: *final(arguments.2),
                    result_tx: old(store).items@[self.key()].result_tx,
                    result_rx: old(store).items@[self.key()].result_rx,
                    started: Some(now),
                },
            ),
    {
        let core = store.items.get_mut(self.key);
        core.started = Some(now);
        let buffer = match &mut core.buffer {
            Some(buffer) => buffer,
            None => unreached(),
        };
        (buffer, core.overlapped, &mut core.immediate_bytes_transferred)
    }

    /// Submits the operation: calls `f`, which makes the call into the
    /// operating system, with the buffer, the header and the cell for the
    /// byte count, and acts on its answer as [`OperationStore::finish_submission`]
    /// says. `now` is recorded as the start of the operation.
    ///
    /// `f` is called once, with the buffer of the operation, its header, and
    /// a cell that holds 0. It answers `Ok` if the operation completed at
    /// once and the byte count is in the cell, the pending error if the
    /// operating system accepted the operation and will report its completion
    /// to the poller, and any other error if the operating system refused it.
    ///
    /// The buffer is lent to `f` for its active region: called with the
    /// buffer of the operation, `f` leaves it with its size and its active
    /// length and writes to nothing behind the active region, and a byte
    /// count that it reports with `Ok` fits the buffer. What comes back, in
    /// the result or in the failure, is then the buffer that was supplied.
    pub fn begin<F>(self, store: &mut OperationStore, now: u64, f: F) -> (outcome: Result<
        RcReceiver<OperationResult>,
        OperationError,
    >) where F: FnOnce(&mut PinnedBuffer, Overlapped, &mut u32) -> Result<(), Error>
        requires
            old(store).wf(),
            old(store)@.prepared(self.key()),
            forall|buffer: &mut PinnedBuffer, bytes: &mut u32|
                *buffer == old(store)@.blocks[self.key()].buffer && *bytes == 0 ==> call_requires(
                    f,
                    (buffer, old(store)@.blocks[self.key()].header, bytes),
                ),
            forall|buffer: &mut PinnedBuffer, bytes: &mut u32, answer: Result<(), Error>|
                *buffer == old(store)@.blocks[self.key()].buffer && *bytes == 0
                    && #[trigger] call_ensures(
                    f,
                    (buffer, old(store)@.blocks[self.key()].header, bytes),
                    answer,
                ) ==> final(buffer).keeps_region_of(*buffer) && (answer is Ok ==> *final(bytes)
                    <= final(buffer).spec_capacity()),
        ensures
            final(store).wf(),
            (exists|buffer: &mut PinnedBuffer, bytes: &mut u32, answer: Result<(), Error>|
                #![trigger call_ensures(
                    f,
                    (buffer, old(store)@.blocks[self.key()].header, bytes),
                    answer,
                )]
                {
                    let block = old(store)@.blocks[self.key()];
                    let begin = StoreOp::Begin {
                        key: self.key(),
                        now,
                        left: *final(buffer),
                        immediate_bytes: *final(bytes),
                        answer,
                    };
                    &&& *buffer == block.buffer
                    &&& *bytes == 0
                    &&& call_ensures(f, (buffer, block.header, bytes), answer)
                    &&& old(store)@.allows(begin)
                    &&& final(store)@ == old(store)@.step(begin)
                    &&& outcome_of(
                        outcome,
                        block.submitted(now, *final(buffer), *final(bytes)),
                        answer,
                    )
                }),
            outcome is Ok ==> final(store)@.awaited(old(store)@.blocks[self.key()].event),
            outcome matches Err(failure) ==> failure.buffer.keeps_region_of(
                old(store)@.blocks[self.key()].buffer,
            ),
    {
        let key = self.key;
        let core = store.items.get_mut(key);
        let receiver = match core.result_rx.take() {
            Some(receiver) => receiver,
            None => unreached(),
        };
        proof {
            assert(store.items@[key].overlapped == old(store)@.blocks[key].header);
        }
        let (buffer, overlapped, immediate_bytes_transferred) = self.into_callback_arguments(
            store,
            now,
        );
        let answer = f(buffer, overlapped, immediate_bytes_transferred);
        proof {
            let submitted = old(store)@.with_block(key, store@.blocks[key]);
            assert(store@.blocks =~= submitted.blocks);
        }
        store.finish_submission(key, receiver, answer)
    }
}

} // verus!
