//! The store of operations as a state machine: what it holds, the steps
//! that its functions take, and what holds of every store through all of
//! them.

use crate::buffer::PinnedBuffer;
use crate::buffer::MAX_IO_LEN;
use crate::error::spec_hresult_from_nt;
use crate::error::Error;
use crate::error::OperationError;
use crate::error::OperationResult;
use crate::error::STATUS_SUCCESS;
use crate::once_event::settle;
use crate::once_event::CellView;
use crate::once_event::RcReceiver;
use crate::operation::CompletionEntry;
use crate::operation::Overlapped;
use std::task::Waker;
use vstd::prelude::*;

verus! {

/// What a completion delivers to the awaiter: the buffer with the bytes
/// transferred as its active length, as a success or inside a failure that
/// carries the status.
pub open spec fn spec_completion_result(
    buffer: PinnedBuffer,
    bytes: u32,
    status: i32,
) -> OperationResult {
    if status == STATUS_SUCCESS {
        Ok(buffer.with_len(bytes as usize))
    } else {
        Err(
            OperationError {
                error: Error::Windows(spec_hresult_from_nt(status)),
                buffer: buffer.with_len(bytes as usize),
            },
        )
    }
}

/// The time from `started` to `now`, zero if the clock went backwards.
pub open spec fn spec_elapsed(started: u64, now: u64) -> u64 {
    if now >= started {
        (now - started) as u64
    } else {
        0
    }
}

/// One metadata block as the store shows it.
pub struct BlockView {
    pub header: Overlapped,
    /// The buffer of the operation. It is in the block from allocation until
    /// the result is delivered.
    pub buffer: PinnedBuffer,
    /// The byte count that the submission callback wrote.
    pub immediate_bytes: u32,
    /// When the operation was submitted; nothing before that.
    pub started: Option<u64>,
    /// The key of the once-event that carries the result.
    pub event: usize,
}

impl BlockView {
    /// The block of a new operation.
    pub open spec fn fresh(buffer: PinnedBuffer, event: usize) -> BlockView {
        BlockView {
            header: Overlapped::at(0),
            buffer: buffer.clamped(),
            immediate_bytes: 0,
            started: None,
            event,
        }
    }

    /// The operation was submitted: the operating system owns the block, or
    /// the completion path has it.
    pub open spec fn in_flight(self) -> bool {
        self.started is Some
    }

    pub open spec fn with_header(self, header: Overlapped) -> BlockView {
        BlockView {
            header,
            buffer: self.buffer,
            immediate_bytes: self.immediate_bytes,
            started: self.started,
            event: self.event,
        }
    }

    /// The block after the submission callback ran at `now` and left
    /// `buffer` and `immediate_bytes`.
    pub open spec fn submitted(
        self,
        now: u64,
        buffer: PinnedBuffer,
        immediate_bytes: u32,
    ) -> BlockView {
        BlockView {
            header: self.header,
            buffer,
            immediate_bytes,
            started: Some(now),
            event: self.event,
        }
    }
}

/// The store as its contracts speak of it: the metadata blocks of the
/// operations that have not completed, and the once-events of the results
/// that have not been collected.
pub struct StoreState {
    pub blocks: Map<usize, BlockView>,
    pub events: Map<usize, CellView<OperationResult>>,
}

impl StoreState {
    pub open spec fn empty() -> StoreState {
        StoreState { blocks: Map::empty(), events: Map::empty() }
    }

    /// Each block holds the sender of an event of its own and, until it is
    /// submitted, the receiver too; each event has an end that refers to it.
    /// And no operation waits for submission with more bytes active in its
    /// buffer than one operation can transfer, or with a byte count in its
    /// cell.
    pub open spec fn wf(self) -> bool {
        &&& forall|key: usize| #[trigger]
            self.blocks.contains_key(key) ==> {
                &&& self.events.contains_key(self.blocks[key].event)
                &&& self.events[self.blocks[key].event].sender
                &&& !self.blocks[key].in_flight() ==> self.events[self.blocks[key].event].receiver
                &&& !self.blocks[key].in_flight() ==> self.blocks[key].buffer.spec_len()
                    <= MAX_IO_LEN
                &&& !self.blocks[key].in_flight() ==> self.blocks[key].immediate_bytes == 0
            }
        &&& forall|first: usize, second: usize|
            #![trigger self.blocks[first], self.blocks[second]]
            self.blocks.contains_key(first) && self.blocks.contains_key(second) && first != second
                ==> self.blocks[first].event != self.blocks[second].event
        &&& forall|event: usize| #[trigger]
            self.events.contains_key(event) ==> self.events[event].wf()
                && self.events[event].referenced()
    }

    /// An operation that was allocated and not submitted yet: its handle is
    /// outstanding.
    pub open spec fn prepared(self, key: usize) -> bool {
        self.blocks.contains_key(key) && !self.blocks[key].in_flight()
    }

    /// An operation that was submitted and has not completed.
    pub open spec fn in_flight(self, key: usize) -> bool {
        self.blocks.contains_key(key) && self.blocks[key].in_flight()
    }

    /// The receiver of the event under `event` is with an awaiter: it exists,
    /// and no block still holds it.
    pub open spec fn awaited(self, event: usize) -> bool {
        &&& self.events.contains_key(event)
        &&& self.events[event].receiver
        &&& forall|key: usize| #[trigger] self.prepared(key) ==> self.blocks[key].event != event
    }

    /// A new operation on `buffer` under `key`, with a new event under `event`.
    pub open spec fn allocate(self, key: usize, event: usize, buffer: PinnedBuffer) -> StoreState {
        StoreState {
            blocks: self.blocks.insert(key, BlockView::fresh(buffer, event)),
            events: self.events.insert(event, CellView::fresh()),
        }
    }

    /// The block under `key` becomes `block`.
    pub open spec fn with_block(self, key: usize, block: BlockView) -> StoreState {
        StoreState { blocks: self.blocks.insert(key, block), events: self.events }
    }

    /// The block under `key` is released together with its event: nobody
    /// will set the event and nobody will wait for it.
    pub open spec fn discard(self, key: usize) -> StoreState {
        StoreState {
            blocks: self.blocks.remove(key),
            events: self.events.remove(self.blocks[key].event),
        }
    }

    /// The operation under `key` ends in `result`: the sender in its block
    /// sets the event, and the block is released. If the receiver is gone,
    /// the event goes as well, and the result with it.
    pub open spec fn deliver(self, key: usize, result: OperationResult) -> StoreState {
        let event = self.blocks[key].event;
        StoreState {
            blocks: self.blocks.remove(key),
            events: settle(self.events, event, self.events[event].after_set(result)),
        }
    }

    /// The store after the submission callback returned `answer` for the
    /// submitted block under `key`: accepted, the block stays with the
    /// operating system; completed at once, the result is delivered with the
    /// byte count that the callback wrote; refused, the block is released.
    pub open spec fn answered(self, key: usize, answer: Result<(), Error>) -> StoreState {
        match answer {
            Ok(_) => self.deliver(
                key,
                Ok(self.blocks[key].buffer.with_len(self.blocks[key].immediate_bytes as usize)),
            ),
            Err(error) => if error.is_pending() {
                self
            } else {
                self.discard(key)
            },
        }
    }
}

/// One step in the life of a store: each stands for one of its functions.
pub enum StoreOp {
    /// A new operation on `buffer`.
    Allocate { key: usize, event: usize, buffer: PinnedBuffer },
    /// The offset of a prepared operation is set.
    SetOffset { key: usize, offset: usize },
    /// A prepared operation is given up.
    Abandon { key: usize },
    /// A prepared operation is submitted at `now`: the callback leaves
    /// `left`, which is the buffer of the operation with nothing but its
    /// active region written, and `immediate_bytes`, and gives `answer`.
    Begin {
        key: usize,
        now: u64,
        left: PinnedBuffer,
        immediate_bytes: u32,
        answer: Result<(), Error>,
    },
    /// The poller reports the completion of a submitted operation.
    Complete { entry: CompletionEntry },
    /// An awaiter polls for its result.
    PollResult { event: usize, waker: Waker },
    /// An awaiter gives up waiting.
    ForgetResult { event: usize },
}

impl StoreState {
    /// The step `op` may be taken: what the function behind it requires.
    pub open spec fn allows(self, op: StoreOp) -> bool {
        match op {
            StoreOp::Allocate { key, event, buffer } => !self.blocks.contains_key(key)
                && !self.events.contains_key(event),
            StoreOp::SetOffset { key, offset } => self.prepared(key),
            StoreOp::Abandon { key } => self.prepared(key),
            StoreOp::Begin { key, now, left, immediate_bytes, answer } => {
                &&& self.prepared(key)
                &&& left.keeps_region_of(self.blocks[key].buffer)
                &&& answer is Ok ==> immediate_bytes <= left.spec_capacity()
            },
            StoreOp::Complete { entry } => self.in_flight(entry.key) && entry.bytes_transferred
                <= self.blocks[entry.key].buffer.spec_capacity(),
            StoreOp::PollResult { event, waker } => self.awaited(event)
                && self.events[event].state.can_poll(),
            StoreOp::ForgetResult { event } => self.awaited(event),
        }
    }

    /// The store after the step `op`: what the function behind it ensures.
    pub open spec fn step(self, op: StoreOp) -> StoreState {
        match op {
            StoreOp::Allocate { key, event, buffer } => self.allocate(key, event, buffer),
            StoreOp::SetOffset { key, offset } => self.with_block(
                key,
                self.blocks[key].with_header(Overlapped::at(offset)),
            ),
            StoreOp::Abandon { key } => self.discard(key),
            StoreOp::Begin { key, now, left, immediate_bytes, answer } => self.with_block(
                key,
                self.blocks[key].submitted(now, left, immediate_bytes),
            ).answered(key, answer),
            StoreOp::Complete { entry } => self.deliver(
                entry.key,
                spec_completion_result(
                    self.blocks[entry.key].buffer,
                    entry.bytes_transferred,
                    entry.status,
                ),
            ),
            StoreOp::PollResult { event, waker } => StoreState {
                blocks: self.blocks,
                events: self.events.insert(event, self.events[event].after_poll(waker)),
            },
            StoreOp::ForgetResult { event } => StoreState {
                blocks: self.blocks,
                events: settle(self.events, event, self.events[event].without_receiver()),
            },
        }
    }

    /// The step `op` completes the operation under `key`.
    pub open spec fn completes(op: StoreOp, key: usize) -> bool {
        op matches StoreOp::Complete { entry } && entry.key == key
    }

    /// Every step leaves a well-formed store well formed.
    pub proof fn step_keeps_wf(self, op: StoreOp)
        requires
            self.wf(),
            self.allows(op),
        ensures
            self.step(op).wf(),
    {
        let after = self.step(op);
        match op {
            StoreOp::Allocate { key, event, buffer } => {
                buffer.with_len_keeps_region(MAX_IO_LEN);
            },
            StoreOp::ForgetResult { event } => {
                // No block that waits for submission holds this receiver.
                assert forall|key: usize|
                    after.blocks.contains_key(key) && !(#[trigger] after.blocks[key]).in_flight()
                    implies self.blocks[key].event != event by {
                    assert(self.prepared(key));
                }
            },
            _ => {},
        }
    }

    /// While the operating system owns a block, the store leaves it alone:
    /// no step but the completion of its own operation touches a block that
    /// is in flight.
    pub proof fn in_flight_block_is_left_alone(self, op: StoreOp, key: usize)
        requires
            self.wf(),
            self.allows(op),
            self.in_flight(key),
            !Self::completes(op, key),
        ensures
            self.step(op).in_flight(key),
            self.step(op).blocks[key] == self.blocks[key],
    {
    }

    /// A block keeps the region of its buffer: whatever step is taken, a
    /// block that stays in the store has the buffer it had, with nothing but
    /// its active region written. Only its submission writes at all.
    pub proof fn block_keeps_its_buffer_region(self, op: StoreOp, key: usize)
        requires
            self.wf(),
            self.allows(op),
            self.blocks.contains_key(key),
            self.step(op).blocks.contains_key(key),
        ensures
            self.step(op).blocks[key].buffer.keeps_region_of(self.blocks[key].buffer),
            !(op matches StoreOp::Begin { key: begun, .. } && begun == key) ==> self.step(
                op,
            ).blocks[key].buffer == self.blocks[key].buffer,
    {
    }

    /// Whatever the answer to a submission, the buffer of the operation
    /// stays the one that was supplied. Refused, it comes back in the
    /// failure as the callback left it. Accepted, it stays in the block as
    /// the callback left it. Completed at once, it waits for the awaiter
    /// with the byte count of the callback as its active length. In each
    /// case it has the size of the buffer of the operation.
    pub proof fn submission_keeps_the_buffer(
        self,
        key: usize,
        now: u64,
        left: PinnedBuffer,
        immediate_bytes: u32,
        answer: Result<(), Error>,
        outcome: Result<RcReceiver<OperationResult>, OperationError>,
    )
        requires
            self.wf(),
            self.allows(StoreOp::Begin { key, now, left, immediate_bytes, answer }),
            outcome_of(outcome, self.blocks[key].submitted(now, left, immediate_bytes), answer),
        ensures
            left.spec_capacity() == self.blocks[key].buffer.spec_capacity(),
            ({
                let after = self.step(StoreOp::Begin { key, now, left, immediate_bytes, answer });
                let event = self.blocks[key].event;
                match answer {
                    Ok(_) => {
                        &&& outcome is Ok
                        &&& !after.blocks.contains_key(key)
                        &&& after.events[event].state.polled() == Some(
                            Ok::<PinnedBuffer, OperationError>(
                                left.with_len(immediate_bytes as usize),
                            ),
                        )
                        &&& left.with_len(immediate_bytes as usize).bytes() == left.bytes()
                        &&& left.with_len(immediate_bytes as usize).spec_len() == immediate_bytes
                    },
                    Err(error) => if error.is_pending() {
                        &&& outcome is Ok
                        &&& after.in_flight(key)
                        &&& after.blocks[key].buffer == left
                    } else {
                        &&& outcome == Err::<RcReceiver<OperationResult>, OperationError>(
                            OperationError { error, buffer: left },
                        )
                        &&& !after.blocks.contains_key(key)
                        &&& !after.events.contains_key(event)
                    },
                }
            }),
    {
        left.with_len_keeps_region(immediate_bytes as usize);
    }

    /// Every step in `ops` may be taken when its turn comes.
    pub open spec fn allows_all(self, ops: Seq<StoreOp>) -> bool
        decreases ops.len(),
    {
        ops.len() == 0 || (self.allows(ops[0]) && self.step(ops[0]).allows_all(ops.drop_first()))
    }

    /// The store after all the steps in `ops`.
    pub open spec fn run(self, ops: Seq<StoreOp>) -> StoreState
        decreases ops.len(),
    {
        if ops.len() == 0 {
            self
        } else {
            self.step(ops[0]).run(ops.drop_first())
        }
    }

    /// Whatever is done with a store, it stays well formed.
    pub proof fn run_keeps_wf(self, ops: Seq<StoreOp>)
        requires
            self.wf(),
            self.allows_all(ops),
        ensures
            self.run(ops).wf(),
        decreases ops.len(),
    {
        if ops.len() > 0 {
            self.step_keeps_wf(ops[0]);
            self.step(ops[0]).run_keeps_wf(ops.drop_first());
        }
    }

    /// From submission to completion the store leaves a block alone: through
    /// any steps, as long as none of them is the completion of its
    /// operation, a block that is in flight stays in flight and as it is.
    pub proof fn in_flight_block_waits_for_its_completion(self, ops: Seq<StoreOp>, key: usize)
        requires
            self.wf(),
            self.allows_all(ops),
            self.in_flight(key),
            forall|i: int| 0 <= i < ops.len() ==> !Self::completes(#[trigger] ops[i], key),
        ensures
            self.run(ops).in_flight(key),
            self.run(ops).blocks[key] == self.blocks[key],
        decreases ops.len(),
    {
        if ops.len() > 0 {
            self.step_keeps_wf(ops[0]);
            self.in_flight_block_is_left_alone(ops[0], key);
            self.step(ops[0]).in_flight_block_waits_for_its_completion(ops.drop_first(), key);
        }
    }

    /// The pool is empty exactly when no operation is outstanding or
    /// awaiting completion: every block in it belongs to an operation that
    /// is prepared or in flight, and to no other.
    pub proof fn empty_pool_means_nothing_outstanding(self)
        ensures
            self.blocks == Map::<usize, BlockView>::empty() <==> forall|key: usize|
                !self.prepared(key) && !self.in_flight(key),
            forall|key: usize|
                self.blocks.contains_key(key) <==> self.prepared(key) || self.in_flight(key),
    {
        if forall|key: usize| !self.prepared(key) && !self.in_flight(key) {
            assert forall|key: usize| !self.blocks.contains_key(key) by {
                assert(!self.prepared(key) && !self.in_flight(key));
            }
            assert(self.blocks =~= Map::<usize, BlockView>::empty());
        }
    }

    /// An awaiter that gives up before its operation completes leaves
    /// nothing behind: once the completion has come, the block is released
    /// and the event is gone.
    pub proof fn forgotten_result_leaves_nothing(self, entry: CompletionEntry)
        requires
            self.wf(),
            self.in_flight(entry.key),
            self.awaited(self.blocks[entry.key].event),
            entry.bytes_transferred <= self.blocks[entry.key].buffer.spec_capacity(),
        ensures
            self.allows(StoreOp::ForgetResult { event: self.blocks[entry.key].event }),
            self.step(StoreOp::ForgetResult { event: self.blocks[entry.key].event }).allows(
                StoreOp::Complete { entry },
            ),
            self.step(StoreOp::ForgetResult { event: self.blocks[entry.key].event }).step(
                StoreOp::Complete { entry },
            ) == (StoreState {
                blocks: self.blocks.remove(entry.key),
                events: self.events.remove(self.blocks[entry.key].event),
            }),
    {
        let event = self.blocks[entry.key].event;
        let forgotten = self.step(StoreOp::ForgetResult { event });
        let after = forgotten.step(StoreOp::Complete { entry });
        assert(after.events =~= self.events.remove(event));
    }

    /// An operation that the operating system accepts hands its buffer back
    /// with the byte count of its completion: the awaiter finds, ready to be
    /// collected, the buffer that the submission callback left, with the
    /// bytes transferred as its active length.
    pub proof fn accepted_operation_delivers_its_buffer(
        self,
        key: usize,
        now: u64,
        left: PinnedBuffer,
        immediate_bytes: u32,
        error: Error,
        entry: CompletionEntry,
    )
        requires
            self.wf(),
            self.prepared(key),
            left.keeps_region_of(self.blocks[key].buffer),
            error.is_pending(),
            entry.key == key,
            entry.bytes_transferred <= left.spec_capacity(),
        ensures
            ({
                let begin = StoreOp::Begin { key, now, left, immediate_bytes, answer: Err(error) };
                let complete = StoreOp::Complete { entry };
                let event = self.blocks[key].event;
                let result = spec_completion_result(left, entry.bytes_transferred, entry.status);
                let returned = match result {
                    Ok(returned) => returned,
                    Err(failure) => failure.buffer,
                };
                &&& returned.spec_capacity() == self.blocks[key].buffer.spec_capacity()
                &&& returned.bytes() == left.bytes()
                &&& returned.spec_len() == entry.bytes_transferred
                &&& self.allows(begin)
                &&& self.step(begin).in_flight(key)
                &&& self.step(begin).allows(complete)
                &&& self.step(begin).step(complete).awaited(event)
                &&& self.step(begin).step(complete).events[event].state.polled() == Some(result)
                &&& !self.step(begin).step(complete).blocks.contains_key(key)
            }),
    {
        left.with_len_keeps_region(entry.bytes_transferred as usize);
    }
}

/// A completion hands back the region it was given, whole, with the bytes
/// transferred as its active length, whether it succeeded or failed. And a
/// buffer that is cut down for submission keeps its region, with no more
/// active than one operation can transfer.
pub proof fn completion_hands_back_the_buffer(buffer: PinnedBuffer, bytes: u32, status: i32)
    ensures
        ({
            let result = spec_completion_result(buffer, bytes, status);
            let returned = match result {
                Ok(returned) => returned,
                Err(failure) => failure.buffer,
            };
            &&& result is Ok <==> status == STATUS_SUCCESS
            &&& returned.bytes() == buffer.bytes()
            &&& returned.spec_len() == bytes
            &&& returned.spec_len() <= MAX_IO_LEN
        }),
        buffer.clamped().bytes() == buffer.bytes(),
        buffer.clamped().spec_len() == (if buffer.spec_len() > MAX_IO_LEN {
            MAX_IO_LEN as nat
        } else {
            buffer.spec_len()
        }),
{
    buffer.with_len_keeps_region(bytes as usize);
    buffer.with_len_keeps_region(MAX_IO_LEN);
}

/// What `begin` hands back for the answer of the submission callback: the
/// failure with the buffer if the submission was refused, else the receiver
/// on which to wait for the result.
pub open spec fn outcome_of(
    outcome: Result<RcReceiver<OperationResult>, OperationError>,
    block: BlockView,
    answer: Result<(), Error>,
) -> bool {
    match answer {
        Ok(_) => outcome is Ok && outcome->Ok_0.key() == block.event,
        Err(error) => if error.is_pending() {
            outcome is Ok && outcome->Ok_0.key() == block.event
        } else {
            outcome == Err::<RcReceiver<OperationResult>, OperationError>(
                OperationError { error, buffer: block.buffer },
            )
        },
    }
}

} // verus!
