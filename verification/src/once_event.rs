//! An event that is set at most once and delivers its value to at most one
//! listener.

use crate::pool::Pool;
use std::marker::PhantomData;
use std::rc::Rc;
use std::task::Poll;
use std::task::Waker;
use vstd::prelude::*;

verus! {

/// What a once-event holds at one moment.
#[derive(Debug)]
pub enum EventState<T> {
    /// Not set, and nobody is listening.
    NotSet,
    /// Not set, and a listener left the handle by which to wake it.
    Awaiting(Waker),
    /// Set, and the value has not been collected.
    Ready(T),
    /// Set, and the value has been collected. Nothing leads out of here.
    Consumed,
}

impl<T> EventState<T> {
    /// A value may be set: none has been set before.
    pub open spec fn can_set(self) -> bool {
        self is NotSet || self is Awaiting
    }

    /// The listener may poll: it has not collected the value yet.
    pub open spec fn can_poll(self) -> bool {
        !(self is Consumed)
    }

    /// The state that setting `value` leads to.
    pub open spec fn after_set(self, value: T) -> EventState<T> {
        EventState::Ready(value)
    }

    /// The handle that setting a value wakes, if a listener is waiting.
    pub open spec fn woken_by_set(self) -> Option<Waker> {
        match self {
            EventState::Awaiting(waker) => Some(waker),
            _ => None,
        }
    }

    /// The state that a poll with `waker` leads to.
    pub open spec fn after_poll(self, waker: Waker) -> EventState<T> {
        match self {
            EventState::Ready(_) => EventState::Consumed,
            _ => EventState::Awaiting(waker),
        }
    }

    /// What a poll yields: the value if one is ready, else nothing.
    pub open spec fn polled(self) -> Option<T> {
        match self {
            EventState::Ready(value) => Some(value),
            _ => None,
        }
    }
}

/// One use of a once-event by one of its two ends.
#[derive(Debug)]
pub enum EventOp<T> {
    /// The producer sets a value.
    Send(T),
    /// The consumer polls, leaving a wake handle.
    Listen(Waker),
}

impl<T> EventState<T> {
    /// The value that is set and waits to be collected, if there is one.
    pub open spec fn waiting_value(self) -> Seq<T> {
        match self {
            EventState::Ready(value) => seq![value],
            _ => Seq::empty(),
        }
    }

    /// The use `op` is allowed in this state.
    pub open spec fn allows(self, op: EventOp<T>) -> bool {
        match op {
            EventOp::Send(_) => self.can_set(),
            EventOp::Listen(_) => self.can_poll(),
        }
    }

    /// The state that `op` leads to.
    pub open spec fn step(self, op: EventOp<T>) -> EventState<T> {
        match op {
            EventOp::Send(value) => self.after_set(value),
            EventOp::Listen(waker) => self.after_poll(waker),
        }
    }

    /// Every use in `ops` is allowed when its turn comes.
    pub open spec fn allows_all(self, ops: Seq<EventOp<T>>) -> bool
        decreases ops.len(),
    {
        ops.len() == 0 || (self.allows(ops[0]) && self.step(ops[0]).allows_all(ops.drop_first()))
    }

    /// The state after all of `ops`.
    pub open spec fn run(self, ops: Seq<EventOp<T>>) -> EventState<T>
        decreases ops.len(),
    {
        if ops.len() == 0 {
            self
        } else {
            self.step(ops[0]).run(ops.drop_first())
        }
    }

    /// The values that the consumer collects in the course of `ops`.
    pub open spec fn delivered(self, ops: Seq<EventOp<T>>) -> Seq<T>
        decreases ops.len(),
    {
        if ops.len() == 0 {
            Seq::empty()
        } else {
            let rest = self.step(ops[0]).delivered(ops.drop_first());
            match ops[0] {
                EventOp::Send(_) => rest,
                EventOp::Listen(_) => self.waiting_value() + rest,
            }
        }
    }
}

/// The values that the producer sets in the course of `ops`.
pub open spec fn sent<T>(ops: Seq<EventOp<T>>) -> Seq<T>
    decreases ops.len(),
{
    if ops.len() == 0 {
        Seq::empty()
    } else {
        match ops[0] {
            EventOp::Send(value) => seq![value] + sent(ops.drop_first()),
            EventOp::Listen(_) => sent(ops.drop_first()),
        }
    }
}

/// From any state, and through any uses that the state machine allows: what
/// was collected, followed by what still waits, is what waited at the start
/// followed by what was set since. And a value is set only if none was set
/// before, so at most once.
pub proof fn delivery_follows_sending<T>(start: EventState<T>, ops: Seq<EventOp<T>>)
    requires
        start.allows_all(ops),
    ensures
        start.delivered(ops) + start.run(ops).waiting_value() == start.waiting_value() + sent(ops),
        sent(ops).len() <= (if start.can_set() { 1nat } else { 0nat }),
    decreases ops.len(),
{
    if ops.len() > 0 {
        delivery_follows_sending(start.step(ops[0]), ops.drop_first());
    }
}

/// Both orders work. A value that is set before the consumer polls is what
/// the poll yields. A consumer that polls first is woken when the value is
/// set, through the handle it left last, and its next poll yields the value.
pub proof fn either_order_delivers<T>(value: T, first: Waker, last: Waker, again: Waker)
    ensures
        EventState::<T>::NotSet.after_set(value).polled() == Some(value),
        EventState::<T>::NotSet.after_set(value).after_poll(again) is Consumed,
        EventState::<T>::NotSet.after_poll(first).polled() is None,
        EventState::<T>::NotSet.after_poll(first).after_poll(last).woken_by_set() == Some(last),
        EventState::<T>::NotSet.after_poll(first).after_poll(last).after_set(value).polled()
            == Some(value),
{
}

/// A once-event delivers what was set, once: over the whole life of an
/// event, the consumer collects at most one value, and exactly the one the
/// producer set unless that value still waits to be collected.
pub proof fn delivers_what_was_set_once<T>(ops: Seq<EventOp<T>>)
    requires
        EventState::<T>::NotSet.allows_all(ops),
    ensures
        sent(ops).len() <= 1,
        EventState::<T>::NotSet.delivered(ops).len() <= sent(ops).len(),
        !(EventState::<T>::NotSet.run(ops) is Ready) ==> EventState::<T>::NotSet.delivered(ops)
            == sent(ops),
        EventState::<T>::NotSet.run(ops) is Ready ==> EventState::<T>::NotSet.delivered(ops).len()
            == 0 && sent(ops) == seq![EventState::<T>::NotSet.run(ops)->Ready_0],
{
    delivery_follows_sending(EventState::<T>::NotSet, ops);
}

/// Once a value has been set, no second one can be: from a state that
/// allows no set, through whatever uses the state machine allows, no use is
/// a set, and the state reached allows none.
pub proof fn set_once_is_set_for_good<T>(state: EventState<T>, ops: Seq<EventOp<T>>)
    requires
        !state.can_set(),
        state.allows_all(ops),
    ensures
        !state.run(ops).can_set(),
        forall|i: int| 0 <= i < ops.len() ==> !(#[trigger] ops[i] is Send),
    decreases ops.len(),
{
    if ops.len() > 0 {
        let rest = ops.drop_first();
        set_once_is_set_for_good(state.step(ops[0]), rest);
        assert forall|i: int| 0 <= i < ops.len() implies !(#[trigger] ops[i] is Send) by {
            if i > 0 {
                assert(ops[i] == rest[i - 1]);
            }
        }
    }
}

/// A second set is never allowed, and a poll after the value was collected
/// is never allowed: the state after a set allows no set, whatever it was
/// before, and the state after the value was collected allows nothing.
pub proof fn second_set_is_refused<T>(state: EventState<T>, value: T, waker: Waker, op: EventOp<T>)
    ensures
        !state.after_set(value).can_set(),
        !state.after_set(value).allows(EventOp::Send(value)),
        !state.after_set(value).after_poll(waker).allows(op),
{
}

/// An event that can be set at most once, to deliver one value to at most one
/// listener. Setting before polling and polling before setting both work, and
/// neither blocks.
#[derive(Debug)]
pub struct OnceEvent<T> {
    state: EventState<T>,
    /// Keeps the event on the thread that made it.
    marker: PhantomData<Rc<T>>,
}

impl<T> OnceEvent<T> {
    /// The state of the event.
    pub closed spec fn view(&self) -> EventState<T> {
        self.state
    }

    pub fn new() -> (event: Self)
        ensures
            event@ is NotSet,
    {
        OnceEvent { state: EventState::NotSet, marker: PhantomData }
    }

    /// Stores `result` and hands back the wake handle of the listener that was
    /// waiting for it, if there was one. The caller wakes it.
    ///
    /// A second set is an error of the caller. It is outside the contract;
    /// a caller that is held to no contract is stopped before the event is
    /// touched.
    pub fn fill(&mut self, result: T) -> (waiting: Option<Waker>)
        requires
            old(self)@.can_set(),
        ensures
            final(self)@ == old(self)@.after_set(result),
            waiting == old(self)@.woken_by_set(),
    {
        if !self.can_set() {
            unreached()
        }
        let mut previous = EventState::Ready(result);
        std::mem::swap(&mut self.state, &mut previous);
        match previous {
            EventState::Awaiting(waker) => Some(waker),
            _ => None,
        }
    }

    /// Sets the event. A listener that polled before is woken through the
    /// handle it left last.
    pub fn set(&mut self, result: T)
        requires
            old(self)@.can_set(),
        ensures
            final(self)@ == old(self)@.after_set(result),
    {
        match self.fill(result) {
            Some(waker) => waker.wake(),
            None => {},
        }
    }

    /// Collects the value if it is there; otherwise leaves a copy of `waker`
    /// in place of any handle left before, and yields nothing.
    ///
    /// A poll after the value was collected is an error of the caller. It is
    /// outside the contract; a caller that is held to no contract is stopped
    /// before the event is touched.
    pub fn poll(&mut self, waker: &Waker) -> (result: Option<T>)
        requires
            old(self)@.can_poll(),
        ensures
            final(self)@ == old(self)@.after_poll(*waker),
            result == old(self)@.polled(),
    {
        if !self.can_poll() {
            unreached()
        }
        let mut previous = EventState::Consumed;
        std::mem::swap(&mut self.state, &mut previous);
        match previous {
            EventState::Ready(value) => Some(value),
            _ => {
                self.state = EventState::Awaiting(waker.clone());
                None
            },
        }
    }

    /// Whether a value may still be set.
    pub fn can_set(&self) -> (yes: bool)
        ensures
            yes == self@.can_set(),
    {
        match &self.state {
            EventState::NotSet => true,
            EventState::Awaiting(_) => true,
            _ => false,
        }
    }

    /// Whether the listener may still poll.
    pub fn can_poll(&self) -> (yes: bool)
        ensures
            yes == self@.can_poll(),
    {
        match &self.state {
            EventState::Consumed => false,
            _ => true,
        }
    }
}

/// A once-event together with the ends that still refer to it.
pub struct CellView<T> {
    pub state: EventState<T>,
    /// The sender exists: it has neither set the event nor been given up.
    pub sender: bool,
    /// The receiver exists: it has not been given up.
    pub receiver: bool,
}

impl<T> CellView<T> {
    /// A new event with both of its ends.
    pub open spec fn fresh() -> Self {
        CellView { state: EventState::NotSet, sender: true, receiver: true }
    }

    /// An event that nobody refers to and that was never used.
    pub open spec fn idle() -> Self {
        CellView { state: EventState::NotSet, sender: false, receiver: false }
    }

    pub open spec fn ref_count(self) -> nat {
        (if self.sender { 1nat } else { 0nat }) + (if self.receiver { 1nat } else { 0nat })
    }

    pub open spec fn referenced(self) -> bool {
        self.sender || self.receiver
    }

    /// While the sender exists, nothing has been set.
    pub open spec fn wf(self) -> bool {
        self.sender ==> self.state.can_set()
    }

    /// The sender sets `value` and is gone.
    pub open spec fn after_set(self, value: T) -> Self {
        CellView { state: self.state.after_set(value), sender: false, receiver: self.receiver }
    }

    /// The receiver polls with `waker`.
    pub open spec fn after_poll(self, waker: Waker) -> Self {
        CellView {
            state: self.state.after_poll(waker),
            sender: self.sender,
            receiver: self.receiver,
        }
    }

    /// The sender is given up without setting anything.
    pub open spec fn without_sender(self) -> Self {
        CellView { state: self.state, sender: false, receiver: self.receiver }
    }

    /// The receiver is given up.
    pub open spec fn without_receiver(self) -> Self {
        CellView { state: self.state, sender: self.sender, receiver: false }
    }
}

/// Storage for one once-event, with a count of the ends that refer to it:
/// two when the event is created, one less for each end that is done.
struct EventCell<T> {
    event: OnceEvent<T>,
    refs: usize,
    sender: Ghost<bool>,
    receiver: Ghost<bool>,
}

impl<T> EventCell<T> {
    spec fn view(&self) -> CellView<T> {
        CellView { state: self.event@, sender: self.sender@, receiver: self.receiver@ }
    }

    /// The count is the number of ends that exist.
    spec fn wf(&self) -> bool {
        &&& self.refs == self@.ref_count()
        &&& self@.wf()
    }

    /// A cell that nobody refers to.
    fn idle() -> (cell: Self)
        ensures
            cell.wf(),
            cell@ == CellView::<T>::idle(),
    {
        EventCell { event: OnceEvent::new(), refs: 0, sender: Ghost(false), receiver: Ghost(false) }
    }

    /// A cell with a new event, counted once for its sender and once for its
    /// receiver.
    fn fresh() -> (cell: Self)
        ensures
            cell.wf(),
            cell@ == CellView::<T>::fresh(),
    {
        EventCell { event: OnceEvent::new(), refs: 2, sender: Ghost(true), receiver: Ghost(true) }
    }

    fn ref_count(&self) -> (count: usize)
        requires
            self.wf(),
        ensures
            count == self@.ref_count(),
    {
        self.refs
    }

    fn is_referenced(&self) -> (referenced: bool)
        requires
            self.wf(),
        ensures
            referenced == self@.referenced(),
    {
        self.refs > 0
    }

    /// Sets the event on behalf of the sender, which is thereby done.
    fn set(&mut self, result: T)
        requires
            old(self).wf(),
            old(self)@.sender,
        ensures
            final(self).wf(),
            final(self)@ == old(self)@.after_set(result),
    {
        self.event.set(result);
        self.refs = self.refs - 1;
        self.sender = Ghost(false);
    }

    /// Polls the event on behalf of the receiver.
    fn poll(&mut self, waker: &Waker) -> (result: Option<T>)
        requires
            old(self).wf(),
            old(self)@.receiver,
            old(self)@.state.can_poll(),
        ensures
            final(self).wf(),
            final(self)@ == old(self)@.after_poll(*waker),
            result == old(self)@.state.polled(),
    {
        self.event.poll(waker)
    }

    /// Gives up the sender without setting the event.
    fn drop_sender(&mut self)
        requires
            old(self).wf(),
            old(self)@.sender,
        ensures
            final(self).wf(),
            final(self)@ == old(self)@.without_sender(),
    {
        self.refs = self.refs - 1;
        self.sender = Ghost(false);
    }

    /// Gives up the receiver.
    fn drop_receiver(&mut self)
        requires
            old(self).wf(),
            old(self)@.receiver,
        ensures
            final(self).wf(),
            final(self)@ == old(self)@.without_receiver(),
    {
        self.refs = self.refs - 1;
        self.receiver = Ghost(false);
    }
}

/// The cells of a storage after the cell under `key` has become `cell`: a
/// cell that nothing refers to any more leaves the storage.
pub open spec fn settle<T>(cells: Map<usize, CellView<T>>, key: usize, cell: CellView<T>) -> Map<
    usize,
    CellView<T>,
> {
    if cell.referenced() {
        cells.insert(key, cell)
    } else {
        cells.remove(key)
    }
}

/// What a receiver reports for what its event yields.
pub open spec fn poll_of<T>(polled: Option<T>) -> Poll<T> {
    match polled {
        Some(value) => Poll::Ready(value),
        None => Poll::Pending,
    }
}

fn to_poll<T>(polled: Option<T>) -> (result: Poll<T>)
    ensures
        result == poll_of(polled),
{
    match polled {
        Some(value) => Poll::Ready(value),
        None => Poll::Pending,
    }
}

/// Pooled storage for once-events. An event stays in it for as long as its
/// sender or its receiver exists.
pub struct OnceEventSlabStorage<T> {
    cells: Pool<EventCell<T>>,
}

impl<T> OnceEventSlabStorage<T> {
    /// The events in the storage, by key.
    pub closed spec fn view(&self) -> Map<usize, CellView<T>> {
        Map::new(|key: usize| self.cells@.contains_key(key), |key: usize| self.cells@[key]@)
    }

    pub closed spec fn wf(&self) -> bool {
        &&& self.cells.wf()
        &&& forall|key: usize|
            self.cells@.contains_key(key) ==> (#[trigger] self.cells@[key]).wf()
                && self.cells@[key]@.referenced()
    }

    /// The key that the next event will get.
    pub closed spec fn spec_next_key(&self) -> usize {
        self.cells.spec_next_key()
    }

    /// The event under `key` still has its sender.
    pub open spec fn has_sender(&self, key: usize) -> bool {
        self@.contains_key(key) && self@[key].sender
    }

    /// The event under `key` still has its receiver.
    pub open spec fn has_receiver(&self, key: usize) -> bool {
        self@.contains_key(key) && self@[key].receiver
    }

    /// Every event in the storage has an end that refers to it, and none that
    /// still has its sender has been set.
    pub proof fn events_are_referenced(&self)
        requires
            self.wf(),
        ensures
            forall|key: usize| #[trigger]
                self@.contains_key(key) ==> self@[key].referenced() && self@[key].wf(),
            !self@.contains_key(self.spec_next_key()),
    {
        self.cells.next_key_is_vacant();
    }

    pub fn new() -> (storage: Self)
        ensures
            storage.wf(),
            storage@ == Map::<usize, CellView<T>>::empty(),
    {
        let storage = OnceEventSlabStorage { cells: Pool::new() };
        storage
    }

    /// Whether the storage holds no event.
    pub fn is_empty(&self) -> (empty: bool)
        requires
            self.wf(),
        ensures
            empty <==> self@ == Map::<usize, CellView<T>>::empty(),
            empty <==> forall|key: usize| !self@.contains_key(key),
    {
        let empty = self.cells.is_empty();
        proof {
            if empty {
                assert(self@ =~= Map::<usize, CellView<T>>::empty());
            } else if forall|key: usize| !self@.contains_key(key) {
                assert forall|key: usize| !self.cells@.contains_key(key) by {
                    assert(!self@.contains_key(key));
                }
            }
        }
        empty
    }

    /// The number of events in the storage.
    pub fn len(&self) -> (count: usize)
        requires
            self.wf(),
        ensures
            count == self@.dom().len(),
    {
        proof {
            assert(self@.dom() =~= self.cells@.dom());
        }
        self.cells.len()
    }

    /// Adds a new event and returns its key.
    pub(crate) fn add(&mut self) -> (key: usize)
        requires
            old(self).wf(),
        ensures
            final(self).wf(),
            key == old(self).spec_next_key(),
            !old(self)@.contains_key(key),
            final(self)@ == old(self)@.insert(key, CellView::fresh()),
    {
        let key = self.cells.insert(EventCell::fresh());
        key
    }

    /// Removes the cell under `key` if nothing refers to it any more.
    fn collect(&mut self, key: usize)
        requires
            old(self).cells.wf(),
            old(self).cells@.contains_key(key),
            old(self).cells@[key].wf(),
            forall|other: usize|
                other != key && old(self).cells@.contains_key(other) ==> (
                #[trigger] old(self).cells@[other]).wf() && old(self).cells@[other]@.referenced(),
        ensures
            final(self).wf(),
            final(self)@ == settle(old(self)@.remove(key), key, old(self).cells@[key]@),
    {
        if !self.cells.get(key).is_referenced() {
            let _ = self.cells.remove(key);
        }
    }

    /// Sets the event under `key` on behalf of its sender.
    pub(crate) fn set_at(&mut self, key: usize, result: T)
        requires
            old(self).wf(),
            old(self).has_sender(key),
        ensures
            final(self).wf(),
            final(self)@ == settle(old(self)@, key, old(self)@[key].after_set(result)),
    {
        let cell = self.cells.get_mut(key);
        cell.set(result);
        self.collect(key);
    }

    /// Polls the event under `key` on behalf of its receiver.
    pub(crate) fn poll_at(&mut self, key: usize, waker: &Waker) -> (result: Option<T>)
        requires
            old(self).wf(),
            old(self).has_receiver(key),
            old(self)@[key].state.can_poll(),
        ensures
            final(self).wf(),
            final(self)@ == old(self)@.insert(key, old(self)@[key].after_poll(*waker)),
            result == old(self)@[key].state.polled(),
    {
        let cell = self.cells.get_mut(key);
        let result = cell.poll(waker);
        result
    }

    /// Gives up the sender of the event under `key` without setting it.
    pub(crate) fn drop_sender_at(&mut self, key: usize)
        requires
            old(self).wf(),
            old(self).has_sender(key),
        ensures
            final(self).wf(),
            final(self)@ == settle(old(self)@, key, old(self)@[key].without_sender()),
    {
        let cell = self.cells.get_mut(key);
        cell.drop_sender();
        self.collect(key);
    }

    /// Gives up the receiver of the event under `key`.
    pub(crate) fn drop_receiver_at(&mut self, key: usize)
        requires
            old(self).wf(),
            old(self).has_receiver(key),
        ensures
            final(self).wf(),
            final(self)@ == settle(old(self)@, key, old(self)@[key].without_receiver()),
    {
        let cell = self.cells.get_mut(key);
        cell.drop_receiver();
        self.collect(key);
    }
}

impl<T> OnceEvent<T> {
    /// Creates the pooled storage that the borrowed, the shared and the
    /// caller-guarded events live in.
    pub fn new_slab_storage() -> (storage: OnceEventSlabStorage<T>)
        ensures
            storage.wf(),
            storage@ == Map::<usize, CellView<T>>::empty(),
    {
        OnceEventSlabStorage::new()
    }

    /// Creates storage for one event that is embedded in a structure of the
    /// caller. It starts inert.
    pub fn new_embedded_storage() -> (storage: OnceEventEmbeddedStorage<T>)
        ensures
            storage.wf(),
            storage@ == CellView::<T>::idle(),
    {
        OnceEventEmbeddedStorage::default()
    }

    /// Creates an event in `storage` and returns its two ends, for use within
    /// the scope that holds the storage.
    pub fn new_in_ref(storage: &mut OnceEventSlabStorage<T>) -> (ends: (
        RefSender<T>,
        RefReceiver<T>,
    ))
        requires
            old(storage).wf(),
        ensures
            final(storage).wf(),
            ends.0.key() == old(storage).spec_next_key(),
            ends.1.key() == ends.0.key(),
            !old(storage)@.contains_key(ends.0.key()),
            final(storage)@ == old(storage)@.insert(ends.0.key(), CellView::fresh()),
    {
        let key = storage.add();
        (RefSender { key, marker: PhantomData }, RefReceiver { key, marker: PhantomData })
    }

    /// Creates an event in `storage` and returns its two ends, for events
    /// that outlive the scope that created them.
    pub fn new_in_rc(storage: &mut OnceEventSlabStorage<T>) -> (ends: (RcSender<T>, RcReceiver<T>))
        requires
            old(storage).wf(),
        ensures
            final(storage).wf(),
            ends.0.key() == old(storage).spec_next_key(),
            ends.1.key() == ends.0.key(),
            !old(storage)@.contains_key(ends.0.key()),
            final(storage)@ == old(storage)@.insert(ends.0.key(), CellView::fresh()),
    {
        let key = storage.add();
        (RcSender { key, marker: PhantomData }, RcReceiver { key, marker: PhantomData })
    }

    /// Creates an event in `storage` and returns its two ends. The caller
    /// sees to it that the storage outlives both.
    pub fn new_in_unsafe(storage: &mut OnceEventSlabStorage<T>) -> (ends: (
        UnsafeSender<T>,
        UnsafeReceiver<T>,
    ))
        requires
            old(storage).wf(),
        ensures
            final(storage).wf(),
            ends.0.key() == old(storage).spec_next_key(),
            ends.1.key() == ends.0.key(),
            !old(storage)@.contains_key(ends.0.key()),
            final(storage)@ == old(storage)@.insert(ends.0.key(), CellView::fresh()),
    {
        let key = storage.add();
        (UnsafeSender { key, marker: PhantomData }, UnsafeReceiver { key, marker: PhantomData })
    }

    /// Puts a new event into `storage`, which must be inert, and returns its
    /// two ends.
    pub fn new_embedded(storage: &mut OnceEventEmbeddedStorage<T>) -> (ends: (
        EmbeddedSender<T>,
        EmbeddedReceiver<T>,
    ))
        requires
            old(storage).wf(),
            !old(storage)@.referenced(),
        ensures
            final(storage).wf(),
            final(storage)@ == CellView::<T>::fresh(),
    {
        storage.cell = EventCell::fresh();
        (EmbeddedSender { marker: PhantomData }, EmbeddedReceiver { marker: PhantomData })
    }
}

/// The sending end of an event in storage that the caller lends for each call.
#[derive(Debug)]
pub struct RefSender<T> {
    key: usize,
    marker: PhantomData<Rc<T>>,
}

impl<T> RefSender<T> {
    /// The key of the event in its storage.
    pub closed spec fn key(&self) -> usize {
        self.key
    }

    /// Sets the event. If its receiver is gone already, nothing refers to the
    /// event any more and it leaves the storage with the value.
    pub fn set(self, storage: &mut OnceEventSlabStorage<T>, result: T)
        requires
            old(storage).wf(),
            old(storage).has_sender(self.key()),
        ensures
            final(storage).wf(),
            final(storage)@ == settle(
                old(storage)@,
                self.key(),
                old(storage)@[self.key()].after_set(result),
            ),
    {
        storage.set_at(self.key, result)
    }

    /// Gives the sender up without setting the event.
    pub fn release(self, storage: &mut OnceEventSlabStorage<T>)
        requires
            old(storage).wf(),
            old(storage).has_sender(self.key()),
        ensures
            final(storage).wf(),
            final(storage)@ == settle(
                old(storage)@,
                self.key(),
                old(storage)@[self.key()].without_sender(),
            ),
    {
        storage.drop_sender_at(self.key)
    }
}

/// The receiving end of an event in storage that the caller lends for each call.
#[derive(Debug)]
pub struct RefReceiver<T> {
    key: usize,
    marker: PhantomData<Rc<T>>,
}

impl<T> RefReceiver<T> {
    /// The key of the event in its storage.
    pub closed spec fn key(&self) -> usize {
        self.key
    }

    /// Collects the value if the event has been set; otherwise leaves `waker`
    /// with the event, in place of any handle left before.
    pub fn poll(&mut self, storage: &mut OnceEventSlabStorage<T>, waker: &Waker) -> (result: Poll<
        T,
    >)
        requires
            old(storage).wf(),
            old(storage).has_receiver(old(self).key()),
            old(storage)@[old(self).key()].state.can_poll(),
        ensures
            final(self).key() == old(self).key(),
            final(storage).wf(),
            final(storage)@ == old(storage)@.insert(
                old(self).key(),
                old(storage)@[old(self).key()].after_poll(*waker),
            ),
            result == poll_of(old(storage)@[old(self).key()].state.polled()),
    {
        to_poll(storage.poll_at(self.key, waker))
    }

    /// Gives the receiver up.
    pub fn release(self, storage: &mut OnceEventSlabStorage<T>)
        requires
            old(storage).wf(),
            old(storage).has_receiver(self.key()),
        ensures
            final(storage).wf(),
            final(storage)@ == settle(
                old(storage)@,
                self.key(),
                old(storage)@[self.key()].without_receiver(),
            ),
    {
        storage.drop_receiver_at(self.key)
    }
}

/// The sending end of an event that may outlive the scope that created it.
#[derive(Debug)]
pub struct RcSender<T> {
    key: usize,
    marker: PhantomData<Rc<T>>,
}

impl<T> RcSender<T> {
    /// The key of the event in its storage.
    pub closed spec fn key(&self) -> usize {
        self.key
    }

    /// Sets the event. If its receiver is gone already, nothing refers to the
    /// event any more and it leaves the storage with the value.
    pub fn set(self, storage: &mut OnceEventSlabStorage<T>, result: T)
        requires
            old(storage).wf(),
            old(storage).has_sender(self.key()),
        ensures
            final(storage).wf(),
            final(storage)@ == settle(
                old(storage)@,
                self.key(),
                old(storage)@[self.key()].after_set(result),
            ),
    {
        storage.set_at(self.key, result)
    }

    /// Gives the sender up without setting the event.
    pub fn release(self, storage: &mut OnceEventSlabStorage<T>)
        requires
            old(storage).wf(),
            old(storage).has_sender(self.key()),
        ensures
            final(storage).wf(),
            final(storage)@ == settle(
                old(storage)@,
                self.key(),
                old(storage)@[self.key()].without_sender(),
            ),
    {
        storage.drop_sender_at(self.key)
    }
}

/// The receiving end of an event that may outlive the scope that created it.
#[derive(Debug)]
pub struct RcReceiver<T> {
    key: usize,
    marker: PhantomData<Rc<T>>,
}

impl<T> RcReceiver<T> {
    /// The key of the event in its storage.
    pub closed spec fn key(&self) -> usize {
        self.key
    }

    /// Collects the value if the event has been set; otherwise leaves `waker`
    /// with the event, in place of any handle left before.
    pub fn poll(&mut self, storage: &mut OnceEventSlabStorage<T>, waker: &Waker) -> (result: Poll<
        T,
    >)
        requires
            old(storage).wf(),
            old(storage).has_receiver(old(self).key()),
            old(storage)@[old(self).key()].state.can_poll(),
        ensures
            final(self).key() == old(self).key(),
            final(storage).wf(),
            final(storage)@ == old(storage)@.insert(
                old(self).key(),
                old(storage)@[old(self).key()].after_poll(*waker),
            ),
            result == poll_of(old(storage)@[old(self).key()].state.polled()),
    {
        to_poll(storage.poll_at(self.key, waker))
    }

    /// Gives the receiver up.
    pub fn release(self, storage: &mut OnceEventSlabStorage<T>)
        requires
            old(storage).wf(),
            old(storage).has_receiver(self.key()),
        ensures
            final(storage).wf(),
            final(storage)@ == settle(
                old(storage)@,
                self.key(),
                old(storage)@[self.key()].without_receiver(),
            ),
    {
        storage.drop_receiver_at(self.key)
    }
}

/// The sending end of an event whose storage the caller keeps alive.
#[derive(Debug)]
pub struct UnsafeSender<T> {
    key: usize,
    marker: PhantomData<Rc<T>>,
}

impl<T> UnsafeSender<T> {
    /// The key of the event in its storage.
    pub closed spec fn key(&self) -> usize {
        self.key
    }

    /// Sets the event. If its receiver is gone already, nothing refers to the
    /// event any more and it leaves the storage with the value.
    pub fn set(self, storage: &mut OnceEventSlabStorage<T>, result: T)
        requires
            old(storage).wf(),
            old(storage).has_sender(self.key()),
        ensures
            final(storage).wf(),
            final(storage)@ == settle(
                old(storage)@,
                self.key(),
                old(storage)@[self.key()].after_set(result),
            ),
    {
        storage.set_at(self.key, result)
    }

    /// Gives the sender up without setting the event.
    pub fn release(self, storage: &mut OnceEventSlabStorage<T>)
        requires
            old(storage).wf(),
            old(storage).has_sender(self.key()),
        ensures
            final(storage).wf(),
            final(storage)@ == settle(
                old(storage)@,
                self.key(),
                old(storage)@[self.key()].without_sender(),
            ),
    {
        storage.drop_sender_at(self.key)
    }
}

/// The receiving end of an event whose storage the caller keeps alive.
#[derive(Debug)]
pub struct UnsafeReceiver<T> {
    key: usize,
    marker: PhantomData<Rc<T>>,
}

impl<T> UnsafeReceiver<T> {
    /// The key of the event in its storage.
    pub closed spec fn key(&self) -> usize {
        self.key
    }

    /// Collects the value if the event has been set; otherwise leaves `waker`
    /// with the event, in place of any handle left before.
    pub fn poll(&mut self, storage: &mut OnceEventSlabStorage<T>, waker: &Waker) -> (result: Poll<
        T,
    >)
        requires
            old(storage).wf(),
            old(storage).has_receiver(old(self).key()),
            old(storage)@[old(self).key()].state.can_poll(),
        ensures
            final(self).key() == old(self).key(),
            final(storage).wf(),
            final(storage)@ == old(storage)@.insert(
                old(self).key(),
                old(storage)@[old(self).key()].after_poll(*waker),
            ),
            result == poll_of(old(storage)@[old(self).key()].state.polled()),
    {
        to_poll(storage.poll_at(self.key, waker))
    }

    /// Gives the receiver up.
    pub fn release(self, storage: &mut OnceEventSlabStorage<T>)
        requires
            old(storage).wf(),
            old(storage).has_receiver(self.key()),
        ensures
            final(storage).wf(),
            final(storage)@ == settle(
                old(storage)@,
                self.key(),
                old(storage)@[self.key()].without_receiver(),
            ),
    {
        storage.drop_receiver_at(self.key)
    }
}

/// Storage for one once-event that is embedded in a structure of the caller.
/// It counts the ends of its event, and is inert, free to take a new event,
/// when the count is zero.
pub struct OnceEventEmbeddedStorage<T> {
    cell: EventCell<T>,
}

impl<T> OnceEventEmbeddedStorage<T> {
    /// The event in the storage and the ends that refer to it.
    pub closed spec fn view(&self) -> CellView<T> {
        self.cell@
    }

    pub closed spec fn wf(&self) -> bool {
        self.cell.wf()
    }

    /// An event that still has its sender has not been set.
    pub proof fn event_is_unset_while_sender_lives(&self)
        requires
            self.wf(),
        ensures
            self@.wf(),
    {
    }

    /// Whether neither end refers to the storage.
    pub fn is_inert(&self) -> (inert: bool)
        requires
            self.wf(),
        ensures
            inert == !self@.referenced(),
            inert <==> self@.ref_count() == 0,
    {
        !self.cell.is_referenced()
    }

    /// The number of ends that refer to the storage: at most two.
    pub fn ref_count(&self) -> (count: usize)
        requires
            self.wf(),
        ensures
            count == self@.ref_count(),
            count <= 2,
    {
        self.cell.ref_count()
    }
}

impl<T> Default for OnceEventEmbeddedStorage<T> {
    fn default() -> (storage: Self)
        ensures
            storage.wf(),
            storage@ == CellView::<T>::idle(),
    {
        OnceEventEmbeddedStorage { cell: EventCell::idle() }
    }
}

/// The sending end of an embedded once-event.
#[derive(Debug)]
pub struct EmbeddedSender<T> {
    marker: PhantomData<Rc<T>>,
}

impl<T> EmbeddedSender<T> {
    /// Sets the event and takes the sender off the count of the storage.
    pub fn set(self, storage: &mut OnceEventEmbeddedStorage<T>, result: T)
        requires
            old(storage).wf(),
            old(storage)@.sender,
        ensures
            final(storage).wf(),
            final(storage)@ == old(storage)@.after_set(result),
    {
        storage.cell.set(result)
    }
}

/// The receiving end of an embedded once-event.
#[derive(Debug)]
pub struct EmbeddedReceiver<T> {
    marker: PhantomData<Rc<T>>,
}

impl<T> EmbeddedReceiver<T> {
    /// Collects the value if the event has been set; otherwise leaves `waker`
    /// with the event, in place of any handle left before.
    pub fn poll(&mut self, storage: &mut OnceEventEmbeddedStorage<T>, waker: &Waker) -> (result:
        Poll<T>)
        requires
            old(storage).wf(),
            old(storage)@.receiver,
            old(storage)@.state.can_poll(),
        ensures
            final(storage).wf(),
            final(storage)@ == old(storage)@.after_poll(*waker),
            result == poll_of(old(storage)@.state.polled()),
    {
        to_poll(storage.cell.poll(waker))
    }

    /// Gives the receiver up and takes it off the count of the storage.
    pub fn release(self, storage: &mut OnceEventEmbeddedStorage<T>)
        requires
            old(storage).wf(),
            old(storage)@.receiver,
        ensures
            final(storage).wf(),
            final(storage)@ == old(storage)@.without_receiver(),
    {
        storage.cell.drop_receiver()
    }
}

} // verus!
