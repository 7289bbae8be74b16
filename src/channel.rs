//! A bounded multi-producer, multi-consumer channel.
//!
//! The buffer of a channel of capacity `N` is a ring of `N` slots of which
//! at most `N - 1` are occupied at once: `tail == head` means empty, and the
//! buffer is full when advancing `head` would reach `tail`.
//!
//! The box keeps count of the live sender and receiver handles. Operations
//! never block: where a blocking operation would wait on the coordination
//! primitive, they report it, and where a party sleeping on the primitive
//! must be woken, they say so in their result.
use crate::context::TaskPoll;
use vstd::arithmetic::div_mod::{lemma_mod_add_multiples_vanish, lemma_small_mod};
use vstd::prelude::*;

verus! {

/// What a channel holds, as the contracts see it.
pub struct ChannelView<T> {
    /// The queued values, oldest first.
    pub items: Seq<T>,
    /// The number of slots of the ring; one of them always stays free.
    pub capacity: nat,
    /// The number of live sender handles.
    pub senders: nat,
    /// The number of live receiver handles.
    pub receivers: nat,
}

impl<T> ChannelView<T> {
    /// A value can be queued: there is a receiver and the buffer is not
    /// full.
    pub open spec fn can_send(self) -> bool {
        self.receivers > 0 && !self.is_full()
    }

    /// The buffer holds `capacity - 1` values.
    pub open spec fn is_full(self) -> bool {
        self.items.len() + 1 == self.capacity
    }

    /// The same channel with `v` queued at the back.
    pub open spec fn pushed(self, v: T) -> ChannelView<T> {
        ChannelView { items: self.items.push(v), ..self }
    }

    /// The same channel with its oldest value taken away.
    pub open spec fn popped(self) -> ChannelView<T> {
        ChannelView { items: self.items.drop_first(), ..self }
    }

    /// The same channel with every value of `vs` queued, in order.
    pub open spec fn pushed_all(self, vs: Seq<T>) -> ChannelView<T> {
        ChannelView { items: self.items + vs, ..self }
    }

    /// The same channel with its `n` oldest values taken away.
    pub open spec fn popped_n(self, n: nat) -> ChannelView<T> {
        ChannelView { items: self.items.skip(n as int), ..self }
    }
}

/// Why a value could not be sent without waiting; the value comes back.
#[derive(Debug, PartialEq, Eq)]
pub enum TrySendError<T> {
    /// No receiver is left: nobody will ever take the value.
    Disconnected(T),
    /// Every usable slot is occupied.
    Full(T),
}

/// Why a value could not be sent before a deadline; the value comes back.
#[derive(Debug, PartialEq, Eq)]
pub enum SendTimeoutError<T> {
    /// No receiver is left.
    Disconnected(T),
    /// The deadline passed while the buffer stayed full.
    Timeout(T),
}

/// Why no value could be received without waiting.
#[derive(Debug, PartialEq, Eq)]
pub enum TryRecvError {
    /// No sender is left and the buffer is empty.
    Disconnected,
    /// The buffer is empty, but a sender may still send.
    Empty,
}

/// Why no value could be received before a deadline.
#[derive(Debug, PartialEq, Eq)]
pub enum RecvTimeoutError {
    /// No sender is left and the buffer is empty.
    Disconnected,
    /// The deadline passed while the buffer stayed empty.
    Timeout,
}

/// A value taken from the channel.
#[derive(Debug, PartialEq, Eq)]
pub struct Received<T> {
    pub value: T,
    /// The buffer was full before: a sender may sleep on the coordination
    /// primitive, which must be woken.
    pub wake: bool,
}

/// One step of a blocking send.
#[derive(Debug, PartialEq, Eq)]
pub enum SendStep<T> {
    /// The value is queued; `wake` says whether the primitive must be woken.
    Sent { wake: bool },
    /// The buffer is full: wait on the primitive, then try again.
    Wait(T),
    /// No receiver is left; the value comes back.
    Disconnected(T),
}

/// One step of a blocking receive.
#[derive(Debug, PartialEq, Eq)]
pub enum RecvStep<T> {
    /// A value was taken.
    Received(Received<T>),
    /// The buffer is empty: wait on the primitive, then try again.
    Wait,
    /// No sender is left and the buffer is empty.
    Disconnected,
}

/// The shared state of a channel: a ring buffer and the endpoint counts.
pub struct ChannelBox<T> {
    data: Vec<Option<T>>,
    /// First occupied slot. If `tail == head` the buffer is empty.
    tail: usize,
    /// First empty slot. If `tail == head` the buffer is empty.
    head: usize,
    rx_count: usize,
    tx_count: usize,
}

impl<T> ChannelBox<T> {
    spec fn n(&self) -> int {
        self.data@.len() as int
    }

    /// The number of occupied slots.
    spec fn len_spec(&self) -> int {
        if self.tail <= self.head {
            self.head - self.tail
        } else {
            self.head + self.n() - self.tail
        }
    }

    /// The slot of the `k`-th oldest value.
    spec fn slot(&self, k: int) -> int {
        if self.tail + k < self.n() {
            self.tail + k
        } else {
            self.tail + k - self.n()
        }
    }

    /// Slot `i` lies in `[tail, head)`, taken cyclically.
    spec fn occupied(&self, i: int) -> bool {
        if self.tail <= self.head {
            self.tail <= i < self.head
        } else {
            i >= self.tail || i < self.head
        }
    }

    /// The ring is consistent: exactly the slots in `[tail, head)` hold a
    /// value.
    pub closed spec fn wf(&self) -> bool {
        &&& self.n() >= 1
        &&& self.tail < self.n()
        &&& self.head < self.n()
        &&& forall|i: int| 0 <= i < self.n() ==> (#[trigger] self.data@[i] is Some) == self.occupied(i)
    }

    pub closed spec fn view(&self) -> ChannelView<T> {
        ChannelView {
            items: Seq::new(self.len_spec() as nat, |k: int| self.data@[self.slot(k)]->Some_0),
            capacity: self.data@.len(),
            senders: self.tx_count as nat,
            receivers: self.rx_count as nat,
        }
    }

    proof fn lemma_slots(&self)
        requires
            self.wf(),
        ensures
            0 <= self.len_spec() < self.n(),
            forall|k: int| 0 <= k < self.len_spec() ==> 0 <= #[trigger] self.slot(k) < self.n() && self.occupied(self.slot(k)),
            self.len_spec() < self.n() - 1 ==> !self.occupied(self.head as int),
            self.len_spec() > 0 ==> self.slot(0) == self.tail,
            self.slot(self.len_spec()) == self.head,
    {
    }

    /// A consistent ring has at least one slot, and one slot always stays
    /// free.
    pub proof fn lemma_bounds(&self)
        requires
            self.wf(),
        ensures
            self.view().capacity >= 1,
            self.view().items.len() < self.view().capacity,
    {
        self.lemma_slots();
    }

    /// A channel with `capacity` slots, no queued value and no endpoint.
    pub fn new(capacity: usize) -> (r: Self)
        requires
            capacity >= 1,
        ensures
            r.wf(),
            r.view().items.len() == 0,
            r.view().capacity == capacity,
            r.view().senders == 0,
            r.view().receivers == 0,
    {
        let mut data: Vec<Option<T>> = Vec::new();
        let mut i: usize = 0;
        while i < capacity
            invariant
                i <= capacity,
                data@.len() == i,
                forall|j: int| 0 <= j < i ==> #[trigger] data@[j] is None,
            decreases capacity - i,
        {
            data.push(None);
            i = i + 1;
        }
        let r = ChannelBox { data, tail: 0, head: 0, rx_count: 0, tx_count: 0 };
        assert(r.view().items =~= Seq::<T>::empty());
        r
    }

    /// Every usable slot is occupied.
    pub fn is_full(&self) -> (r: bool)
        requires
            self.wf(),
        ensures
            r == self.view().is_full(),
    {
        self.data.len() - self.len() == 1
    }

    /// The number of queued values.
    pub fn len(&self) -> (r: usize)
        requires
            self.wf(),
        ensures
            r == self.view().items.len(),
            r < self.view().capacity,
    {
        if self.tail <= self.head {
            self.head - self.tail
        } else {
            self.head + (self.data.len() - self.tail)
        }
    }

    /// No value is queued.
    pub fn is_empty(&self) -> (r: bool)
        requires
            self.wf(),
        ensures
            r == (self.view().items.len() == 0),
    {
        self.tail == self.head
    }

    /// The slot of the oldest queued value, where there is one.
    pub closed spec fn tail_slot(&self) -> nat {
        self.tail as nat
    }

    /// The slot of the oldest queued value, where there is one.
    pub fn tail(&self) -> (r: usize)
        requires
            self.wf(),
        ensures
            r == self.tail_slot(),
            r < self.view().capacity,
    {
        self.tail
    }

    /// The slot that the next queued value goes to: the one after the
    /// queued values, cyclically.
    pub fn head(&self) -> (r: usize)
        requires
            self.wf(),
        ensures
            r == (self.tail_slot() + self.view().items.len()) % self.view().capacity,
    {
        proof {
            let n = self.n();
            if self.tail <= self.head {
                lemma_small_mod(self.head as nat, n as nat);
            } else {
                lemma_mod_add_multiples_vanish(self.head as int, n);
                lemma_small_mod(self.head as nat, n as nat);
            }
        }
        self.head
    }

    fn push_back(&mut self, v: T)
        requires
            old(self).wf(),
            !old(self).view().is_full(),
        ensures
            final(self).wf(),
            final(self).view() == old(self).view().pushed(v),
    {
        proof {
            self.lemma_slots();
        }
        let head = self.head;
        self.data.set(head, Some(v));
        self.head = if head == self.data.len() - 1 { 0 } else { head + 1 };
        proof {
            let o = old(self).view();
            let f = self.view();
            assert(self.len_spec() == old(self).len_spec() + 1);
            assert forall|k: int| 0 <= k < self.len_spec() implies #[trigger] self.slot(k) == old(self).slot(k) by {}
            assert(f.items =~= o.items.push(v));
        }
    }

    /// Queues `v`, or hands it back where every usable slot is occupied.
    fn try_push_back(&mut self, v: T) -> (r: Result<(), T>)
        requires
            old(self).wf(),
        ensures
            final(self).wf(),
            if old(self).view().is_full() {
                r == Err::<(), T>(v) && final(self).view() == old(self).view()
            } else {
                r is Ok && final(self).view() == old(self).view().pushed(v)
            },
    {
        if self.is_full() {
            return Err(v);
        }
        self.push_back(v);
        Ok(())
    }

    fn pop_front(&mut self) -> (r: T)
        requires
            old(self).wf(),
            old(self).view().items.len() > 0,
        ensures
            final(self).wf(),
            r == old(self).view().items[0],
            final(self).view() == old(self).view().popped(),
    {
        proof {
            self.lemma_slots();
        }
        let tail = self.tail;
        let slot = self.data[tail].take();
        self.tail = if tail == self.data.len() - 1 { 0 } else { tail + 1 };
        proof {
            let o = old(self).view();
            let f = self.view();
            assert(self.len_spec() == old(self).len_spec() - 1);
            assert forall|k: int| 0 <= k < self.len_spec() implies #[trigger] self.slot(k) == old(self).slot(k + 1) by {}
            assert(f.items =~= o.items.drop_first());
        }
        slot.unwrap()
    }

    /// Takes the oldest value, if there is one.
    fn try_pop_front(&mut self) -> (r: Option<T>)
        requires
            old(self).wf(),
        ensures
            final(self).wf(),
            if old(self).view().items.len() == 0 {
                r is None && final(self).view() == old(self).view()
            } else {
                r == Some(old(self).view().items[0]) && final(self).view() == old(self).view().popped()
            },
    {
        if self.is_empty() {
            return None;
        }
        Some(self.pop_front())
    }

    /// Queues `v` without waiting.
    ///
    /// Fails with `Disconnected` where no receiver is left, which is checked
    /// first, and with `Full` where every usable slot is occupied; either way
    /// the value comes back and nothing changes. On success the result says
    /// whether the coordination primitive must be woken: it must where the
    /// buffer was empty, since only then can a receiver be asleep.
    pub fn try_send(&mut self, v: T) -> (r: Result<bool, TrySendError<T>>)
        requires
            old(self).wf(),
        ensures
            final(self).wf(),
            old(self).view().receivers == 0 ==> r == Err::<bool, _>(TrySendError::Disconnected(v))
                && final(self).view() == old(self).view(),
            old(self).view().receivers > 0 && old(self).view().is_full() ==> r == Err::<bool, _>(
                TrySendError::Full(v),
            ) && final(self).view() == old(self).view(),
            old(self).view().can_send() ==> r == Ok::<bool, TrySendError<T>>(
                old(self).view().items.len() == 0,
            ) && final(self).view() == old(self).view().pushed(v),
    {
        proof {
            self.lemma_slots();
        }
        if self.rx_count == 0 {
            // Only a receiver can create another receiver, so nobody will
            // ever take this value.
            return Err(TrySendError::Disconnected(v));
        }
        let was_empty = self.is_empty();
        match self.try_push_back(v) {
            Err(v) => Err(TrySendError::Full(v)),
            Ok(()) => Ok(was_empty),
        }
    }

    /// One step of a blocking send of `v`.
    ///
    /// Where the buffer is full the caller waits on the coordination
    /// primitive and calls again with the value that came back; each call
    /// checks again that a receiver is left, so a sender that waits when the
    /// last receiver goes away fails with `Disconnected`.
    pub fn send(&mut self, v: T) -> (r: SendStep<T>)
        requires
            old(self).wf(),
        ensures
            final(self).wf(),
            old(self).view().receivers == 0 ==> r == SendStep::Disconnected(v) && final(self).view()
                == old(self).view(),
            old(self).view().receivers > 0 && old(self).view().is_full() ==> r == SendStep::Wait(v)
                && final(self).view() == old(self).view(),
            old(self).view().can_send() ==> r == (SendStep::<T>::Sent {
                wake: old(self).view().items.len() == 0,
            }) && final(self).view() == old(self).view().pushed(v),
    {
        match self.try_send(v) {
            Ok(wake) => SendStep::Sent { wake },
            Err(TrySendError::Full(v)) => SendStep::Wait(v),
            Err(TrySendError::Disconnected(v)) => SendStep::Disconnected(v),
        }
    }

    /// Takes the oldest value without waiting.
    ///
    /// Fails with `Disconnected` only where no sender is left and the buffer
    /// is empty: values queued before the last sender went away can still be
    /// taken. Fails with `Empty` where the buffer is empty but a sender is
    /// left. On success the result says whether the coordination primitive
    /// must be woken: it must where the buffer was full, since only then can
    /// a sender be asleep.
    pub fn try_recv(&mut self) -> (r: Result<Received<T>, TryRecvError>)
        requires
            old(self).wf(),
        ensures
            final(self).wf(),
            old(self).view().items.len() == 0 ==> final(self).view() == old(self).view() && r == Err::<
                Received<T>,
                _,
            >(if old(self).view().senders == 0 {
                TryRecvError::Disconnected
            } else {
                TryRecvError::Empty
            }),
            old(self).view().items.len() > 0 ==> final(self).view() == old(self).view().popped() && r
                == Ok::<_, TryRecvError>(
                (Received { value: old(self).view().items[0], wake: old(self).view().is_full() }),
            ),
    {
        proof {
            self.lemma_slots();
        }
        if self.tx_count == 0 && self.is_empty() {
            // Only a sender can create another sender, so nobody will ever
            // send a value here.
            return Err(TryRecvError::Disconnected);
        }
        let was_full = self.is_full();
        match self.try_pop_front() {
            Some(value) => Ok(Received { value, wake: was_full }),
            None => Err(TryRecvError::Empty),
        }
    }

    /// One step of a blocking receive.
    ///
    /// Where the buffer is empty and a sender is left the caller waits on the
    /// coordination primitive and calls again.
    pub fn recv(&mut self) -> (r: RecvStep<T>)
        requires
            old(self).wf(),
        ensures
            final(self).wf(),
            old(self).view().items.len() == 0 ==> final(self).view() == old(self).view() && r == (if old(
                self,
            ).view().senders == 0 {
                RecvStep::<T>::Disconnected
            } else {
                RecvStep::<T>::Wait
            }),
            old(self).view().items.len() > 0 ==> final(self).view() == old(self).view().popped() && r
                == RecvStep::Received(
                (Received { value: old(self).view().items[0], wake: old(self).view().is_full() }),
            ),
    {
        match self.try_recv() {
            Ok(received) => RecvStep::Received(received),
            Err(TryRecvError::Empty) => RecvStep::Wait,
            Err(TryRecvError::Disconnected) => RecvStep::Disconnected,
        }
    }

    /// No sender and no receiver is left.
    pub fn no_refs(&self) -> (r: bool)
        ensures
            r == (self.view().senders == 0 && self.view().receivers == 0),
    {
        self.rx_count == 0 && self.tx_count == 0
    }

    /// Counts one more receiver.
    pub fn inc_rx(&mut self)
        requires
            old(self).view().receivers < usize::MAX,
        ensures
            final(self).wf() == old(self).wf(),
            final(self).view() == (ChannelView { receivers: old(self).view().receivers + 1, ..old(self).view() }),
    {
        Self::inc(&mut self.rx_count);
        assert(self.view().items =~= old(self).view().items);
    }

    /// Counts one more sender.
    pub fn inc_tx(&mut self)
        requires
            old(self).view().senders < usize::MAX,
        ensures
            final(self).wf() == old(self).wf(),
            final(self).view() == (ChannelView { senders: old(self).view().senders + 1, ..old(self).view() }),
    {
        Self::inc(&mut self.tx_count);
        assert(self.view().items =~= old(self).view().items);
    }

    fn inc(count: &mut usize)
        requires
            *old(count) < usize::MAX,
        ensures
            *final(count) == *old(count) + 1,
    {
        *count = *count + 1;
    }

    /// Counts one sender fewer.
    pub fn dec_tx(&mut self)
        requires
            old(self).view().senders > 0,
        ensures
            final(self).wf() == old(self).wf(),
            final(self).view() == (ChannelView { senders: (old(self).view().senders - 1) as nat, ..old(self).view() }),
    {
        Self::dec(&mut self.tx_count);
        assert(self.view().items =~= old(self).view().items);
    }

    /// Counts one receiver fewer.
    pub fn dec_rx(&mut self)
        requires
            old(self).view().receivers > 0,
        ensures
            final(self).wf() == old(self).wf(),
            final(self).view() == (ChannelView { receivers: (old(self).view().receivers - 1) as nat, ..old(self).view() }),
    {
        Self::dec(&mut self.rx_count);
        assert(self.view().items =~= old(self).view().items);
    }

    /// Decrements a count; a count of zero has no handle left to drop.
    fn dec(count: &mut usize)
        requires
            *old(count) > 0,
        ensures
            *final(count) == *old(count) - 1,
    {
        *count = *count - 1;
    }

    /// The number of live senders.
    pub fn tx(&self) -> (r: usize)
        ensures
            r == self.view().senders,
    {
        self.tx_count
    }

    /// The number of live receivers.
    pub fn rx(&self) -> (r: usize)
        ensures
            r == self.view().receivers,
    {
        self.rx_count
    }

    /// Takes the box apart once no endpoint is left, handing out each value
    /// that is still queued, oldest first, exactly once.
    pub fn into_remaining(self) -> (r: Vec<T>)
        requires
            self.wf(),
            self.view().senders == 0,
            self.view().receivers == 0,
        ensures
            r@ == self.view().items,
    {
        let ghost all = self.view().items;
        let mut this = self;
        let mut out: Vec<T> = Vec::new();
        while !this.is_empty()
            invariant
                this.wf(),
                all == out@ + this.view().items,
            decreases this.view().items.len(),
        {
            let v = this.pop_front();
            out.push(v);
            proof {
                assert(all =~= out@ + this.view().items);
            }
        }
        assert(all =~= out@);
        out
    }
}

/// A send that waits while the buffer is full: the value stays here until
/// it is queued, or until the last receiver is gone and it comes back.
pub struct Send<T> {
    value: Option<T>,
}

impl<T> Send<T> {
    /// The value still to send, while the send is not done.
    pub closed spec fn view(&self) -> Option<T> {
        self.value
    }

    /// A send of `v`, not started yet.
    pub fn new(v: T) -> (r: Send<T>)
        ensures
            r.view() == Some(v),
    {
        Send { value: Some(v) }
    }

    /// Polls the send on `chan`: it is done once the value is queued, with
    /// whether the coordination primitive must be woken, or once no
    /// receiver is left, with the value back; while the buffer is full it
    /// is pending, and the task waits on the primitive.
    pub fn poll(&mut self, chan: &mut ChannelBox<T>) -> (r: TaskPoll<Result<bool, T>>)
        requires
            old(chan).wf(),
            old(self).view() is Some,
        ensures
            final(chan).wf(),
            old(chan).view().receivers == 0 ==> r == TaskPoll::Ready(
                Err::<bool, T>(old(self).view()->Some_0),
            ) && final(chan).view() == old(chan).view() && final(self).view() is None,
            old(chan).view().receivers > 0 && old(chan).view().is_full() ==> r is Pending
                && final(chan).view() == old(chan).view() && final(self).view() == old(self).view(),
            old(chan).view().can_send() ==> r == TaskPoll::Ready(
                Ok::<bool, T>(old(chan).view().items.len() == 0),
            ) && final(chan).view() == old(chan).view().pushed(old(self).view()->Some_0)
                && final(self).view() is None,
    {
        let v = self.value.take().unwrap();
        match chan.send(v) {
            SendStep::Sent { wake } => TaskPoll::Ready(Ok(wake)),
            SendStep::Wait(v) => {
                self.value = Some(v);
                TaskPoll::Pending
            },
            SendStep::Disconnected(v) => TaskPoll::Ready(Err(v)),
        }
    }
}

/// From an empty channel with a receiver, each of the first `capacity - 1`
/// sends finds a free slot, one value at a time; after them the buffer is
/// full, so the next send has to wait, and one receive makes room for it
/// again.
pub proof fn lemma_usable_capacity<T>(w: ChannelView<T>, vs: Seq<T>)
    requires
        w.items.len() == 0,
        w.receivers > 0,
        w.capacity >= 1,
        vs.len() == w.capacity - 1,
    ensures
        forall|i: int|
            0 <= i < vs.len() ==> (#[trigger] w.pushed_all(vs.take(i))).can_send() && w.pushed_all(
                vs.take(i),
            ).pushed(vs[i]) == w.pushed_all(vs.take(i + 1)),
        w.pushed_all(vs.take(vs.len() as int)) == w.pushed_all(vs),
        w.pushed_all(vs).is_full(),
        !w.pushed_all(vs).can_send(),
        w.capacity >= 2 ==> w.pushed_all(vs).popped().can_send(),
{
    assert forall|i: int| 0 <= i < vs.len() implies (#[trigger] w.pushed_all(vs.take(i))).can_send()
        && w.pushed_all(vs.take(i)).pushed(vs[i]) == w.pushed_all(vs.take(i + 1)) by {
        assert(w.items + vs.take(i + 1) =~= (w.items + vs.take(i)).push(vs[i]));
    }
    assert(vs.take(vs.len() as int) =~= vs);
}

/// Values come out in the order in which they went in: after `vs` is sent
/// to an empty channel, the `i`-th receive takes `vs[i]`.
pub proof fn lemma_fifo<T>(w: ChannelView<T>, vs: Seq<T>)
    requires
        w.items.len() == 0,
    ensures
        forall|i: int|
            0 <= i < vs.len() ==> (#[trigger] w.pushed_all(vs).popped_n(i as nat)).items.len() > 0
                && w.pushed_all(vs).popped_n(i as nat).items[0] == vs[i]
                && w.pushed_all(vs).popped_n(i as nat).popped() == w.pushed_all(vs).popped_n(
                (i + 1) as nat,
            ),
        w.pushed_all(vs).popped_n(vs.len()).items.len() == 0,
{
    let f = w.pushed_all(vs);
    assert(f.items =~= vs);
    assert forall|i: int| 0 <= i < vs.len() implies (#[trigger] f.popped_n(i as nat)).items.len() > 0
        && f.popped_n(i as nat).items[0] == vs[i] && f.popped_n(i as nat).popped() == f.popped_n(
        (i + 1) as nat,
    ) by {
        assert(f.items.skip(i).drop_first() =~= f.items.skip(i + 1));
    }
}

/// Once the last sender is gone, every value that is still queued can be
/// received, oldest first; only then is the buffer empty, and a receive
/// fails with `Disconnected`.
pub proof fn lemma_drain_without_senders<T>(w: ChannelView<T>)
    requires
        w.senders == 0,
    ensures
        forall|i: int|
            0 <= i < w.items.len() ==> (#[trigger] w.popped_n(i as nat)).items.len() > 0 && w.popped_n(
                i as nat,
            ).items[0] == w.items[i] && w.popped_n(i as nat).popped() == w.popped_n((i + 1) as nat)
                && w.popped_n(i as nat).senders == 0,
        w.popped_n(w.items.len()).items.len() == 0,
{
    assert forall|i: int| 0 <= i < w.items.len() implies (#[trigger] w.popped_n(i as nat)).items.len()
        > 0 && w.popped_n(i as nat).items[0] == w.items[i] && w.popped_n(i as nat).popped()
        == w.popped_n((i + 1) as nat) && w.popped_n(i as nat).senders == 0 by {
        assert(w.items.skip(i).drop_first() =~= w.items.skip(i + 1));
    }
}

} // verus!
