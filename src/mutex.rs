//! A mutex for tasks that may hold its guard across suspension points.
//!
//! The guard owns the protected value while it lives, so at most one guard
//! can exist. Releasing it puts the value back, clears the lock and hands
//! out every task that waited, all at once: they race to lock again, with
//! no order among them.
//!
//! A waiting task is known by the identity of its waker, a `u64`.
use vstd::prelude::*;

verus! {

/// What a mutex holds, as the contracts see it.
pub struct MutexView<T> {
    pub locked: bool,
    /// The protected value while no guard holds it.
    pub value: Option<T>,
    /// The wakers of the tasks that wait for the lock, each once.
    pub wakers: Seq<u64>,
}

impl<T> MutexView<T> {
    /// The state after a guard was handed out.
    pub open spec fn acquired(self) -> MutexView<T> {
        MutexView { locked: true, value: None, ..self }
    }

    /// The state after a guard holding `v` was released: unlocked, with no
    /// waiter left.
    pub open spec fn released(self, v: T) -> MutexView<T> {
        MutexView { locked: false, value: Some(v), wakers: Seq::empty() }
    }

    /// The state after a task with waker `w` found the mutex locked.
    pub open spec fn waited(self, w: u64) -> MutexView<T> {
        MutexView { wakers: add_waker_spec(self.wakers, w), ..self }
    }
}

/// `wakers` with `w` appended, unless it is there already.
pub open spec fn add_waker_spec(wakers: Seq<u64>, w: u64) -> Seq<u64> {
    if wakers.contains(w) {
        wakers
    } else {
        wakers.push(w)
    }
}

/// `wakers` with `w` taken out, where it is there.
pub open spec fn remove_waker_spec(wakers: Seq<u64>, w: u64) -> Seq<u64> {
    if wakers.contains(w) {
        wakers.remove(choose|i: int| 0 <= i < wakers.len() && wakers[i] == w)
    } else {
        wakers
    }
}

/// An async mutex.
pub struct Mutex<T> {
    locked: bool,
    wakers: Vec<u64>,
    data: Option<T>,
}

/// The pending lock operation returned by [`Mutex::lock`].
pub struct Lock {}

/// Exclusive access to the value of a mutex; hand it back with
/// [`Mutex::unlock`].
pub struct MutexGuard<T> {
    data: T,
}

impl<T> MutexGuard<T> {
    pub closed spec fn view(&self) -> T {
        self.data
    }

    /// Locks `mutex` and takes its value.
    fn new(mutex: &mut Mutex<T>) -> (r: Self)
        requires
            old(mutex).wf(),
            !old(mutex).view().locked,
        ensures
            final(mutex).wf(),
            r.view() == old(mutex).view().value->Some_0,
            final(mutex).view() == old(mutex).view().acquired(),
    {
        mutex.locked = true;
        let data = mutex.data.take().unwrap();
        MutexGuard { data }
    }

    /// The protected value.
    pub fn deref(&self) -> (r: &T)
        ensures
            *r == self.view(),
    {
        &self.data
    }

    /// The protected value, to change it.
    pub fn deref_mut(&mut self) -> (r: &mut T)
        ensures
            *r == old(self).view(),
            final(self).view() == *final(r),
    {
        &mut self.data
    }
}

impl<T> Mutex<T> {
    /// Each waker is recorded once, and the value is there exactly while
    /// the mutex is unlocked.
    pub open spec fn wf(&self) -> bool {
        &&& self.view().wakers.no_duplicates()
        &&& (self.view().value is Some <==> !self.view().locked)
    }

    pub closed spec fn view(&self) -> MutexView<T> {
        MutexView { locked: self.locked, value: self.data, wakers: self.wakers@ }
    }

    /// Creates a new mutex in an unlocked state ready for use.
    pub fn new(t: T) -> (r: Mutex<T>)
        ensures
            r.wf(),
            r.view() == (MutexView { locked: false, value: Some(t), wakers: Seq::<u64>::empty() }),
    {
        let r = Mutex { locked: false, wakers: Vec::new(), data: Some(t) };
        assert(r.view().wakers =~= Seq::<u64>::empty());
        r
    }

    /// Returns the operation that acquires the mutex once polled.
    ///
    /// Nothing happens until it is polled.
    pub fn lock(&self) -> (r: Lock) {
        Lock {}
    }

    /// Acquires the mutex where it is unlocked; never waits.
    pub fn try_lock(&mut self) -> (r: Option<MutexGuard<T>>)
        requires
            old(self).wf(),
        ensures
            final(self).wf(),
            old(self).view().locked ==> r is None && final(self).view() == old(self).view(),
            !old(self).view().locked ==> r is Some && r->Some_0.view() == old(self).view().value->Some_0
                && final(self).view() == old(self).view().acquired(),
    {
        if self.locked {
            None
        } else {
            Some(MutexGuard::new(self))
        }
    }

    /// Releases the mutex: puts the guard's value back, unlocks, and returns
    /// the wakers of every task that waited, which must now be woken.
    pub fn unlock(&mut self, guard: MutexGuard<T>) -> (woken: Vec<u64>)
        requires
            old(self).wf(),
            old(self).view().locked,
        ensures
            final(self).wf(),
            final(self).view() == old(self).view().released(guard.view()),
            woken@ == old(self).view().wakers,
    {
        self.data = Some(guard.data);
        self.locked = false;
        self.wake_all()
    }

    /// Whether a guard holds the mutex.
    pub fn is_locked(&self) -> (r: bool)
        ensures
            r == self.view().locked,
    {
        self.locked
    }

    /// Consumes the mutex and returns its value.
    pub fn into_inner(self) -> (r: T)
        requires
            self.wf(),
            !self.view().locked,
        ensures
            r == self.view().value->Some_0,
    {
        self.data.unwrap()
    }

    /// The value, to change it without locking: the mutable borrow
    /// already rules out any other access.
    pub fn get_mut(&mut self) -> (r: &mut T)
        requires
            old(self).wf(),
            !old(self).view().locked,
        ensures
            *r == old(self).view().value->Some_0,
            final(self).view() == (MutexView { value: Some(*final(r)), ..old(self).view() }),
    {
        self.data.as_mut().unwrap()
    }

    /// Records that the task with waker `waker` waits for the lock.
    fn add_waker(&mut self, waker: u64)
        requires
            old(self).wf(),
        ensures
            final(self).wf(),
            final(self).view() == old(self).view().waited(waker),
    {
        let mut i: usize = 0;
        while i < self.wakers.len()
            invariant
                0 <= i <= self.wakers@.len(),
                self.wf(),
                self.view() == old(self).view(),
                forall|j: int| 0 <= j < i ==> self.wakers@[j] != waker,
            decreases self.wakers@.len() - i,
        {
            if self.wakers[i] == waker {
                return;
            }
            i = i + 1;
        }
        self.wakers.push(waker);
    }

    /// Forgets the task with waker `waker`: its lock operation was dropped
    /// before it got the guard.
    pub fn remove_waker(&mut self, waker: u64)
        requires
            old(self).wf(),
        ensures
            final(self).wf(),
            final(self).view() == (MutexView {
                wakers: remove_waker_spec(old(self).view().wakers, waker),
                ..old(self).view()
            }),
    {
        let mut i: usize = 0;
        while i < self.wakers.len()
            invariant
                0 <= i <= self.wakers@.len(),
                self.wf(),
                self.view() == old(self).view(),
                forall|j: int| 0 <= j < i ==> self.wakers@[j] != waker,
            decreases self.wakers@.len() - i,
        {
            if self.wakers[i] == waker {
                let ghost before = self.wakers@;
                self.wakers.remove(i);
                proof {
                    let c = choose|k: int| 0 <= k < before.len() && before[k] == waker;
                    assert(before[i as int] == waker);
                    assert(c == i);
                    assert forall|a: int, b: int|
                        0 <= a < self.wakers@.len() && 0 <= b < self.wakers@.len() && a != b
                            implies self.wakers@[a] != self.wakers@[b] by {
                        let oa = if a < i { a } else { a + 1 };
                        let ob = if b < i { b } else { b + 1 };
                        assert(self.wakers@[a] == before[oa]);
                        assert(self.wakers@[b] == before[ob]);
                    }
                }
                return;
            }
            i = i + 1;
        }
        proof {
            assert(!self.wakers@.contains(waker));
        }
    }

    /// Empties the waiter list and returns it.
    fn wake_all(&mut self) -> (r: Vec<u64>)
        ensures
            r@ == old(self).view().wakers,
            final(self).view() == (MutexView { wakers: Seq::<u64>::empty(), ..old(self).view() }),
    {
        let mut out: Vec<u64> = Vec::new();
        std::mem::swap(&mut self.wakers, &mut out);
        assert(self.wakers@ =~= Seq::<u64>::empty());
        out
    }
}

impl Lock {
    /// Polls the lock operation on behalf of the task with waker `waker`.
    ///
    /// Where the mutex is unlocked it is locked and the guard comes back.
    /// Where it is locked the waker is recorded, once, to be woken when the
    /// guard is released, and the task is pending.
    pub fn poll<T>(&mut self, mutex: &mut Mutex<T>, waker: u64) -> (r: Option<MutexGuard<T>>)
        requires
            old(mutex).wf(),
        ensures
            final(mutex).wf(),
            old(mutex).view().locked ==> r is None && final(mutex).view() == old(mutex).view().waited(
                waker,
            ),
            !old(mutex).view().locked ==> r is Some && r->Some_0.view() == old(
                mutex,
            ).view().value->Some_0 && final(mutex).view() == old(mutex).view().acquired(),
    {
        if mutex.locked {
            mutex.add_waker(waker);
            None
        } else {
            Some(MutexGuard::new(mutex))
        }
    }
}

/// One event of an interleaving of tasks around one mutex.
pub enum MutexEvent<T> {
    /// The task with this waker tries to lock: a poll of its lock operation.
    Attempt(u64),
    /// The task that holds the guard releases it, with this value in it.
    Release(T),
}

/// The mutex and the number of live guards after one event, following the
/// contracts of [`Lock::poll`] and [`Mutex::unlock`]. Only a task that holds
/// the guard can release it.
pub open spec fn mutex_step<T>(s: (MutexView<T>, nat), e: MutexEvent<T>) -> (MutexView<T>, nat) {
    match e {
        MutexEvent::Attempt(w) => if s.0.locked {
            (s.0.waited(w), s.1)
        } else {
            (s.0.acquired(), s.1 + 1)
        },
        MutexEvent::Release(v) => if s.1 > 0 {
            (s.0.released(v), (s.1 - 1) as nat)
        } else {
            s
        },
    }
}

/// The mutex and the number of live guards after a sequence of events.
pub open spec fn mutex_run<T>(s: (MutexView<T>, nat), es: Seq<MutexEvent<T>>) -> (MutexView<T>, nat)
    decreases es.len(),
{
    if es.len() == 0 {
        s
    } else {
        mutex_step(mutex_run(s, es.drop_last()), es.last())
    }
}

/// Whatever the interleaving of lock attempts and releases, starting from
/// an unlocked mutex with no guard, at most one guard is live at any time,
/// and one is live exactly while the mutex is locked.
pub proof fn lemma_at_most_one_guard<T>(m: MutexView<T>, es: Seq<MutexEvent<T>>)
    requires
        !m.locked,
    ensures
        mutex_run((m, 0), es).1 <= 1,
        mutex_run((m, 0), es).1 == 1 <==> mutex_run((m, 0), es).0.locked,
    decreases es.len(),
{
    if es.len() > 0 {
        lemma_at_most_one_guard(m, es.drop_last());
    }
}

} // verus!
