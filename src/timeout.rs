//! Bounds the time a task may take.
//!
//! A [`Timeout`] wraps a task with an optional deadline. Each poll first
//! polls the inner task, unless the deadline has passed and the extra check
//! is off, and a ready inner task wins even at or after the deadline. Past
//! the deadline the poll fails with [`Error::Expired`]; before it, the
//! wrapper registers a wake-up at the deadline. Without a deadline it never
//! expires.
//!
//! The inner task is polled by the caller, through [`Timeout::future_mut`],
//! when [`Timeout::polls_inner`] says so; [`Timeout::poll`] then decides
//! from what that poll gave.
use crate::context::{Context, SuspensionReason, TaskPoll};
use crate::time::Instant;
use vstd::prelude::*;

verus! {

/// Error of a task run under a deadline.
#[derive(Debug, PartialEq, Eq)]
pub enum Error<E> {
    /// The deadline passed before the task was ready.
    Expired,
    /// The task itself failed.
    Failed(E),
}

/// A task bounded by a deadline; made by [`timeout`] and [`deadline`].
pub struct Timeout<F> {
    future: F,
    /// Whether the inner task gets one more poll once the deadline passed.
    extra_check: bool,
    deadline: Option<Instant>,
}

/// The settings of a [`Timeout`], as the contracts see them.
pub struct TimeoutView {
    pub extra_check: bool,
    pub deadline: Option<Instant>,
}

impl TimeoutView {
    /// The deadline has passed at `now`.
    pub open spec fn is_timeout(self, now: Instant) -> bool {
        match self.deadline {
            Some(d) => now.nanos >= d.nanos,
            None => false,
        }
    }

    /// A poll at `now` polls the inner task first.
    pub open spec fn polls_inner(self, now: Instant) -> bool {
        self.extra_check || !self.is_timeout(now)
    }

    /// What a poll at `now` returns, where `inner` is what the poll of the
    /// inner task gave (`None`: pending, or not polled).
    pub open spec fn outcome<T, E>(self, now: Instant, inner: Option<Result<T, E>>) -> TaskPoll<
        Result<T, Error<E>>,
    > {
        match inner {
            Some(Ok(v)) => TaskPoll::Ready(Ok(v)),
            Some(Err(e)) => TaskPoll::Ready(Err(Error::Failed(e))),
            None => if self.is_timeout(now) {
                TaskPoll::Ready(Err(Error::Expired))
            } else {
                TaskPoll::Pending
            },
        }
    }

    /// What a poll at `now` registers in its context, where `inner` is what
    /// the poll of the inner task gave: the deadline, when it waits for it.
    pub open spec fn registers<T, E>(self, now: Instant, inner: Option<Result<T, E>>) -> Option<
        Instant,
    > {
        if inner is None && !self.is_timeout(now) {
            self.deadline
        } else {
            None
        }
    }
}

/// The settings that [`timeout`] gives a task started at `now` with `d`
/// nanoseconds to finish.
pub open spec fn timeout_view(d: u64, now: Instant) -> TimeoutView {
    TimeoutView {
        extra_check: true,
        deadline: if now.nanos + d <= u64::MAX {
            Some(Instant { nanos: (now.nanos + d) as u64 })
        } else {
            None
        },
    }
}

/// Requires the task `f` to finish within `d` nanoseconds of `now`.
///
/// Where the deadline lies beyond what the clock can hold, the task never
/// expires. A zero timeout lets a task that is ready at once finish without
/// any suspension.
pub fn timeout<F>(d: u64, f: F, now: Instant) -> (r: Timeout<F>)
    ensures
        r.view() == timeout_view(d, now),
        r.inner() == f,
{
    Timeout { future: f, extra_check: true, deadline: now.checked_add(d) }
}

/// Like [`timeout`], but with the explicit deadline `at`.
pub fn deadline<F>(at: Instant, f: F) -> (r: Timeout<F>)
    ensures
        r.view() == (TimeoutView { extra_check: true, deadline: Some(at) }),
        r.inner() == f,
{
    Timeout { future: f, extra_check: true, deadline: Some(at) }
}

impl<F> Timeout<F> {
    pub closed spec fn view(&self) -> TimeoutView {
        TimeoutView { extra_check: self.extra_check, deadline: self.deadline }
    }

    /// The wrapped task.
    pub closed spec fn inner(&self) -> F {
        self.future
    }

    /// Turns the extra check off: once the deadline has passed, the next
    /// poll fails at once, without polling the inner task.
    pub fn no_extra_check(self) -> (r: Self)
        ensures
            r.view() == (TimeoutView { extra_check: false, ..self.view() }),
            r.inner() == self.inner(),
    {
        let mut timeout = self;
        timeout.extra_check = false;
        timeout
    }

    /// The wrapped task, to poll it.
    pub fn future_mut(&mut self) -> (r: &mut F)
        ensures
            *r == old(self).inner(),
            final(self).inner() == *final(r),
            final(self).view() == old(self).view(),
    {
        &mut self.future
    }

    /// The deadline has passed at `now`.
    pub fn is_timeout(&self, now: Instant) -> (r: bool)
        ensures
            r == self.view().is_timeout(now),
    {
        match self.deadline {
            Some(d) => now.nanos >= d.nanos,
            None => false,
        }
    }

    /// Whether a poll at `now` polls the inner task first.
    pub fn polls_inner(&self, now: Instant) -> (r: bool)
        ensures
            r == self.view().polls_inner(now),
    {
        self.extra_check || !self.is_timeout(now)
    }

    /// One poll at `now`, given what the poll of the inner task gave:
    /// `Some` of its output where it was polled and ready, `None` where it
    /// was pending or not polled.
    ///
    /// A ready inner task gives its output, its error as `Failed`, whether
    /// or not the deadline has passed. Otherwise the poll fails with
    /// `Expired` past the deadline, and before it is pending, with a
    /// wake-up at the deadline registered in `cx`; with no deadline it is
    /// pending and registers nothing.
    pub fn poll<T, E>(&self, now: Instant, inner: Option<Result<T, E>>, cx: &mut Context) -> (r:
        TaskPoll<Result<T, Error<E>>>)
        requires
            inner is Some ==> self.view().polls_inner(now),
        ensures
            r == self.view().outcome(now, inner),
            self.view().registers(now, inner) is Some ==> final(cx).view() == Some(
                SuspensionReason::WakeAt(self.view().registers(now, inner)->Some_0),
            ),
            self.view().registers(now, inner) is None ==> final(cx).view() == old(cx).view(),
    {
        let is_timeout = self.is_timeout(now);
        match inner {
            Some(Ok(v)) => {
                return TaskPoll::Ready(Ok(v));
            },
            Some(Err(e)) => {
                return TaskPoll::Ready(Err(Error::Failed(e)));
            },
            None => {},
        }
        if is_timeout {
            return TaskPoll::Ready(Err(Error::Expired));
        }
        // Without a deadline the task never expires: only the inner task
        // can wake the scheduler.
        if let Some(d) = self.deadline {
            cx.set_deadline(d);
        }
        TaskPoll::Pending
    }
}

/// Puts a deadline on any task, in method form.
pub trait IntoTimeout: Sized {
    /// Requires the task to finish within `d` nanoseconds of `now`; see
    /// [`timeout`].
    fn timeout(self, d: u64, now: Instant) -> (r: Timeout<Self>)
        ensures
            r.view() == timeout_view(d, now),
            r.inner() == self,
    {
        crate::timeout::timeout(d, self, now)
    }

    /// Requires the task to finish by `at`; see [`deadline`].
    fn deadline(self, at: Instant) -> (r: Timeout<Self>)
        ensures
            r.view() == (TimeoutView { extra_check: true, deadline: Some(at) }),
            r.inner() == self,
    {
        crate::timeout::deadline(at, self)
    }
}

impl<T> IntoTimeout for T {

}

/// Under a zero timeout the first poll decides, with no suspension: the
/// inner task is polled; where it is ready its output comes back, and where
/// it is not the poll fails with `Expired`. Neither registers anything.
pub proof fn lemma_zero_timeout<T, E>(now: Instant, v: T)
    ensures
        timeout_view(0, now).polls_inner(now),
        timeout_view(0, now).outcome(now, Some(Ok::<T, E>(v))) == TaskPoll::Ready(
            Ok::<T, Error<E>>(v),
        ),
        timeout_view(0, now).registers(now, Some(Ok::<T, E>(v))) is None,
        timeout_view(0, now).outcome::<T, E>(now, None) == TaskPoll::Ready(
            Err::<T, Error<E>>(Error::Expired),
        ),
        timeout_view(0, now).registers::<T, E>(now, None) is None,
{
}

/// A task that is never ready, given `d > 0` nanoseconds from `now`: each
/// poll before the deadline is pending and registers a wake-up at the
/// deadline; a poll at or after it fails with `Expired`. With the extra
/// check, which is on by default, that last poll still polls the inner task
/// once; with it off, it does not.
pub proof fn lemma_positive_timeout<T, E>(d: u64, now: Instant, later: Instant)
    requires
        d > 0,
        now.nanos + d <= u64::MAX,
    ensures
        timeout_view(d, now).outcome::<T, E>(now, None) is Pending,
        later.nanos < now.nanos + d ==> timeout_view(d, now).polls_inner(later) && timeout_view(
            d,
            now,
        ).outcome::<T, E>(later, None) is Pending && timeout_view(d, now).registers::<T, E>(
            later,
            None,
        ) == Some(Instant { nanos: (now.nanos + d) as u64 }),
        later.nanos >= now.nanos + d ==> timeout_view(d, now).polls_inner(later) && timeout_view(
            d,
            now,
        ).outcome::<T, E>(later, None) == TaskPoll::Ready(Err::<T, Error<E>>(Error::Expired)),
        later.nanos >= now.nanos + d ==> !(TimeoutView {
            extra_check: false,
            ..timeout_view(d, now)
        }).polls_inner(later) && (TimeoutView {
            extra_check: false,
            ..timeout_view(d, now)
        }).outcome::<T, E>(later, None) == TaskPoll::Ready(Err::<T, Error<E>>(Error::Expired)),
{
}

/// Where the deadline lies beyond what the clock can hold there is none:
/// a task that is never ready stays pending at every poll, and the wrapper
/// registers nothing, leaving the wake-up to the inner task.
pub proof fn lemma_no_deadline_never_expires<T, E>(d: u64, now: Instant, later: Instant)
    requires
        now.nanos + d > u64::MAX,
    ensures
        timeout_view(d, now).polls_inner(later),
        timeout_view(d, now).outcome::<T, E>(later, None) is Pending,
        timeout_view(d, now).registers::<T, E>(later, None) is None,
{
}

} // verus!
