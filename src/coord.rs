//! The coordination primitive: a waitable handle shared by every party
//! interested in one resource.
use vstd::prelude::*;

verus! {

/// How a wait with a time limit ended.
#[derive(Clone, Copy, Debug, PartialEq, Eq, Structural)]
pub enum WaitTimeout {
    /// The primitive was woken.
    Signaled,
    /// The time ran out first.
    TimedOut,
}

/// A waitable handle: `wait` suspends the calling fiber until `wake` is
/// called, `wait_timeout` until then or until the time runs out, and `wake`
/// releases every current waiter.
pub trait Coord {
    fn wait(&self);

    fn wake(&self);

    fn wait_timeout(&self, timeout: std::time::Duration) -> WaitTimeout;
}

/// A source of deadlines for the scheduler.
pub struct Timer {}

/// How a wait on a condition variable that reports `true` when it was
/// signalled and `false` when its time ran out ended.
pub fn wait_timeout_outcome(signalled: bool) -> (r: WaitTimeout)
    ensures
        r == if signalled { WaitTimeout::Signaled } else { WaitTimeout::TimedOut },
{
    if signalled {
        WaitTimeout::Signaled
    } else {
        WaitTimeout::TimedOut
    }
}

/// Wakes `coord` where an operation said that a party may be asleep on it.
pub fn wake_if<S: Coord>(coord: &S, wake: bool) {
    if wake {
        coord.wake();
    }
}

} // verus!
