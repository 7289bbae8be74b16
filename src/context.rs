//! What a suspended task tells the scheduler, and how the scheduler waits.
//!
//! Each poll of a task gets a context. A leaf operation that cannot finish
//! writes into it why it is suspended before it reports `Pending`; a later
//! registration in the same poll replaces an earlier one. A task that is
//! pending with nothing registered is woken only through the coordination
//! primitive.
use crate::time::Instant;
use vstd::prelude::*;

verus! {

/// The outcome of one poll of a task.
#[derive(Debug, PartialEq, Eq)]
pub enum TaskPoll<V> {
    Ready(V),
    Pending,
}

/// The readiness a task waits for on a descriptor.
#[derive(Clone, Copy, Debug, PartialEq, Eq, Structural)]
pub enum Interest {
    Read,
    Write,
}

/// Why a pending task is suspended.
#[derive(Clone, Copy, Debug, PartialEq, Eq, Structural)]
pub enum SuspensionReason {
    /// Poll again at this instant.
    WakeAt(Instant),
    /// Poll again once the descriptor is ready.
    Descriptor { fd: i32, interest: Interest },
    /// Poll again once the outside asynchronous request completes.
    Request(u64),
}

/// How the scheduler waits before it polls its task again.
#[derive(Clone, Copy, Debug, PartialEq, Eq, Structural)]
pub enum WaitPlan {
    /// On the coordination primitive, with no time limit.
    Indefinitely,
    /// On the coordination primitive, for at most this many nanoseconds.
    For(u64),
    /// Through the reactor, for the readiness of a descriptor.
    Descriptor { fd: i32, interest: Interest },
    /// Through the reactor, for an outside asynchronous request.
    Request(u64),
}

/// The channel through which a poll tells the scheduler what to wait for.
pub struct Context {
    reason: Option<SuspensionReason>,
}

impl Context {
    pub closed spec fn view(&self) -> Option<SuspensionReason> {
        self.reason
    }

    /// A context with nothing registered, for one poll.
    pub fn new() -> (r: Context)
        ensures
            r.view() is None,
    {
        Context { reason: None }
    }

    /// Registers a wake-up at `deadline`.
    pub fn set_deadline(&mut self, deadline: Instant)
        ensures
            final(self).view() == Some(SuspensionReason::WakeAt(deadline)),
    {
        self.reason = Some(SuspensionReason::WakeAt(deadline));
    }

    /// Registers a wait for `interest` on the descriptor `fd`.
    pub fn set_coio_wait(&mut self, fd: i32, interest: Interest)
        ensures
            final(self).view() == Some(SuspensionReason::Descriptor { fd, interest }),
    {
        self.reason = Some(SuspensionReason::Descriptor { fd, interest });
    }

    /// Registers a wait for the outside request `request`.
    pub fn set_request(&mut self, request: u64)
        ensures
            final(self).view() == Some(SuspensionReason::Request(request)),
    {
        self.reason = Some(SuspensionReason::Request(request));
    }

    /// What was registered last, if anything.
    pub fn reason(&self) -> (r: Option<SuspensionReason>)
        ensures
            r == self.view(),
    {
        self.reason
    }
}

/// How long the scheduler waits after its task was pending at `now`.
///
/// With nothing registered it waits on the coordination primitive until it
/// is woken; with a wake-up instant, at most until that instant, which is
/// no wait at all where the instant has passed; a descriptor or an outside
/// request is left to the reactor.
pub fn wait_plan(reason: Option<SuspensionReason>, now: Instant) -> (r: WaitPlan)
    ensures
        r == match reason {
            None => WaitPlan::Indefinitely,
            Some(SuspensionReason::WakeAt(at)) => WaitPlan::For(
                if at.nanos >= now.nanos { (at.nanos - now.nanos) as u64 } else { 0 },
            ),
            Some(SuspensionReason::Descriptor { fd, interest }) => WaitPlan::Descriptor { fd, interest },
            Some(SuspensionReason::Request(id)) => WaitPlan::Request(id),
        },
{
    match reason {
        None => WaitPlan::Indefinitely,
        Some(SuspensionReason::WakeAt(at)) => WaitPlan::For(at.duration_since(now)),
        Some(SuspensionReason::Descriptor { fd, interest }) => WaitPlan::Descriptor { fd, interest },
        Some(SuspensionReason::Request(id)) => WaitPlan::Request(id),
    }
}

} // verus!
