//! The decisions of an asynchronous TCP stream on a non-blocking socket.
//!
//! The socket calls themselves (resolve, connect, read, write, poll, close)
//! are made by the caller; the functions here take what they returned and
//! decide what comes next: the result of the operation, or the reason for
//! which the task is suspended.
use crate::context::{Context, Interest, SuspensionReason, TaskPoll};
use crate::time::Instant;
use vstd::prelude::*;

verus! {

/// An error code of the operating system.
#[derive(Clone, Copy, Debug, PartialEq, Eq, Structural)]
pub struct OsError {
    pub code: i32,
}

/// What a failed socket call means for a non-blocking operation.
#[derive(Clone, Copy, Debug, PartialEq, Eq, Structural)]
pub enum ErrorKind {
    /// The operation would block: wait for readiness.
    WouldBlock,
    /// The call was interrupted: try again at once.
    Interrupted,
    /// Anything else: the operation failed.
    Other,
}

/// The errors of connecting a stream.
#[derive(Debug, PartialEq, Eq)]
pub enum Error {
    /// The name could not be resolved to an address.
    ResolveAddress(String),
    /// The connection to `address` failed.
    Connect { error: OsError, address: String },
    /// A socket call failed.
    IO(OsError),
    /// Resolution gave an address of an unknown family.
    UnknownAddressFamily(u16),
    /// The write half of the stream is closed.
    WriteClosed,
    /// The connection was not made in time.
    Timeout,
}

/// The errors of reading from and writing to a stream.
#[derive(Clone, Copy, Debug, PartialEq, Eq, Structural)]
pub enum StreamError {
    /// The stream was closed already; no socket call was made.
    Closed,
    /// The socket call failed.
    Os(OsError),
}

/// A socket address.
#[allow(inconsistent_fields)]
#[derive(Clone, Copy, Debug, PartialEq, Eq, Structural)]
pub enum SockAddr {
    V4 { ip: u32, port: u16 },
    V6 { ip: u128, port: u16, flow_info: u32, scope_id: u32 },
}

/// One address that name resolution gave, without a port.
#[allow(inconsistent_fields)]
#[derive(Clone, Copy, Debug, PartialEq, Eq, Structural)]
pub enum Resolved {
    V4 { ip: u32 },
    V6 { ip: u128, flow_info: u32, scope_id: u32 },
    /// An address of another family, by its number.
    Unknown(u16),
}

/// The IPv4 addresses among `s`, in order, with port `port`.
pub open spec fn v4_addrs(s: Seq<Resolved>, port: u16) -> Seq<SockAddr>
    decreases s.len(),
{
    if s.len() == 0 {
        Seq::empty()
    } else {
        v4_addrs(s.drop_last(), port) + match s.last() {
            Resolved::V4 { ip } => seq![SockAddr::V4 { ip, port }],
            _ => Seq::empty(),
        }
    }
}

/// The IPv6 addresses among `s`, in order, with port `port`.
pub open spec fn v6_addrs(s: Seq<Resolved>, port: u16) -> Seq<SockAddr>
    decreases s.len(),
{
    if s.len() == 0 {
        Seq::empty()
    } else {
        v6_addrs(s.drop_last(), port) + match s.last() {
            Resolved::V6 { ip, flow_info, scope_id } => seq![
                SockAddr::V6 { ip, port, flow_info, scope_id },
            ],
            _ => Seq::empty(),
        }
    }
}

/// The family of the first address of an unknown family in `s`, if any.
pub open spec fn first_unknown(s: Seq<Resolved>) -> Option<u16>
    decreases s.len(),
{
    if s.len() == 0 {
        None
    } else {
        match first_unknown(s.drop_last()) {
            Some(af) => Some(af),
            None => match s.last() {
                Resolved::Unknown(af) => Some(af),
                _ => None,
            },
        }
    }
}

proof fn lemma_take_next(s: Seq<Resolved>, i: int)
    requires
        0 <= i < s.len(),
    ensures
        s.take(i + 1).drop_last() == s.take(i),
        s.take(i + 1).last() == s[i],
{
    assert(s.take(i + 1).drop_last() =~= s.take(i));
}

/// Sorts the result of name resolution by family, with port `port`: the
/// IPv4 addresses and the IPv6 addresses, each in the order given. Fails
/// on the first address of an unknown family.
pub fn split_addrs(entries: &Vec<Resolved>, port: u16) -> (r: Result<
    (Vec<SockAddr>, Vec<SockAddr>),
    Error,
>)
    ensures
        first_unknown(entries@) is Some ==> r == Err::<(Vec<SockAddr>, Vec<SockAddr>), Error>(
            Error::UnknownAddressFamily(first_unknown(entries@)->Some_0),
        ),
        first_unknown(entries@) is None ==> r is Ok && r->Ok_0.0@ == v4_addrs(entries@, port)
            && r->Ok_0.1@ == v6_addrs(entries@, port),
{
    let mut v4: Vec<SockAddr> = Vec::new();
    let mut v6: Vec<SockAddr> = Vec::new();
    let mut i: usize = 0;
    while i < entries.len()
        invariant
            0 <= i <= entries@.len(),
            first_unknown(entries@.take(i as int)) is None,
            v4@ == v4_addrs(entries@.take(i as int), port),
            v6@ == v6_addrs(entries@.take(i as int), port),
        decreases entries@.len() - i,
    {
        proof {
            lemma_take_next(entries@, i as int);
        }
        match entries[i] {
            Resolved::V4 { ip } => {
                v4.push(SockAddr::V4 { ip, port });
            },
            Resolved::V6 { ip, flow_info, scope_id } => {
                v6.push(SockAddr::V6 { ip, port, flow_info, scope_id });
            },
            Resolved::Unknown(af) => {
                proof {
                    lemma_first_unknown_prefix(entries@, i as int + 1);
                }
                return Err(Error::UnknownAddressFamily(af));
            },
        }
        i = i + 1;
        proof {
            assert(v4@ =~= v4_addrs(entries@.take(i as int), port));
            assert(v6@ =~= v6_addrs(entries@.take(i as int), port));
        }
    }
    assert(entries@.take(i as int) =~= entries@);
    Ok((v4, v6))
}

/// Where a prefix of `s` holds an address of an unknown family, the first
/// such address of `s` lies in that prefix.
proof fn lemma_first_unknown_prefix(s: Seq<Resolved>, n: int)
    requires
        0 <= n <= s.len(),
        first_unknown(s.take(n)) is Some,
    ensures
        first_unknown(s) == first_unknown(s.take(n)),
    decreases s.len() - n,
{
    if n < s.len() {
        lemma_take_next(s, n);
        lemma_first_unknown_prefix(s, n + 1);
    } else {
        assert(s.take(n) =~= s);
    }
}

/// The result of name resolution with port `port`, IPv4 addresses first,
/// then IPv6 ones, each in the order given. Fails on the first address of
/// an unknown family.
pub fn collect_addrs(entries: &Vec<Resolved>, port: u16) -> (r: Result<Vec<SockAddr>, Error>)
    ensures
        first_unknown(entries@) is Some ==> r == Err::<Vec<SockAddr>, Error>(
            Error::UnknownAddressFamily(first_unknown(entries@)->Some_0),
        ),
        first_unknown(entries@) is None ==> r is Ok && r->Ok_0@ == v4_addrs(entries@, port)
            + v6_addrs(entries@, port),
{
    match split_addrs(entries, port) {
        Err(e) => Err(e),
        Ok((v4, v6)) => {
            let mut all = v4;
            let mut rest = v6;
            all.append(&mut rest);
            Ok(all)
        },
    }
}

/// The address to connect to: the first IPv4 address, or else the first
/// IPv6 one. Fails where there is neither.
pub fn pick_address(v4: &Vec<SockAddr>, v6: &Vec<SockAddr>) -> (r: Result<SockAddr, Error>)
    ensures
        v4@.len() > 0 ==> r == Ok::<SockAddr, Error>(v4@[0]),
        v4@.len() == 0 && v6@.len() > 0 ==> r == Ok::<SockAddr, Error>(v6@[0]),
        v4@.len() == 0 && v6@.len() == 0 ==> r is Err && r->Err_0 is ResolveAddress
            && r->Err_0->ResolveAddress_0@ == "Both V4 and V6 addresses are empty after resolution."@,
{
    if v4.len() > 0 {
        Ok(v4[0])
    } else if v6.len() > 0 {
        Ok(v6[0])
    } else {
        Err(Error::ResolveAddress("Both V4 and V6 addresses are empty after resolution.".to_owned()))
    }
}

/// How an operation on a stream whose descriptor slot holds `slot` starts:
/// with the descriptor, or, where the stream is closed, with `Closed`.
pub open spec fn io_start(slot: Option<i32>) -> Result<i32, StreamError> {
    match slot {
        Some(fd) => Ok(fd),
        None => Err(StreamError::Closed),
    }
}

/// The descriptor slot of a stream, shared by all of its clones.
///
/// Closing takes the descriptor out, exactly once: a closed stream stays
/// closed, and each later operation fails at once without a socket call.
pub struct TcpStream {
    fd: Option<i32>,
}

impl TcpStream {
    /// The descriptor, while the stream is open.
    pub closed spec fn view(&self) -> Option<i32> {
        self.fd
    }

    /// A stream open on the connected descriptor `fd`.
    pub fn from_fd(fd: i32) -> (r: TcpStream)
        ensures
            r.view() == Some(fd),
    {
        TcpStream { fd: Some(fd) }
    }

    /// The descriptor, while the stream is open.
    pub fn fd(&self) -> (r: Option<i32>)
        ensures
            r == self.view(),
    {
        self.fd
    }

    /// Takes the descriptor out to close it; `None` where the stream was
    /// closed already, in which case there is nothing to close.
    pub fn take_fd(&mut self) -> (r: Option<i32>)
        ensures
            r == old(self).view(),
            final(self).view() is None,
    {
        self.fd.take()
    }

    /// The descriptor for a read, a write, a flush or a close; `Closed`
    /// where the stream is closed, and then no socket call is to be made.
    pub fn begin_io(&self) -> (r: Result<i32, StreamError>)
        ensures
            r == io_start(self.view()),
    {
        match self.fd {
            Some(fd) => Ok(fd),
            None => Err(StreamError::Closed),
        }
    }
}

/// Closing is final: once the descriptor was taken out of the slot, every
/// later operation fails with `Closed` before any socket call, and a later
/// close takes nothing out, so the descriptor is closed exactly once.
pub proof fn lemma_close_is_final(before: TcpStream, after: TcpStream)
    requires
        after.view() is None,
    ensures
        io_start(after.view()) == Err::<i32, StreamError>(StreamError::Closed),
        before.view() is Some ==> io_start(before.view()) == Ok::<i32, StreamError>(
            before.view()->Some_0,
        ),
{
}

/// The outcome of a non-blocking read or write on `fd` at `now`, from what
/// the call returned: `result`, and where it is negative the error `err`
/// of kind `kind`.
///
/// A count of zero or more is the result, and a read of zero bytes means
/// the end of the stream. Where the call would block, the task waits for
/// `interest` on `fd`; where it was interrupted, it is polled again at once,
/// through a wake-up at `now`. Any other error is the result.
pub fn io_outcome(
    fd: i32,
    interest: Interest,
    result: isize,
    err: OsError,
    kind: ErrorKind,
    now: Instant,
    cx: &mut Context,
) -> (r: TaskPoll<Result<usize, StreamError>>)
    ensures
        result >= 0 ==> r == TaskPoll::Ready(Ok::<usize, StreamError>(result as usize))
            && final(cx).view() == old(cx).view(),
        result < 0 && kind == ErrorKind::WouldBlock ==> r is Pending && final(cx).view() == Some(
            SuspensionReason::Descriptor { fd, interest },
        ),
        result < 0 && kind == ErrorKind::Interrupted ==> r is Pending && final(cx).view() == Some(
            SuspensionReason::WakeAt(now),
        ),
        result < 0 && kind == ErrorKind::Other ==> r == TaskPoll::Ready(
            Err::<usize, StreamError>(StreamError::Os(err)),
        ) && final(cx).view() == old(cx).view(),
{
    if result >= 0 {
        return TaskPoll::Ready(Ok(result as usize));
    }
    match kind {
        ErrorKind::WouldBlock => {
            cx.set_coio_wait(fd, interest);
            TaskPoll::Pending
        },
        ErrorKind::Interrupted => {
            // Retry at once, without waiting for readiness.
            cx.set_deadline(now);
            TaskPoll::Pending
        },
        ErrorKind::Other => TaskPoll::Ready(Err(StreamError::Os(err))),
    }
}

/// Why closing a descriptor failed.
#[derive(Clone, Copy, Debug, PartialEq, Eq, Structural)]
pub struct CloseFailure {
    pub error: OsError,
    /// The descriptor was not open: a sign that it was used after a
    /// close, which a debug build treats as fatal.
    pub bad_descriptor: bool,
}

/// The result of closing a descriptor, from the return code `rc` of the
/// close call and, where it is not zero, the error `err`, which says
/// `bad_descriptor` where the descriptor was not open.
pub fn close_outcome(rc: i32, err: OsError, bad_descriptor: bool) -> (r: Result<(), CloseFailure>)
    ensures
        rc == 0 ==> r is Ok,
        rc != 0 ==> r == Err::<(), CloseFailure>(CloseFailure { error: err, bad_descriptor }),
{
    if rc != 0 {
        Err(CloseFailure { error: err, bad_descriptor })
    } else {
        Ok(())
    }
}

/// The time limit, in milliseconds, of one readiness poll while a connect
/// with a limit of `timeout` nanoseconds is in progress and `elapsed`
/// nanoseconds have passed: the time left, rounded down, at least 1 and at
/// most `i32::MAX`. Fails with `Timeout` where no time is left.
pub fn connect_poll_timeout(timeout: u64, elapsed: u64) -> (r: Result<i32, Error>)
    ensures
        elapsed >= timeout ==> r == Err::<i32, Error>(Error::Timeout),
        elapsed < timeout ==> r == Ok::<i32, Error>(
            (if (timeout - elapsed) / 1_000_000 == 0 {
                1
            } else if (timeout - elapsed) / 1_000_000 > i32::MAX {
                i32::MAX as int
            } else {
                (timeout - elapsed) / 1_000_000
            }) as i32,
        ),
{
    if elapsed >= timeout {
        return Err(Error::Timeout);
    }
    let ms: u64 = (timeout - elapsed) / 1_000_000;
    if ms == 0 {
        Ok(1)
    } else if ms > i32::MAX as u64 {
        Ok(i32::MAX)
    } else {
        Ok(ms as i32)
    }
}

/// The outcome of one readiness poll of a connect in progress, at `now`.
///
/// `rc` is what the poll returned: `-1` with the error `err` of kind
/// `kind`, `0` where the time ran out, more where the socket is ready.
/// `hang_up` says whether it reported a hang-up, and then `so_error` is
/// what reading the socket's pending error gave.
///
/// An interrupted poll, or one whose time ran out, is retried at once. Any
/// other failed poll fails the connect. A ready socket is connected, unless
/// on a hang-up its pending error says otherwise.
pub fn connect_poll_outcome(
    rc: i32,
    err: OsError,
    kind: ErrorKind,
    hang_up: bool,
    so_error: Result<i32, OsError>,
    now: Instant,
    cx: &mut Context,
) -> (r: TaskPoll<Result<(), Error>>)
    ensures
        rc < 0 && kind == ErrorKind::Interrupted ==> r is Pending && final(cx).view() == Some(
            SuspensionReason::WakeAt(now),
        ),
        rc < 0 && kind != ErrorKind::Interrupted ==> r == TaskPoll::Ready(
            Err::<(), Error>(Error::IO(err)),
        ),
        rc == 0 ==> r is Pending && final(cx).view() == Some(SuspensionReason::WakeAt(now)),
        rc > 0 && !hang_up ==> r == TaskPoll::Ready(Ok::<(), Error>(())),
        rc > 0 && hang_up ==> r == match so_error {
            Err(e) => TaskPoll::Ready(Err::<(), Error>(Error::IO(e))),
            Ok(code) => if code != 0 {
                TaskPoll::Ready(Err::<(), Error>(Error::IO(OsError { code })))
            } else {
                TaskPoll::Ready(Ok::<(), Error>(()))
            },
        },
{
    if rc < 0 {
        match kind {
            ErrorKind::Interrupted => {
                cx.set_deadline(now);
                TaskPoll::Pending
            },
            _ => TaskPoll::Ready(Err(Error::IO(err))),
        }
    } else if rc == 0 {
        cx.set_deadline(now);
        TaskPoll::Pending
    } else if hang_up {
        match so_error {
            Err(e) => TaskPoll::Ready(Err(Error::IO(e))),
            Ok(code) => if code != 0 {
                TaskPoll::Ready(Err(Error::IO(OsError { code })))
            } else {
                TaskPoll::Ready(Ok(()))
            },
        }
    } else {
        TaskPoll::Ready(Ok(()))
    }
}

} // verus!
