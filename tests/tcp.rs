use fiber_async::context::{Context, Interest, SuspensionReason, TaskPoll};
use fiber_async::tcp::{
    close_outcome, collect_addrs, connect_poll_outcome, connect_poll_timeout, io_outcome,
    pick_address, split_addrs, CloseFailure, Error, ErrorKind, OsError, Resolved, SockAddr,
    StreamError, TcpStream,
};
use fiber_async::time::Instant;

const NO_ERROR: OsError = OsError { code: 0 };

#[test]
fn addresses_ipv4_first_with_port() {
    let entries = vec![
        Resolved::V6 { ip: 1, flow_info: 2, scope_id: 3 },
        Resolved::V4 { ip: 0x7f00_0001 },
        Resolved::V6 { ip: 4, flow_info: 0, scope_id: 0 },
        Resolved::V4 { ip: 0x0a00_0001 },
    ];
    let all = collect_addrs(&entries, 80).unwrap();
    assert_eq!(
        all,
        vec![
            SockAddr::V4 { ip: 0x7f00_0001, port: 80 },
            SockAddr::V4 { ip: 0x0a00_0001, port: 80 },
            SockAddr::V6 { ip: 1, port: 80, flow_info: 2, scope_id: 3 },
            SockAddr::V6 { ip: 4, port: 80, flow_info: 0, scope_id: 0 },
        ]
    );
    let (v4, v6) = split_addrs(&entries, 80).unwrap();
    assert_eq!(pick_address(&v4, &v6), Ok(SockAddr::V4 { ip: 0x7f00_0001, port: 80 }));
    assert_eq!(pick_address(&vec![], &v6), Ok(SockAddr::V6 { ip: 1, port: 80, flow_info: 2, scope_id: 3 }));
}

#[test]
fn unknown_family_is_an_error() {
    let entries = vec![Resolved::V4 { ip: 1 }, Resolved::Unknown(17), Resolved::Unknown(3)];
    assert_eq!(collect_addrs(&entries, 1), Err(Error::UnknownAddressFamily(17)));
    assert_eq!(split_addrs(&entries, 1), Err(Error::UnknownAddressFamily(17)));
}

#[test]
fn no_address_to_pick() {
    assert_eq!(
        pick_address(&vec![], &vec![]),
        Err(Error::ResolveAddress(
            "Both V4 and V6 addresses are empty after resolution.".to_string()
        ))
    );
    assert_eq!(collect_addrs(&vec![], 1), Ok(vec![]));
}

#[test]
fn io_results() {
    let now = Instant::from_nanos(77);
    let mut cx = Context::new();
    assert_eq!(
        io_outcome(5, Interest::Read, 128, NO_ERROR, ErrorKind::Other, now, &mut cx),
        TaskPoll::Ready(Ok(128))
    );
    assert_eq!(cx.reason(), None);

    // A read of zero bytes is the end of the stream, not an error.
    assert_eq!(
        io_outcome(5, Interest::Read, 0, NO_ERROR, ErrorKind::Other, now, &mut cx),
        TaskPoll::Ready(Ok(0))
    );

    let again = OsError { code: 11 };
    assert_eq!(
        io_outcome(5, Interest::Write, -1, again, ErrorKind::WouldBlock, now, &mut cx),
        TaskPoll::Pending
    );
    assert_eq!(
        cx.reason(),
        Some(SuspensionReason::Descriptor { fd: 5, interest: Interest::Write })
    );

    let intr = OsError { code: 4 };
    assert_eq!(
        io_outcome(5, Interest::Read, -1, intr, ErrorKind::Interrupted, now, &mut cx),
        TaskPoll::Pending
    );
    assert_eq!(cx.reason(), Some(SuspensionReason::WakeAt(now)));

    let reset = OsError { code: 104 };
    assert_eq!(
        io_outcome(5, Interest::Read, -1, reset, ErrorKind::Other, now, &mut cx),
        TaskPoll::Ready(Err(StreamError::Os(reset)))
    );
}

#[test]
fn no_socket_double_close() {
    let mut stream = TcpStream::from_fd(12);
    assert_eq!(stream.begin_io(), Ok(12));
    assert_eq!(stream.take_fd(), Some(12));
    assert_eq!(stream.fd(), None);
    assert_eq!(stream.take_fd(), None);
    assert_eq!(stream.begin_io(), Err(StreamError::Closed));
}

#[test]
fn close_results() {
    assert_eq!(close_outcome(0, NO_ERROR, false), Ok(()));
    let badf = OsError { code: 9 };
    assert_eq!(
        close_outcome(-1, badf, true),
        Err(CloseFailure { error: badf, bad_descriptor: true })
    );
    let io = OsError { code: 5 };
    assert_eq!(
        close_outcome(-1, io, false),
        Err(CloseFailure { error: io, bad_descriptor: false })
    );
}

#[test]
fn connect_poll_limits() {
    assert_eq!(connect_poll_timeout(1_000_000_000, 1_000_000_000), Err(Error::Timeout));
    assert_eq!(connect_poll_timeout(1_000_000_000, 2_000_000_000), Err(Error::Timeout));
    assert_eq!(connect_poll_timeout(1_000_000_000, 0), Ok(1000));
    assert_eq!(connect_poll_timeout(1_000_000_000, 999_999_999), Ok(1));
    assert_eq!(connect_poll_timeout(1_500_000_000, 250_000_000), Ok(1250));
    assert_eq!(connect_poll_timeout(u64::MAX, 0), Ok(i32::MAX));
}

#[test]
fn connect_poll_results() {
    let now = Instant::from_nanos(3);
    let mut cx = Context::new();
    let ok = Ok(0);
    assert_eq!(
        connect_poll_outcome(1, NO_ERROR, ErrorKind::Other, false, ok, now, &mut cx),
        TaskPoll::Ready(Ok(()))
    );
    assert_eq!(
        connect_poll_outcome(1, NO_ERROR, ErrorKind::Other, true, ok, now, &mut cx),
        TaskPoll::Ready(Ok(()))
    );
    let refused = OsError { code: 111 };
    assert_eq!(
        connect_poll_outcome(1, NO_ERROR, ErrorKind::Other, true, Ok(111), now, &mut cx),
        TaskPoll::Ready(Err(Error::IO(refused)))
    );
    let badf = OsError { code: 9 };
    assert_eq!(
        connect_poll_outcome(1, NO_ERROR, ErrorKind::Other, true, Err(badf), now, &mut cx),
        TaskPoll::Ready(Err(Error::IO(badf)))
    );
    assert_eq!(cx.reason(), None);
    assert_eq!(
        connect_poll_outcome(0, NO_ERROR, ErrorKind::Other, false, ok, now, &mut cx),
        TaskPoll::Pending
    );
    assert_eq!(cx.reason(), Some(SuspensionReason::WakeAt(now)));
    let intr = OsError { code: 4 };
    let mut cx = Context::new();
    assert_eq!(
        connect_poll_outcome(-1, intr, ErrorKind::Interrupted, false, ok, now, &mut cx),
        TaskPoll::Pending
    );
    assert_eq!(cx.reason(), Some(SuspensionReason::WakeAt(now)));
    let inval = OsError { code: 22 };
    assert_eq!(
        connect_poll_outcome(-1, inval, ErrorKind::Other, false, ok, now, &mut cx),
        TaskPoll::Ready(Err(Error::IO(inval)))
    );
}
