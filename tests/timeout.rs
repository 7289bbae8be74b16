use fiber_async::context::{wait_plan, Context, SuspensionReason, TaskPoll, WaitPlan};
use fiber_async::time::Instant;
use fiber_async::timeout::{deadline, timeout, Error, IntoTimeout, Timeout};

const MS: u64 = 1_000_000;
const SEC: u64 = 1_000_000_000;

/// Runs `t` on a simulated clock that starts at `start` and jumps to each
/// registered deadline; the inner task is ready at its `ready_at`-th poll,
/// or never. Returns the result, the number of polls of the inner task, the
/// number of suspensions and the clock at the end.
fn run(
    t: &mut Timeout<u32>,
    start: Instant,
    ready_at: Option<u32>,
) -> (Result<i32, Error<String>>, u32, u32, Instant) {
    let mut now = start;
    let mut suspensions = 0;
    loop {
        let mut cx = Context::new();
        let mut inner = None;
        if t.polls_inner(now) {
            let polls = t.future_mut();
            *polls += 1;
            if Some(*polls) == ready_at {
                inner = Some(Ok(*polls as i32));
            }
        }
        match t.poll(now, inner, &mut cx) {
            TaskPoll::Ready(r) => return (r, *t.future_mut(), suspensions, now),
            TaskPoll::Pending => {
                suspensions += 1;
                match wait_plan(cx.reason(), now) {
                    WaitPlan::For(d) => now = now.saturating_add(d),
                    other => panic!("unexpected wait {:?}", other),
                }
            }
        }
        assert!(suspensions < 1000, "never finished");
    }
}

#[test]
fn instant_future() {
    let now = Instant::from_nanos(5 * SEC);
    let t = timeout(0, (), now);
    assert!(t.polls_inner(now));
    let mut cx = Context::new();
    assert_eq!(t.poll(now, Some(Ok::<i32, ()>(79)), &mut cx), TaskPoll::Ready(Ok(79)));
    assert_eq!(cx.reason(), None);
}

#[test]
fn zero_timeout_ready_task_does_not_suspend() {
    let start = Instant::from_nanos(SEC);
    let mut t = timeout(0, 0u32, start);
    assert_eq!(run(&mut t, start, Some(1)), (Ok(1), 1, 0, start));
}

#[test]
fn zero_timeout_pending_task_expires_without_suspension() {
    let start = Instant::from_nanos(SEC);
    let mut t = timeout(0, 0u32, start);
    assert_eq!(run(&mut t, start, None), (Err(Error::Expired), 1, 0, start));
}

#[test]
fn failed_inner_task_is_failed_even_after_deadline() {
    let now = Instant::from_nanos(SEC);
    let t = deadline(Instant::from_nanos(10), ());
    assert!(t.is_timeout(now));
    let mut cx = Context::new();
    let r = t.poll(now, Some(Err::<i32, &str>("boom")), &mut cx);
    assert_eq!(r, TaskPoll::Ready(Err(Error::Failed("boom"))));
}

#[test]
fn ten_millis_expire_only_once_the_clock_crosses_them() {
    let start = Instant::from_nanos(SEC);
    let t = timeout(10 * MS, (), start);
    for step in 0..10 {
        let now = start.saturating_add(step * MS);
        let mut cx = Context::new();
        assert_eq!(t.poll::<i32, ()>(now, None, &mut cx), TaskPoll::Pending);
        assert_eq!(
            cx.reason(),
            Some(SuspensionReason::WakeAt(Instant::from_nanos(SEC + 10 * MS)))
        );
        assert_eq!(wait_plan(cx.reason(), now), WaitPlan::For((10 - step) * MS));
    }
    let now = start.saturating_add(10 * MS);
    let mut cx = Context::new();
    assert_eq!(t.poll::<i32, ()>(now, None, &mut cx), TaskPoll::Ready(Err(Error::Expired)));
    assert_eq!(cx.reason(), None);
}

#[test]
fn positive_timeout_suspends_then_expires() {
    let start = Instant::from_nanos(SEC);
    let mut t = timeout(10 * MS, 0u32, start);
    let (r, polls, suspensions, end) = run(&mut t, start, None);
    assert_eq!(r, Err(Error::Expired));
    assert_eq!(polls, 2);
    assert_eq!(suspensions, 1);
    assert_eq!(end, Instant::from_nanos(SEC + 10 * MS));
}

#[test]
fn extra_check_polls_the_inner_task_once_more() {
    let start = Instant::from_nanos(SEC);
    let mut t = timeout(SEC, 0u32, start).no_extra_check();
    assert_eq!(run(&mut t, start, None).1, 1);

    let mut t = timeout(SEC, 0u32, start);
    assert_eq!(run(&mut t, start, None).1, 2);

    // The extra poll may still find the task ready.
    let mut t = timeout(SEC, 0u32, start);
    assert_eq!(run(&mut t, start, Some(2)).0, Ok(2));
}

#[test]
fn past_deadline_expires_without_suspension() {
    let now = Instant::from_nanos(5 * SEC);
    let mut t = deadline(now, 0u32);
    assert_eq!(run(&mut t, now, None), (Err(Error::Expired), 1, 0, now));
    let mut t = deadline(now.saturating_sub(SEC), 0u32);
    assert_eq!(run(&mut t, now, None).0, Err(Error::Expired));
}

#[test]
fn timeout_duration_max() {
    let now = Instant::from_nanos(SEC);
    let mut t = timeout(u64::MAX, 0u32, now);
    assert_eq!(run(&mut t, now, Some(1)).0, Ok(1));
}

#[test]
fn unrepresentable_deadline_never_expires() {
    let now = Instant::from_nanos(SEC);
    let t = 0u32.timeout(u64::MAX, now);
    for later in [now, Instant::from_nanos(u64::MAX)] {
        assert!(!t.is_timeout(later));
        let mut cx = Context::new();
        assert_eq!(t.poll::<i32, ()>(later, None, &mut cx), TaskPoll::Pending);
        assert_eq!(cx.reason(), None);
        assert_eq!(wait_plan(cx.reason(), later), WaitPlan::Indefinitely);
    }
}

#[test]
fn deadline_method_sets_the_instant() {
    let at = Instant::from_nanos(42);
    let t = 'x'.deadline(at);
    assert!(!t.is_timeout(Instant::from_nanos(41)));
    assert!(t.is_timeout(Instant::from_nanos(42)));
}
