use fiber_async::channel::{
    ChannelBox, Received, RecvStep, Send, SendStep, TryRecvError, TrySendError,
};
use fiber_async::context::TaskPoll;

fn open_channel(capacity: usize) -> ChannelBox<i32> {
    let mut chan = ChannelBox::new(capacity);
    chan.inc_tx();
    chan.inc_rx();
    chan
}

#[test]
fn capacity_four_keeps_send_order() {
    let mut chan = open_channel(4);
    assert_eq!(chan.try_send(1), Ok(true));
    assert_eq!(chan.try_send(2), Ok(false));
    assert_eq!(chan.try_send(3), Ok(false));
    assert_eq!(chan.len(), 3);
    assert_eq!(chan.try_recv(), Ok(Received { value: 1, wake: true }));
    assert_eq!(chan.try_recv(), Ok(Received { value: 2, wake: false }));
    assert_eq!(chan.try_recv(), Ok(Received { value: 3, wake: false }));
    assert_eq!(chan.try_recv(), Err(TryRecvError::Empty));
}

#[test]
fn nth_send_waits_until_one_receive() {
    let mut chan = open_channel(4);
    for v in 0..3 {
        assert!(chan.try_send(v).is_ok());
    }
    assert!(chan.is_full());
    assert_eq!(chan.try_send(3), Err(TrySendError::Full(3)));
    assert_eq!(chan.send(3), SendStep::Wait(3));
    assert_eq!(chan.len(), 3);
    assert_eq!(chan.try_recv(), Ok(Received { value: 0, wake: true }));
    assert_eq!(chan.send(3), SendStep::Sent { wake: false });
    assert_eq!(close_and_drain(chan), vec![1, 2, 3]);
}

fn close_and_drain(mut chan: ChannelBox<i32>) -> Vec<i32> {
    while chan.tx() > 0 {
        chan.dec_tx();
    }
    while chan.rx() > 0 {
        chan.dec_rx();
    }
    assert!(chan.no_refs());
    chan.into_remaining()
}

#[test]
fn ring_wraps_around() {
    let mut chan = open_channel(3);
    let mut expected = 0;
    for v in 0..10 {
        assert_eq!(chan.try_send(v), Ok(true));
        assert_eq!(chan.try_send(v + 100), Ok(false));
        assert_eq!(chan.try_send(v + 200), Err(TrySendError::Full(v + 200)));
        assert_eq!(chan.try_recv(), Ok(Received { value: v, wake: true }));
        assert_eq!(chan.try_recv(), Ok(Received { value: v + 100, wake: false }));
        expected += 1;
        assert!(chan.is_empty());
        assert!(chan.tail() < 3 && chan.head() < 3);
    }
    assert_eq!(expected, 10);
}

#[test]
fn capacity_one_has_no_usable_slot() {
    let mut chan = open_channel(1);
    assert!(chan.is_full());
    assert!(chan.is_empty());
    assert_eq!(chan.try_send(7), Err(TrySendError::Full(7)));
}

#[test]
fn send_without_receiver_is_disconnected() {
    let mut chan = open_channel(4);
    assert_eq!(chan.try_send(1), Ok(true));
    chan.dec_rx();
    assert_eq!(chan.rx(), 0);
    assert_eq!(chan.try_send(2), Err(TrySendError::Disconnected(2)));
    assert_eq!(chan.send(2), SendStep::Disconnected(2));
}

#[test]
fn blocked_sender_sees_receiver_leave() {
    let mut chan = open_channel(2);
    assert_eq!(chan.send(1), SendStep::Sent { wake: true });
    assert_eq!(chan.send(2), SendStep::Wait(2));
    chan.dec_rx();
    assert_eq!(chan.send(2), SendStep::Disconnected(2));
}

#[test]
fn buffered_values_drain_after_senders_leave() {
    let mut chan = open_channel(4);
    chan.try_send(10).unwrap();
    chan.try_send(20).unwrap();
    chan.dec_tx();
    assert_eq!(chan.tx(), 0);
    assert_eq!(chan.recv(), RecvStep::Received(Received { value: 10, wake: false }));
    assert_eq!(chan.try_recv(), Ok(Received { value: 20, wake: false }));
    assert_eq!(chan.try_recv(), Err(TryRecvError::Disconnected));
    assert_eq!(chan.recv(), RecvStep::Disconnected);
}

#[test]
fn empty_receive_waits_while_a_sender_lives() {
    let mut chan = open_channel(4);
    assert_eq!(chan.recv(), RecvStep::Wait);
    assert_eq!(chan.try_recv(), Err(TryRecvError::Empty));
}

#[test]
fn endpoint_counts() {
    let mut chan: ChannelBox<i32> = ChannelBox::new(4);
    assert!(chan.no_refs());
    assert_eq!(chan.try_send(1), Err(TrySendError::Disconnected(1)));
    assert_eq!(chan.try_recv(), Err(TryRecvError::Disconnected));
    chan.inc_tx();
    chan.inc_tx();
    chan.inc_rx();
    assert_eq!((chan.tx(), chan.rx()), (2, 1));
    assert!(!chan.no_refs());
    chan.dec_tx();
    chan.dec_tx();
    chan.dec_rx();
    assert!(chan.no_refs());
}

#[test]
fn remaining_values_released_once_in_order() {
    let mut chan = open_channel(5);
    for v in 1..=4 {
        chan.try_send(v).unwrap();
    }
    chan.try_recv().unwrap();
    chan.try_send(5).unwrap();
    assert_eq!(close_and_drain(chan), vec![2, 3, 4, 5]);
}

#[test]
fn pending_send_completes_after_a_receive() {
    let mut chan = open_channel(2);
    let mut first = Send::new(1);
    assert_eq!(first.poll(&mut chan), TaskPoll::Ready(Ok(true)));
    let mut second = Send::new(2);
    assert_eq!(second.poll(&mut chan), TaskPoll::Pending);
    assert_eq!(second.poll(&mut chan), TaskPoll::Pending);
    assert_eq!(chan.try_recv(), Ok(Received { value: 1, wake: true }));
    assert_eq!(second.poll(&mut chan), TaskPoll::Ready(Ok(true)));
    let mut third = Send::new(3);
    assert_eq!(third.poll(&mut chan), TaskPoll::Pending);
    chan.dec_rx();
    assert_eq!(third.poll(&mut chan), TaskPoll::Ready(Err(3)));
}
