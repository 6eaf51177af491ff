use sync_primitives::channel::{
    Channel, ChannelAction, ChannelCall, ChannelOutcome, ChannelReply, RawChannel, Receipt,
    ReceiveError, SendError, TryReceiveError, TrySendError,
};
use sync_primitives::utils::mutex_common::{Identities, Progress, Wake};
use sync_primitives::utils::ring_buffer::RingBuffer;
use sync_primitives::word::Reply;

#[test]
fn basic_send_receive() {
    let mut ids = Identities::new();
    let mut channel = Channel::<i32, 4>::new(&mut ids);
    let (tx, rx) = channel.channel(&mut ids);

    tx.send(&mut channel, 42).finished().unwrap();
    assert_eq!(rx.recv(&mut channel).finished().map(|receipt| receipt.message), Ok(42));
}

#[test]
fn multiple_messages() {
    let mut ids = Identities::new();
    let mut channel = Channel::<i32, 4>::new(&mut ids);
    let (tx, rx) = channel.channel(&mut ids);

    for i in 0..4 {
        tx.send(&mut channel, i).finished().unwrap();
    }
    for i in 0..4 {
        assert_eq!(rx.recv(&mut channel).finished().map(|receipt| receipt.message), Ok(i));
    }
}

#[test]
fn receiver_gets_buffered_messages_after_senders_dropped() {
    let mut ids = Identities::new();
    let mut channel = Channel::<i32, 4>::new(&mut ids);
    let (tx, rx) = channel.channel(&mut ids);

    tx.send(&mut channel, 1).finished().unwrap();
    tx.send(&mut channel, 2).finished().unwrap();
    tx.disconnect(&mut channel);

    assert_eq!(rx.recv(&mut channel).finished().map(|receipt| receipt.message), Ok(1));
    assert_eq!(rx.recv(&mut channel).finished().map(|receipt| receipt.message), Ok(2));
    assert_eq!(rx.recv(&mut channel).finished(), Err(ReceiveError::Disconnected));
}

#[test]
fn try_send_full_buffer() {
    let mut ids = Identities::new();
    let mut channel = Channel::<i32, 2>::new(&mut ids);
    let (tx, rx) = channel.channel(&mut ids);

    assert!(tx.try_send(&mut channel, 1).is_ok());
    assert!(tx.try_send(&mut channel, 2).is_ok());
    match tx.try_send(&mut channel, 3) {
        Err(TrySendError::BufferFull(3)) => (),
        _ => panic!("Should return BufferFull"),
    }

    rx.disconnect(&mut channel);
    assert!(matches!(tx.try_send(&mut channel, 4), Err(TrySendError::Disconnected(4))));
}

#[test]
fn try_recv_empty_buffer() {
    let mut ids = Identities::new();
    let mut channel = Channel::<i32, 2>::new(&mut ids);
    let (tx, rx) = channel.channel(&mut ids);

    assert!(matches!(rx.try_recv(&mut channel), Err(TryReceiveError::BufferEmpty)));
    tx.send(&mut channel, 42).finished().unwrap();
    assert_eq!(rx.try_recv(&mut channel), Ok(42));

    tx.disconnect(&mut channel);
    assert!(matches!(rx.try_recv(&mut channel), Err(TryReceiveError::Disconnected)));
}

#[test]
fn cloned_senders() {
    let mut ids = Identities::new();
    let mut channel = Channel::<i32, 4>::new(&mut ids);
    let (tx1, rx) = channel.channel(&mut ids);
    let tx2 = sync_primitives::channel::Sender::clone(&tx1, &mut channel);

    tx1.send(&mut channel, 1).finished().unwrap();
    tx2.send(&mut channel, 2).finished().unwrap();

    let mut msgs = vec![
        rx.recv(&mut channel).finished().unwrap().message,
        rx.recv(&mut channel).finished().unwrap().message,
    ];
    msgs.sort();
    assert_eq!(msgs, vec![1, 2]);
    tx1.disconnect(&mut channel);
    assert_eq!(rx.try_recv(&mut channel), Err(TryReceiveError::BufferEmpty));
    tx2.disconnect(&mut channel);
    assert_eq!(rx.try_recv(&mut channel), Err(TryReceiveError::Disconnected));
}

#[test]
fn blocking_send_receive() {
    let mut ids = Identities::new();
    let mut channel = Channel::<i32, 2>::new(&mut ids);
    let (tx, rx) = channel.channel(&mut ids);

    let call = match rx.recv(&mut channel) {
        Progress::Pending(call) => call,
        Progress::Finished(_) => panic!("there is no message yet"),
    };
    assert_eq!(call, ChannelCall::RecvSleep);
    assert!(rx.resume(&mut channel, call).is_pending());
    assert_eq!(tx.send(&mut channel, 99).finished().unwrap(), Wake::One);
    assert_eq!(rx.resume(&mut channel, call).finished().map(|receipt| receipt.message), Ok(99));
}

#[test]
fn send_after_receiver_dropped() {
    let mut ids = Identities::new();
    let mut channel = Channel::<i32, 2>::new(&mut ids);
    let (tx, rx) = channel.channel(&mut ids);
    rx.disconnect(&mut channel);

    assert!(matches!(
        tx.send(&mut channel, 42).finished(),
        Err(SendError::Disconnected(42))
    ));
}

#[test]
fn sender_waits_for_room() {
    let mut ids = Identities::new();
    let mut channel = Channel::<i32, 2>::new(&mut ids);
    let (tx, rx) = channel.channel(&mut ids);
    assert_eq!(tx.send(&mut channel, 1).finished().unwrap(), Wake::Nobody);
    assert_eq!(tx.send(&mut channel, 2).finished().unwrap(), Wake::Nobody);
    let pending = match tx.send(&mut channel, 3) {
        Progress::Pending(pending) => pending,
        Progress::Finished(_) => panic!("there is no room"),
    };
    assert_eq!(pending.call, ChannelCall::SendSleep { seen: 0 });
    let pending = match tx.resume(&mut channel, pending) {
        Progress::Pending(pending) => pending,
        Progress::Finished(_) => panic!("there is no room"),
    };
    assert_eq!(
        rx.recv(&mut channel).finished(),
        Ok(Receipt { message: 1, wake: Wake::One })
    );
    tx.resume(&mut channel, pending).finished().unwrap();
    assert_eq!(rx.try_recv(&mut channel), Ok(2));
    assert_eq!(rx.try_recv(&mut channel), Ok(3));
    assert_eq!(rx.try_recv(&mut channel), Err(TryReceiveError::BufferEmpty));
}

#[test]
fn messages_arrive_in_order() {
    let mut ids = Identities::new();
    let mut channel = Channel::<u32, 4>::new(&mut ids);
    let (tx, rx) = channel.channel(&mut ids);
    let mut received: Vec<u32> = vec![];
    for i in 0..20 {
        tx.send(&mut channel, i).finished().unwrap();
        if i % 2 == 1 {
            received.push(rx.recv(&mut channel).finished().unwrap().message);
            received.push(rx.try_recv(&mut channel).unwrap());
        }
    }
    assert_eq!(received, (0..20).collect::<Vec<u32>>());
}

#[test]
fn channel_can_be_emptied() {
    let mut ids = Identities::new();
    let mut channel = Channel::<u32, 2>::new(&mut ids);
    let (tx, _rx) = channel.channel(&mut ids);
    tx.send(&mut channel, 5).finished().unwrap();
    let (_tx, rx) = channel.channel(&mut ids);
    assert_eq!(rx.try_recv(&mut channel), Err(TryReceiveError::BufferEmpty));
}

fn run(
    raw: &RawChannel,
    ring: &mut RingBuffer<u32, 2>,
    hand: &mut Option<u32>,
    start: ChannelCall,
) -> ChannelCall {
    let mut call = start;
    loop {
        let action = match call.action() {
            None => return call,
            Some(action) => action,
        };
        let takes = matches!(action, ChannelAction::Pop | ChannelAction::TryPop);
        let reply = match raw.perform(action) {
            Some(reply) => reply,
            None => {
                if takes {
                    *hand = ring.pop();
                    ChannelReply::Popped(hand.is_some())
                } else {
                    match ring.push(hand.take().unwrap()) {
                        Ok(()) => ChannelReply::Pushed(true),
                        Err(message) => {
                            *hand = Some(message);
                            ChannelReply::Pushed(false)
                        }
                    }
                }
            }
        };
        call = call.advance(reply);
        if matches!(call, ChannelCall::SendSleep { .. } | ChannelCall::RecvSleep) {
            return call;
        }
    }
}

#[test]
fn atomic_channel_passes_a_message() {
    let raw = RawChannel::new();
    let mut ring = RingBuffer::<u32, 2>::new();
    let mut nothing: Option<u32> = None;
    let asleep = run(&raw, &mut ring, &mut nothing, ChannelCall::RecvCheck);
    assert_eq!(asleep, ChannelCall::RecvSleep);
    let mut message = Some(7);
    assert_eq!(
        run(&raw, &mut ring, &mut message, ChannelCall::SendCheck),
        ChannelCall::Done(ChannelOutcome::Sent(Wake::One))
    );
    // The receiver is no longer marked as asleep, so it gets on.
    assert_eq!(
        run(&raw, &mut ring, &mut nothing, asleep),
        ChannelCall::Done(ChannelOutcome::Received(Wake::One))
    );
    assert_eq!(nothing, Some(7));
    assert_eq!(
        run(&raw, &mut ring, &mut nothing, ChannelCall::SenderDrop),
        ChannelCall::Done(ChannelOutcome::Dropped)
    );
    assert_eq!(
        run(&raw, &mut ring, &mut nothing, ChannelCall::RecvCheck),
        ChannelCall::Done(ChannelOutcome::Disconnected)
    );
}

#[test]
fn receiver_does_not_sleep_beside_a_message() {
    let raw = RawChannel::new();
    let mut ring = RingBuffer::<u32, 2>::new();
    let mut nothing: Option<u32> = None;
    // The message comes after the receiver has found none and before it notes that it sleeps.
    let marking = ChannelCall::RecvPop.advance(ChannelReply::Popped(false));
    assert_eq!(marking, ChannelCall::RecvMark);
    let mut message = Some(5);
    assert_eq!(
        run(&raw, &mut ring, &mut message, ChannelCall::SendCheck),
        ChannelCall::Done(ChannelOutcome::Sent(Wake::Nobody))
    );
    assert_eq!(
        run(&raw, &mut ring, &mut nothing, marking),
        ChannelCall::Done(ChannelOutcome::Received(Wake::One))
    );
    assert_eq!(nothing, Some(5));
}

#[test]
fn messages_that_are_left_are_received_without_senders() {
    let raw = RawChannel::new();
    let mut ring = RingBuffer::<u32, 2>::new();
    let mut nothing: Option<u32> = None;
    assert_eq!(ring.push(6), Ok(()));
    assert_eq!(
        run(&raw, &mut ring, &mut nothing, ChannelCall::SenderDrop),
        ChannelCall::Done(ChannelOutcome::Dropped)
    );
    // The message came after `try_recv` found none, and its sender is gone.
    assert_eq!(
        run(&raw, &mut ring, &mut nothing, ChannelCall::TryRecvCheck),
        ChannelCall::Done(ChannelOutcome::Received(Wake::Nobody))
    );
    assert_eq!(nothing, Some(6));
    assert_eq!(
        run(&raw, &mut ring, &mut nothing, ChannelCall::TryRecvCheck),
        ChannelCall::Done(ChannelOutcome::Disconnected)
    );
}

#[test]
fn errors_of_sending_can_be_copied() {
    let error = SendError::Disconnected(4);
    let copy = error;
    assert_eq!(error, copy);
    let error = TrySendError::BufferFull(4);
    let copy = error;
    assert_eq!(error, copy);
}

#[test]
fn too_many_senders_are_refused() {
    let many = usize::MAX / 2 + 1;
    assert_eq!(
        ChannelCall::SenderClone.advance(ChannelReply::Senders(Reply::Value(many))),
        ChannelCall::Done(ChannelOutcome::TooManySenders)
    );
    assert_eq!(
        ChannelCall::SenderClone.advance(ChannelReply::Senders(Reply::Value(many - 1))),
        ChannelCall::Done(ChannelOutcome::Cloned)
    );
}
