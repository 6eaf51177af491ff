//! A bounded channel with many senders and one receiver.
//!
//! The messages are in a [`RingBuffer`]. One word counts the senders. Senders that find the ring
//! full sleep on a second word, which every receipt changes. A third word says whether the receiver
//! is awake, sleeps or is gone; the receiver sleeps on it. The protocol of the words is
//! [`ChannelCall`]. It runs on ordinary words, one call at a time, as [`Channel`] does;
//! [`RawChannel`] performs the actions on the words where they are atomics.

use crate::utils::mutex_common::{Identities, Progress, Wake};
use crate::utils::ring_buffer::{RingBuffer, RingView};
use crate::word::{Action, Op, Order, Reply};
use std::sync::atomic::{AtomicU32, AtomicUsize};
use vstd::arithmetic::power2;
use vstd::prelude::*;

verus! {

/// How many senders there may be before another one is added.
pub const MAX_SENDER_COUNT: usize = usize::MAX / 2;

/// The receiver is gone.
pub const RECEIVER_GONE: u32 = 0;

/// The receiver is there, and awake.
pub const RECEIVER_AWAKE: u32 = 1;

/// The receiver is there, and sleeps or is about to.
pub const RECEIVER_SLEEPS: u32 = 2;

/// The 32-bit words of the channel.
#[derive(Clone, Copy, Debug, PartialEq, Eq)]
pub enum ChannelWord {
    SenderWaitNum,
    ReceiverState,
}

/// An action of a call.
#[derive(Debug, PartialEq, Eq)]
pub enum ChannelAction {
    /// An action on a 32-bit word.
    Word(Action<ChannelWord>),
    /// An atomic operation on the number of senders.
    Senders(Op<usize>),
    /// Add the message to the ring.
    Push,
    /// Add the message to the ring, without trying again.
    TryPush,
    /// Take a message from the ring.
    Pop,
    /// Take a message from the ring, without trying again.
    TryPop,
}

/// What an action answers.
#[derive(Debug, PartialEq, Eq)]
pub enum ChannelReply {
    Word(Reply<u32>),
    Senders(Reply<usize>),
    /// Whether the message was added.
    Pushed(bool),
    /// Whether a message was taken.
    Popped(bool),
}

impl ChannelAction {
    /// The orderings of the operation are legal.
    pub open spec fn legal(self) -> bool {
        match self {
            ChannelAction::Word(action) => action.legal(),
            ChannelAction::Senders(op) => op.legal(),
            _ => true,
        }
    }

    /// The replies that fit an action, whatever the words and the ring hold.
    pub open spec fn fits(self, reply: ChannelReply) -> bool {
        match self {
            ChannelAction::Word(action) => {
                reply matches ChannelReply::Word(rep) && action.fits(rep)
            },
            ChannelAction::Senders(op) => reply matches ChannelReply::Senders(rep) && op.fits(rep),
            ChannelAction::Push | ChannelAction::TryPush => reply is Pushed,
            ChannelAction::Pop | ChannelAction::TryPop => reply is Popped,
        }
    }
}

/// How a call ends.
#[derive(Clone, Copy, Debug, PartialEq, Eq)]
pub enum ChannelOutcome {
    Sent(Wake),
    BufferFull,
    Received(Wake),
    BufferEmpty,
    /// The other side is gone.
    Disconnected,
    Cloned,
    /// There are too many senders.
    TooManySenders,
    Dropped,
}

/// Where a call stands: the step that it takes next, or how it ended.
#[derive(Clone, Copy, Debug, PartialEq, Eq)]
pub enum ChannelCall {
    /// `send`: see whether the receiver is there.
    SendCheck,
    /// `send`: add the message.
    SendPush,
    /// `send`, `try_send`: see whether the receiver is awake.
    SendLook,
    /// `send`, `try_send`: note that the receiver is woken.
    SendMark,
    /// `send`, `try_send`: wake the receiver.
    SendWake,
    /// `send`: look at the number of receipts.
    SendCount,
    /// `send`: sleep until there is a receipt.
    SendSleep { seen: u32 },
    /// `try_send`: see whether the receiver is there.
    TrySendCheck,
    /// `try_send`: add the message.
    TrySendPush,
    /// `clone`: count one more sender.
    SenderClone,
    /// Drop of a sender: count one sender less.
    SenderDrop,
    /// `recv`: see whether there are senders.
    RecvCheck,
    /// `recv` without senders: take a message that is left.
    RecvDrain,
    /// `recv`: take a message.
    RecvPop,
    /// `recv`: count a receipt.
    RecvCount,
    /// `recv`: wake a sender.
    RecvWake,
    /// `recv`: note that the receiver sleeps.
    RecvMark,
    /// `recv`: take a message that came in between.
    RecvPopAgain,
    /// `recv`: sleep until there is a message.
    RecvSleep,
    /// `try_recv`: take a message.
    TryRecvPop,
    /// `try_recv`: see whether there are senders.
    TryRecvCheck,
    /// `try_recv` without senders: take a message that is left.
    TryRecvDrain,
    /// Drop of the receiver: note that it is gone.
    ReceiverDrop,
    /// The call is over.
    Done(ChannelOutcome),
}

impl ChannelCall {
    /// The action of the step; `None` when the call is over.
    pub open spec fn spec_action(self) -> Option<ChannelAction> {
        match self {
            ChannelCall::SendCheck | ChannelCall::TrySendCheck | ChannelCall::SendLook => Some(
                ChannelAction::Word(
                    Action::Word(ChannelWord::ReceiverState, Op::Load(Order::Relaxed)),
                ),
            ),
            ChannelCall::SendPush => Some(ChannelAction::Push),
            ChannelCall::TrySendPush => Some(ChannelAction::TryPush),
            ChannelCall::SendMark => Some(
                ChannelAction::Word(
                    Action::Word(
                        ChannelWord::ReceiverState,
                        Op::CompareExchange {
                            current: RECEIVER_SLEEPS,
                            new: RECEIVER_AWAKE,
                            order: Order::Relaxed,
                        },
                    ),
                ),
            ),
            ChannelCall::SendWake => Some(
                ChannelAction::Word(Action::WakeOne(ChannelWord::ReceiverState)),
            ),
            ChannelCall::SendCount => Some(
                ChannelAction::Word(
                    Action::Word(ChannelWord::SenderWaitNum, Op::Load(Order::Relaxed)),
                ),
            ),
            ChannelCall::SendSleep { seen } => Some(
                ChannelAction::Word(Action::Wait(ChannelWord::SenderWaitNum, seen)),
            ),
            ChannelCall::SenderClone => Some(
                ChannelAction::Senders(Op::FetchAdd(1, Order::Relaxed)),
            ),
            ChannelCall::SenderDrop => Some(
                ChannelAction::Senders(Op::FetchSub(1, Order::Release)),
            ),
            ChannelCall::RecvCheck | ChannelCall::TryRecvCheck => Some(
                ChannelAction::Senders(Op::Load(Order::Relaxed)),
            ),
            ChannelCall::RecvDrain
            | ChannelCall::RecvPop
            | ChannelCall::RecvPopAgain
            | ChannelCall::TryRecvDrain => Some(ChannelAction::Pop),
            ChannelCall::TryRecvPop => Some(ChannelAction::TryPop),
            ChannelCall::RecvCount => Some(
                ChannelAction::Word(
                    Action::Word(ChannelWord::SenderWaitNum, Op::FetchAdd(1, Order::Relaxed)),
                ),
            ),
            ChannelCall::RecvWake => Some(
                ChannelAction::Word(Action::WakeOne(ChannelWord::SenderWaitNum)),
            ),
            ChannelCall::RecvMark => Some(
                ChannelAction::Word(
                    Action::Word(
                        ChannelWord::ReceiverState,
                        Op::Store(RECEIVER_SLEEPS, Order::Relaxed),
                    ),
                ),
            ),
            ChannelCall::RecvSleep => Some(
                ChannelAction::Word(Action::Wait(ChannelWord::ReceiverState, RECEIVER_SLEEPS)),
            ),
            ChannelCall::ReceiverDrop => Some(
                ChannelAction::Word(
                    Action::Word(
                        ChannelWord::ReceiverState,
                        Op::Store(RECEIVER_GONE, Order::Relaxed),
                    ),
                ),
            ),
            ChannelCall::Done(_) => None,
        }
    }

    /// Where the call stands after the reply to its action.
    pub open spec fn spec_advance(self, reply: ChannelReply) -> ChannelCall {
        match (self, reply) {
            (ChannelCall::SendCheck, ChannelReply::Word(Reply::Value(state))) => {
                if state == RECEIVER_GONE {
                    ChannelCall::Done(ChannelOutcome::Disconnected)
                } else {
                    ChannelCall::SendPush
                }
            },
            (ChannelCall::TrySendCheck, ChannelReply::Word(Reply::Value(state))) => {
                if state == RECEIVER_GONE {
                    ChannelCall::Done(ChannelOutcome::Disconnected)
                } else {
                    ChannelCall::TrySendPush
                }
            },
            (ChannelCall::SendPush, ChannelReply::Pushed(added)) => {
                if added {
                    ChannelCall::SendLook
                } else {
                    ChannelCall::SendCount
                }
            },
            (ChannelCall::TrySendPush, ChannelReply::Pushed(added)) => {
                if added {
                    ChannelCall::SendLook
                } else {
                    ChannelCall::Done(ChannelOutcome::BufferFull)
                }
            },
            (ChannelCall::SendLook, ChannelReply::Word(Reply::Value(state))) => {
                if state != RECEIVER_AWAKE {
                    ChannelCall::SendMark
                } else {
                    ChannelCall::Done(ChannelOutcome::Sent(Wake::Nobody))
                }
            },
            (ChannelCall::SendMark, ChannelReply::Word(Reply::Swapped)) => ChannelCall::SendWake,
            (ChannelCall::SendMark, _) => ChannelCall::Done(ChannelOutcome::Sent(Wake::Nobody)),
            (ChannelCall::SendWake, _) => ChannelCall::Done(ChannelOutcome::Sent(Wake::One)),
            (ChannelCall::SendCount, ChannelReply::Word(Reply::Value(seen))) => {
                ChannelCall::SendSleep { seen }
            },
            (ChannelCall::SendSleep { .. }, ChannelReply::Word(Reply::Done)) => {
                ChannelCall::SendCheck
            },
            (ChannelCall::SenderClone, ChannelReply::Senders(Reply::Value(senders))) => {
                if senders <= MAX_SENDER_COUNT {
                    ChannelCall::Done(ChannelOutcome::Cloned)
                } else {
                    ChannelCall::Done(ChannelOutcome::TooManySenders)
                }
            },
            (ChannelCall::SenderDrop, _) | (ChannelCall::ReceiverDrop, _) => {
                ChannelCall::Done(ChannelOutcome::Dropped)
            },
            (ChannelCall::RecvCheck, ChannelReply::Senders(Reply::Value(senders))) => {
                if senders == 0 {
                    ChannelCall::RecvDrain
                } else {
                    ChannelCall::RecvPop
                }
            },
            (ChannelCall::RecvDrain, ChannelReply::Popped(taken)) => {
                if taken {
                    ChannelCall::Done(ChannelOutcome::Received(Wake::Nobody))
                } else {
                    ChannelCall::Done(ChannelOutcome::Disconnected)
                }
            },
            (ChannelCall::RecvPop, ChannelReply::Popped(taken)) => {
                if taken {
                    ChannelCall::RecvCount
                } else {
                    ChannelCall::RecvMark
                }
            },
            (ChannelCall::RecvCount, _) => ChannelCall::RecvWake,
            (ChannelCall::RecvWake, _) => ChannelCall::Done(ChannelOutcome::Received(Wake::One)),
            (ChannelCall::RecvMark, _) => ChannelCall::RecvPopAgain,
            (ChannelCall::RecvPopAgain, ChannelReply::Popped(taken)) => {
                if taken {
                    ChannelCall::RecvCount
                } else {
                    ChannelCall::RecvSleep
                }
            },
            (ChannelCall::RecvSleep, ChannelReply::Word(Reply::Done)) => ChannelCall::RecvCheck,
            (ChannelCall::TryRecvPop, ChannelReply::Popped(taken)) => {
                if taken {
                    ChannelCall::Done(ChannelOutcome::Received(Wake::Nobody))
                } else {
                    ChannelCall::TryRecvCheck
                }
            },
            (ChannelCall::TryRecvCheck, ChannelReply::Senders(Reply::Value(senders))) => {
                if senders == 0 {
                    ChannelCall::TryRecvDrain
                } else {
                    ChannelCall::Done(ChannelOutcome::BufferEmpty)
                }
            },
            (ChannelCall::TryRecvDrain, ChannelReply::Popped(taken)) => {
                if taken {
                    ChannelCall::Done(ChannelOutcome::Received(Wake::Nobody))
                } else {
                    ChannelCall::Done(ChannelOutcome::Disconnected)
                }
            },
            (_, _) => self,
        }
    }

    /// The action of the step.
    pub fn action(&self) -> (action: Option<ChannelAction>)
        ensures
            action == self.spec_action(),
            action matches Some(act) ==> act.legal(),
    {
        match *self {
            ChannelCall::SendCheck | ChannelCall::TrySendCheck | ChannelCall::SendLook => Some(
                ChannelAction::Word(
                    Action::Word(ChannelWord::ReceiverState, Op::Load(Order::Relaxed)),
                ),
            ),
            ChannelCall::SendPush => Some(ChannelAction::Push),
            ChannelCall::TrySendPush => Some(ChannelAction::TryPush),
            ChannelCall::SendMark => Some(
                ChannelAction::Word(
                    Action::Word(
                        ChannelWord::ReceiverState,
                        Op::CompareExchange {
                            current: RECEIVER_SLEEPS,
                            new: RECEIVER_AWAKE,
                            order: Order::Relaxed,
                        },
                    ),
                ),
            ),
            ChannelCall::SendWake => Some(
                ChannelAction::Word(Action::WakeOne(ChannelWord::ReceiverState)),
            ),
            ChannelCall::SendCount => Some(
                ChannelAction::Word(
                    Action::Word(ChannelWord::SenderWaitNum, Op::Load(Order::Relaxed)),
                ),
            ),
            ChannelCall::SendSleep { seen } => Some(
                ChannelAction::Word(Action::Wait(ChannelWord::SenderWaitNum, seen)),
            ),
            ChannelCall::SenderClone => Some(
                ChannelAction::Senders(Op::FetchAdd(1, Order::Relaxed)),
            ),
            ChannelCall::SenderDrop => Some(
                ChannelAction::Senders(Op::FetchSub(1, Order::Release)),
            ),
            ChannelCall::RecvCheck | ChannelCall::TryRecvCheck => Some(
                ChannelAction::Senders(Op::Load(Order::Relaxed)),
            ),
            ChannelCall::RecvDrain
            | ChannelCall::RecvPop
            | ChannelCall::RecvPopAgain
            | ChannelCall::TryRecvDrain => Some(ChannelAction::Pop),
            ChannelCall::TryRecvPop => Some(ChannelAction::TryPop),
            ChannelCall::RecvCount => Some(
                ChannelAction::Word(
                    Action::Word(ChannelWord::SenderWaitNum, Op::FetchAdd(1, Order::Relaxed)),
                ),
            ),
            ChannelCall::RecvWake => Some(
                ChannelAction::Word(Action::WakeOne(ChannelWord::SenderWaitNum)),
            ),
            ChannelCall::RecvMark => Some(
                ChannelAction::Word(
                    Action::Word(
                        ChannelWord::ReceiverState,
                        Op::Store(RECEIVER_SLEEPS, Order::Relaxed),
                    ),
                ),
            ),
            ChannelCall::RecvSleep => Some(
                ChannelAction::Word(Action::Wait(ChannelWord::ReceiverState, RECEIVER_SLEEPS)),
            ),
            ChannelCall::ReceiverDrop => Some(
                ChannelAction::Word(
                    Action::Word(
                        ChannelWord::ReceiverState,
                        Op::Store(RECEIVER_GONE, Order::Relaxed),
                    ),
                ),
            ),
            ChannelCall::Done(_) => None,
        }
    }

    /// Takes the reply to the action and moves on.
    pub fn advance(self, reply: ChannelReply) -> (next: ChannelCall)
        ensures
            next == self.spec_advance(reply),
    {
        match (self, reply) {
            (ChannelCall::SendCheck, ChannelReply::Word(Reply::Value(state))) => {
                if state == RECEIVER_GONE {
                    ChannelCall::Done(ChannelOutcome::Disconnected)
                } else {
                    ChannelCall::SendPush
                }
            },
            (ChannelCall::TrySendCheck, ChannelReply::Word(Reply::Value(state))) => {
                if state == RECEIVER_GONE {
                    ChannelCall::Done(ChannelOutcome::Disconnected)
                } else {
                    ChannelCall::TrySendPush
                }
            },
            (ChannelCall::SendPush, ChannelReply::Pushed(added)) => {
                if added {
                    ChannelCall::SendLook
                } else {
                    ChannelCall::SendCount
                }
            },
            (ChannelCall::TrySendPush, ChannelReply::Pushed(added)) => {
                if added {
                    ChannelCall::SendLook
                } else {
                    ChannelCall::Done(ChannelOutcome::BufferFull)
                }
            },
            (ChannelCall::SendLook, ChannelReply::Word(Reply::Value(state))) => {
                if state != RECEIVER_AWAKE {
                    ChannelCall::SendMark
                } else {
                    ChannelCall::Done(ChannelOutcome::Sent(Wake::Nobody))
                }
            },
            (ChannelCall::SendMark, ChannelReply::Word(Reply::Swapped)) => ChannelCall::SendWake,
            (ChannelCall::SendMark, _) => ChannelCall::Done(ChannelOutcome::Sent(Wake::Nobody)),
            (ChannelCall::SendWake, _) => ChannelCall::Done(ChannelOutcome::Sent(Wake::One)),
            (ChannelCall::SendCount, ChannelReply::Word(Reply::Value(seen))) => {
                ChannelCall::SendSleep { seen }
            },
            (ChannelCall::SendSleep { .. }, ChannelReply::Word(Reply::Done)) => {
                ChannelCall::SendCheck
            },
            (ChannelCall::SenderClone, ChannelReply::Senders(Reply::Value(senders))) => {
                if senders <= MAX_SENDER_COUNT {
                    ChannelCall::Done(ChannelOutcome::Cloned)
                } else {
                    ChannelCall::Done(ChannelOutcome::TooManySenders)
                }
            },
            (ChannelCall::SenderDrop, _) | (ChannelCall::ReceiverDrop, _) => {
                ChannelCall::Done(ChannelOutcome::Dropped)
            },
            (ChannelCall::RecvCheck, ChannelReply::Senders(Reply::Value(senders))) => {
                if senders == 0 {
                    ChannelCall::RecvDrain
                } else {
                    ChannelCall::RecvPop
                }
            },
            (ChannelCall::RecvDrain, ChannelReply::Popped(taken)) => {
                if taken {
                    ChannelCall::Done(ChannelOutcome::Received(Wake::Nobody))
                } else {
                    ChannelCall::Done(ChannelOutcome::Disconnected)
                }
            },
            (ChannelCall::RecvPop, ChannelReply::Popped(taken)) => {
                if taken {
                    ChannelCall::RecvCount
                } else {
                    ChannelCall::RecvMark
                }
            },
            (ChannelCall::RecvCount, _) => ChannelCall::RecvWake,
            (ChannelCall::RecvWake, _) => ChannelCall::Done(ChannelOutcome::Received(Wake::One)),
            (ChannelCall::RecvMark, _) => ChannelCall::RecvPopAgain,
            (ChannelCall::RecvPopAgain, ChannelReply::Popped(taken)) => {
                if taken {
                    ChannelCall::RecvCount
                } else {
                    ChannelCall::RecvSleep
                }
            },
            (ChannelCall::RecvSleep, ChannelReply::Word(Reply::Done)) => ChannelCall::RecvCheck,
            (ChannelCall::TryRecvPop, ChannelReply::Popped(taken)) => {
                if taken {
                    ChannelCall::Done(ChannelOutcome::Received(Wake::Nobody))
                } else {
                    ChannelCall::TryRecvCheck
                }
            },
            (ChannelCall::TryRecvCheck, ChannelReply::Senders(Reply::Value(senders))) => {
                if senders == 0 {
                    ChannelCall::TryRecvDrain
                } else {
                    ChannelCall::Done(ChannelOutcome::BufferEmpty)
                }
            },
            (ChannelCall::TryRecvDrain, ChannelReply::Popped(taken)) => {
                if taken {
                    ChannelCall::Done(ChannelOutcome::Received(Wake::Nobody))
                } else {
                    ChannelCall::Done(ChannelOutcome::Disconnected)
                }
            },
            (_, _) => self,
        }
    }
}

impl ChannelCall {
    /// The channel, the call and the message in hand after all the steps that the call can take
    /// alone: it is over then, or asleep.
    pub open spec fn alone<T>(
        self,
        channel: ChannelView<T>,
        capacity: nat,
        hand: Option<T>,
    ) -> (ChannelView<T>, ChannelCall, Option<T>) {
        let first = if channel.ring.items.len() > 0 {
            Some(channel.ring.items[0])
        } else {
            None
        };
        match self {
            ChannelCall::SendCheck => channel.send_ends(
                channel.sends(capacity, hand->Some_0),
                hand,
            ),
            ChannelCall::SendPush =>
                if channel.has_room(capacity) {
                    (
                        channel.sent(hand->Some_0),
                        ChannelCall::Done(ChannelOutcome::Sent(channel.whom_to_wake())),
                        None,
                    )
                } else {
                    (channel, ChannelCall::SendSleep { seen: channel.sender_wait_num }, hand)
                },
            ChannelCall::SendLook | ChannelCall::SendMark => (
                channel.with_receiver_woken(),
                ChannelCall::Done(ChannelOutcome::Sent(channel.whom_to_wake())),
                hand,
            ),
            ChannelCall::SendWake => (
                channel,
                ChannelCall::Done(ChannelOutcome::Sent(Wake::One)),
                hand,
            ),
            ChannelCall::SendCount => (
                channel,
                ChannelCall::SendSleep { seen: channel.sender_wait_num },
                hand,
            ),
            ChannelCall::SendSleep { seen } =>
                if channel.sender_wait_num == seen {
                    (channel, self, hand)
                } else {
                    channel.send_ends(channel.sends(capacity, hand->Some_0), hand)
                },
            ChannelCall::TrySendCheck =>
                if channel.receiver_state == RECEIVER_GONE {
                    (channel, ChannelCall::Done(ChannelOutcome::Disconnected), hand)
                } else {
                    channel.try_send_ends(capacity, hand)
                },
            ChannelCall::TrySendPush => channel.try_send_ends(capacity, hand),
            ChannelCall::SenderClone => (
                ChannelView { senders_count: channel.senders_count.wrapping_add(1), ..channel },
                if channel.senders_count <= MAX_SENDER_COUNT {
                    ChannelCall::Done(ChannelOutcome::Cloned)
                } else {
                    ChannelCall::Done(ChannelOutcome::TooManySenders)
                },
                hand,
            ),
            ChannelCall::SenderDrop => (
                ChannelView { senders_count: channel.senders_count.wrapping_sub(1), ..channel },
                ChannelCall::Done(ChannelOutcome::Dropped),
                hand,
            ),
            ChannelCall::RecvCheck => channel.receive_ends(),
            ChannelCall::RecvDrain | ChannelCall::TryRecvDrain =>
                if first is Some {
                    (
                        channel.popped(),
                        ChannelCall::Done(ChannelOutcome::Received(Wake::Nobody)),
                        first,
                    )
                } else {
                    (channel, ChannelCall::Done(ChannelOutcome::Disconnected), None)
                },
            ChannelCall::RecvPop =>
                if first is Some {
                    (
                        channel.received(),
                        ChannelCall::Done(ChannelOutcome::Received(Wake::One)),
                        first,
                    )
                } else {
                    (
                        ChannelView { receiver_state: RECEIVER_SLEEPS, ..channel },
                        ChannelCall::RecvSleep,
                        None,
                    )
                },
            ChannelCall::RecvCount => (
                ChannelView {
                    sender_wait_num: channel.sender_wait_num.wrapping_add(1),
                    ..channel
                },
                ChannelCall::Done(ChannelOutcome::Received(Wake::One)),
                hand,
            ),
            ChannelCall::RecvWake => (
                channel,
                ChannelCall::Done(ChannelOutcome::Received(Wake::One)),
                hand,
            ),
            ChannelCall::RecvMark => {
                let marked = ChannelView { receiver_state: RECEIVER_SLEEPS, ..channel };
                if first is Some {
                    (
                        marked.received(),
                        ChannelCall::Done(ChannelOutcome::Received(Wake::One)),
                        first,
                    )
                } else {
                    (marked, ChannelCall::RecvSleep, None)
                }
            },
            ChannelCall::RecvPopAgain =>
                if first is Some {
                    (
                        channel.received(),
                        ChannelCall::Done(ChannelOutcome::Received(Wake::One)),
                        first,
                    )
                } else if channel.receiver_state == RECEIVER_SLEEPS {
                    (channel, ChannelCall::RecvSleep, None)
                } else {
                    channel.receive_ends()
                },
            ChannelCall::RecvSleep =>
                if channel.receiver_state == RECEIVER_SLEEPS {
                    (channel, self, hand)
                } else {
                    channel.receive_ends()
                },
            ChannelCall::TryRecvPop =>
                if first is Some {
                    (
                        channel.popped(),
                        ChannelCall::Done(ChannelOutcome::Received(Wake::Nobody)),
                        first,
                    )
                } else {
                    (channel, ChannelCall::Done(channel.why_empty()), None)
                },
            ChannelCall::TryRecvCheck =>
                if channel.senders_count != 0 {
                    (channel, ChannelCall::Done(ChannelOutcome::BufferEmpty), hand)
                } else if first is Some {
                    (
                        channel.popped(),
                        ChannelCall::Done(ChannelOutcome::Received(Wake::Nobody)),
                        first,
                    )
                } else {
                    (channel, ChannelCall::Done(ChannelOutcome::Disconnected), None)
                },
            ChannelCall::ReceiverDrop => (
                ChannelView { receiver_state: RECEIVER_GONE, ..channel },
                ChannelCall::Done(ChannelOutcome::Dropped),
                hand,
            ),
            ChannelCall::Done(_) => (channel, self, hand),
        }
    }

    /// The call can get on: there is a message in hand to be sent, and the ring can count it.
    pub open spec fn is_free_to_run<T>(
        self,
        channel: ChannelView<T>,
        capacity: nat,
        hand: Option<T>,
    ) -> bool {
        match self {
            ChannelCall::SendCheck
            | ChannelCall::SendPush
            | ChannelCall::SendCount
            | ChannelCall::SendSleep { .. }
            | ChannelCall::TrySendCheck
            | ChannelCall::TrySendPush => {
                &&& hand is Some
                &&& channel.has_room(capacity) ==> channel.ring.head < usize::MAX
            },
            _ => true,
        }
    }

    /// A bound on the steps that the call can take alone.
    spec fn steps_left<T>(self, channel: ChannelView<T>) -> int {
        match self {
            ChannelCall::SendCheck | ChannelCall::TrySendCheck | ChannelCall::RecvCheck => 10,
            ChannelCall::SendPush | ChannelCall::TrySendPush | ChannelCall::RecvPop => 8,
            ChannelCall::SendLook => 4,
            ChannelCall::SendMark | ChannelCall::SendCount => 3,
            ChannelCall::RecvCount => 3,
            ChannelCall::RecvMark => 5,
            ChannelCall::RecvPopAgain => if channel.ring.items.len() > 0
                || channel.receiver_state == RECEIVER_SLEEPS {
                4
            } else {
                13
            },
            ChannelCall::SendWake | ChannelCall::RecvWake => 2,
            ChannelCall::SendSleep { seen } => if channel.sender_wait_num == seen {
                0
            } else {
                12
            },
            ChannelCall::RecvSleep => if channel.receiver_state == RECEIVER_SLEEPS {
                0
            } else {
                12
            },
            ChannelCall::TryRecvPop => 3,
            ChannelCall::TryRecvCheck => 2,
            ChannelCall::SenderClone
            | ChannelCall::SenderDrop
            | ChannelCall::ReceiverDrop
            | ChannelCall::RecvDrain
            | ChannelCall::TryRecvDrain => 1,
            ChannelCall::Done(_) => 0,
        }
    }
}

/// What a channel is, to those who use it.
pub struct ChannelView<T> {
    /// The identity of the channel.
    pub id: u64,
    /// The messages.
    pub ring: RingView<T>,
    /// The number of senders.
    pub senders_count: usize,
    /// The number of receipts, as far as it can be counted.
    pub sender_wait_num: u32,
    /// Whether the receiver is awake, sleeps or is gone.
    pub receiver_state: u32,
}

impl<T> ChannelView<T> {
    /// The value of a 32-bit word.
    pub open spec fn get(self, word: ChannelWord) -> u32 {
        match word {
            ChannelWord::SenderWaitNum => self.sender_wait_num,
            ChannelWord::ReceiverState => self.receiver_state,
        }
    }

    /// The channel with another value of a 32-bit word.
    pub open spec fn set(self, word: ChannelWord, value: u32) -> ChannelView<T> {
        match word {
            ChannelWord::SenderWaitNum => ChannelView { sender_wait_num: value, ..self },
            ChannelWord::ReceiverState => ChannelView { receiver_state: value, ..self },
        }
    }

    /// The messages on their way, oldest first.
    pub open spec fn messages(self) -> Seq<T> {
        self.ring.items
    }

    /// The channel with another message at the end.
    pub open spec fn pushed(self, message: T) -> ChannelView<T> {
        ChannelView {
            ring: RingView {
                items: self.ring.items.push(message),
                head: (self.ring.head + 1) as usize,
                ..self.ring
            },
            ..self
        }
    }

    /// The channel without its first message.
    pub open spec fn popped(self) -> ChannelView<T> {
        ChannelView {
            ring: RingView {
                items: self.ring.items.drop_first(),
                tail: (self.ring.tail + 1) as usize,
                ..self.ring
            },
            ..self
        }
    }

    /// Whom a message wakes: the receiver, if it sleeps.
    pub open spec fn whom_to_wake(self) -> Wake {
        if self.receiver_state == RECEIVER_SLEEPS {
            Wake::One
        } else {
            Wake::Nobody
        }
    }

    /// The channel once the receiver is woken.
    pub open spec fn with_receiver_woken(self) -> ChannelView<T> {
        if self.receiver_state == RECEIVER_SLEEPS {
            ChannelView { receiver_state: RECEIVER_AWAKE, ..self }
        } else {
            self
        }
    }

    /// The channel after a message was sent.
    pub open spec fn sent(self, message: T) -> ChannelView<T> {
        self.pushed(message).with_receiver_woken()
    }

    /// The channel after a message was received while there are senders.
    pub open spec fn received(self) -> ChannelView<T> {
        ChannelView { sender_wait_num: self.sender_wait_num.wrapping_add(1), ..self.popped() }
    }

    /// There is room for another message.
    pub open spec fn has_room(self, capacity: nat) -> bool {
        self.ring.items.len() < capacity
    }

    /// What `send` comes to alone: where the call stands and the channel then.
    pub open spec fn sends(self, capacity: nat, message: T) -> (ChannelView<T>, ChannelCall) {
        if self.receiver_state == RECEIVER_GONE {
            (self, ChannelCall::Done(ChannelOutcome::Disconnected))
        } else if self.has_room(capacity) {
            (self.sent(message), ChannelCall::Done(ChannelOutcome::Sent(self.whom_to_wake())))
        } else {
            (self, ChannelCall::SendSleep { seen: self.sender_wait_num })
        }
    }

    /// The end of a `send` together with the message, which stays in hand unless it was sent.
    pub open spec fn send_ends(
        self,
        end: (ChannelView<T>, ChannelCall),
        hand: Option<T>,
    ) -> (ChannelView<T>, ChannelCall, Option<T>) {
        (
            end.0,
            end.1,
            if end.1 matches ChannelCall::Done(ChannelOutcome::Sent(_)) {
                None
            } else {
                hand
            },
        )
    }

    /// What `try_send` comes to alone while the receiver is there.
    pub open spec fn try_send_ends(
        self,
        capacity: nat,
        hand: Option<T>,
    ) -> (ChannelView<T>, ChannelCall, Option<T>) {
        if self.has_room(capacity) {
            (
                self.sent(hand->Some_0),
                ChannelCall::Done(ChannelOutcome::Sent(self.whom_to_wake())),
                None,
            )
        } else {
            (self, ChannelCall::Done(ChannelOutcome::BufferFull), hand)
        }
    }

    /// Why there is no message.
    pub open spec fn why_empty(self) -> ChannelOutcome {
        if self.senders_count == 0 {
            ChannelOutcome::Disconnected
        } else {
            ChannelOutcome::BufferEmpty
        }
    }

    /// The end of a `recv` together with the message.
    pub open spec fn receive_ends(self) -> (ChannelView<T>, ChannelCall, Option<T>) {
        (
            self.receives().0,
            self.receives().1,
            if self.ring.items.len() > 0 {
                Some(self.ring.items[0])
            } else {
                None
            },
        )
    }

    /// What `recv` comes to alone: where the call stands and the channel then.
    pub open spec fn receives(self) -> (ChannelView<T>, ChannelCall) {
        if self.ring.items.len() > 0 {
            if self.senders_count == 0 {
                (self.popped(), ChannelCall::Done(ChannelOutcome::Received(Wake::Nobody)))
            } else {
                (self.received(), ChannelCall::Done(ChannelOutcome::Received(Wake::One)))
            }
        } else if self.senders_count == 0 {
            (self, ChannelCall::Done(ChannelOutcome::Disconnected))
        } else {
            (
                ChannelView { receiver_state: RECEIVER_SLEEPS, ..self },
                ChannelCall::RecvSleep,
            )
        }
    }
}

/// The words of a channel that many threads use at the same time. The ring is kept elsewhere.
pub struct RawChannel {
    senders_count: AtomicUsize,
    sender_wait_num: AtomicU32,
    receiver_state: AtomicU32,
}

impl RawChannel {
    /// The atomics are what the standard library's `new` returns for these values. What they hold
    /// later is up to the threads.
    pub closed spec fn made_with(
        self,
        senders_count: usize,
        sender_wait_num: u32,
        receiver_state: u32,
    ) -> bool {
        &&& call_ensures(AtomicUsize::new, (senders_count,), self.senders_count)
        &&& call_ensures(AtomicU32::new, (sender_wait_num,), self.sender_wait_num)
        &&& call_ensures(AtomicU32::new, (receiver_state,), self.receiver_state)
    }

    /// A channel with one sender and a receiver.
    pub fn new() -> (raw: RawChannel)
        ensures
            raw.made_with(1, 0, RECEIVER_AWAKE),
    {
        RawChannel {
            senders_count: AtomicUsize::new(1),
            sender_wait_num: AtomicU32::new(0),
            receiver_state: AtomicU32::new(RECEIVER_AWAKE),
        }
    }

    /// The atomic behind a 32-bit word.
    spec fn atomic(self, word: ChannelWord) -> AtomicU32 {
        match word {
            ChannelWord::SenderWaitNum => self.sender_wait_num,
            ChannelWord::ReceiverState => self.receiver_state,
        }
    }

    /// The action was performed on the atomic behind its word, with this reply.
    pub closed spec fn performed(self, action: ChannelAction, reply: ChannelReply) -> bool {
        match action {
            ChannelAction::Word(action) => {
                &&& reply matches ChannelReply::Word(rep)
                &&& action.performed(self.atomic(action.word()), rep)
            },
            ChannelAction::Senders(op) => {
                &&& reply matches ChannelReply::Senders(rep)
                &&& op.performed(self.senders_count, rep)
            },
            _ => false,
        }
    }

    /// The atomic behind a 32-bit word.
    fn word(&self, word: ChannelWord) -> (atomic: &AtomicU32)
        ensures
            *atomic == self.atomic(word),
    {
        match word {
            ChannelWord::SenderWaitNum => &self.sender_wait_num,
            ChannelWord::ReceiverState => &self.receiver_state,
        }
    }

    /// Performs an action on the atomic words. A wait comes back once the thread is awake again.
    /// `None` says that the action is about the ring.
    pub fn perform(&self, action: ChannelAction) -> (reply: Option<ChannelReply>)
        requires
            action.legal(),
        ensures
            reply is None <==> !(action is Word || action is Senders),
            reply matches Some(rep) ==> {
                &&& self.performed(action, rep)
                &&& action.fits(rep)
                &&& rep != ChannelReply::Word(Reply::Asleep)
            },
    {
        match action {
            ChannelAction::Word(action) => {
                let word = match action {
                    Action::Word(word, _)
                    | Action::Wait(word, _)
                    | Action::WakeOne(word)
                    | Action::WakeAll(word) => word,
                };
                Some(ChannelReply::Word(action.apply_atomic(self.word(word))))
            },
            ChannelAction::Senders(op) => {
                Some(ChannelReply::Senders(op.apply_atomic(&self.senders_count)))
            },
            ChannelAction::Push
            | ChannelAction::TryPush
            | ChannelAction::Pop
            | ChannelAction::TryPop => None,
        }
    }
}

/// A channel for messages of type `T`, at most `N` of them on their way.
///
/// The value is the state that the senders and the receiver share. Their calls follow each other,
/// and a call that has to wait comes back pending, to be resumed once it is woken.
pub struct Channel<T, const N: usize> {
    channel_id: u64,
    data: RingBuffer<T, N>,
    senders_count: usize,
    sender_wait_num: u32,
    receiver_state: u32,
}

impl<T, const N: usize> View for Channel<T, N> {
    type V = ChannelView<T>;

    closed spec fn view(&self) -> ChannelView<T> {
        ChannelView {
            id: self.channel_id,
            ring: self.data@,
            senders_count: self.senders_count,
            sender_wait_num: self.sender_wait_num,
            receiver_state: self.receiver_state,
        }
    }
}

impl<T, const N: usize> Channel<T, N> {
    /// The ring is well-formed.
    pub closed spec fn wf(self) -> bool {
        self.data.wf()
    }

    /// An empty channel with this identity, one sender and a receiver.
    pub open spec fn is_new(self, id: u64) -> bool {
        self@ == ChannelView {
            id,
            ring: RingView { items: Seq::<T>::empty(), head: 0, tail: 0 },
            senders_count: 1,
            sender_wait_num: 0,
            receiver_state: RECEIVER_AWAKE,
        }
    }

    /// An empty channel. The number of messages that may be on their way is a power of two.
    pub fn new(ids: &mut Identities) -> (channel: Channel<T, N>)
        requires
            power2::is_pow2(N as int),
        ensures
            channel.wf(),
            channel.is_new(old(ids)@),
            final(ids)@ == old(ids)@.wrapping_add(1),
    {
        Channel {
            channel_id: ids.fresh(),
            data: RingBuffer::new(),
            senders_count: 1,
            sender_wait_num: 0,
            receiver_state: RECEIVER_AWAKE,
        }
    }

    /// Empties the channel and hands out its two ends. The channel gets a new identity, so the ends
    /// that it had before are not ends of it any more.
    pub fn channel(&mut self, ids: &mut Identities) -> (ends: (Sender, Receiver))
        requires
            power2::is_pow2(N as int),
        ensures
            final(self).wf(),
            final(self).is_new(old(ids)@),
            final(ids)@ == old(ids)@.wrapping_add(1),
            ends.0@ == final(self)@.id,
            ends.1@ == final(self)@.id,
    {
        *self = Self::new(ids);
        (Sender { channel_id: self.channel_id }, Receiver { channel_id: self.channel_id })
    }

    /// Performs an action. A push takes the message out of the hand unless the ring is full, a pop
    /// puts it there.
    fn perform(&mut self, action: ChannelAction, hand: &mut Option<T>) -> (reply: ChannelReply)
        requires
            old(self).wf(),
            action is Push || action is TryPush ==> *old(hand) is Some && (old(self)@.has_room(
                N as nat,
            ) ==> old(self)@.ring.head < usize::MAX),
        ensures
            final(self).wf(),
            match action {
                ChannelAction::Word(Action::Word(word, op)) => {
                    let effect = op.effect(old(self)@.get(word));
                    &&& final(self)@ == old(self)@.set(word, effect.0)
                    &&& reply == ChannelReply::Word(effect.1)
                    &&& *final(hand) == *old(hand)
                },
                ChannelAction::Word(Action::Wait(word, value)) => {
                    &&& final(self)@ == old(self)@
                    &&& reply == ChannelReply::Word(
                        if old(self)@.get(word) == value {
                            Reply::Asleep
                        } else {
                            Reply::Done
                        },
                    )
                    &&& *final(hand) == *old(hand)
                },
                ChannelAction::Word(_) => {
                    &&& final(self)@ == old(self)@
                    &&& reply == ChannelReply::Word(Reply::Done)
                    &&& *final(hand) == *old(hand)
                },
                ChannelAction::Senders(op) => {
                    let effect = op.effect(old(self)@.senders_count);
                    &&& final(self)@ == (ChannelView { senders_count: effect.0, ..old(self)@ })
                    &&& reply == ChannelReply::Senders(effect.1)
                    &&& *final(hand) == *old(hand)
                },
                ChannelAction::Push | ChannelAction::TryPush => {
                    if old(self)@.has_room(N as nat) {
                        &&& final(self)@ == old(self)@.pushed((*old(hand))->Some_0)
                        &&& reply == ChannelReply::Pushed(true)
                        &&& *final(hand) is None
                    } else {
                        &&& final(self)@ == old(self)@
                        &&& reply == ChannelReply::Pushed(false)
                        &&& *final(hand) == *old(hand)
                    }
                },
                ChannelAction::Pop | ChannelAction::TryPop => {
                    if old(self)@.ring.items.len() > 0 {
                        &&& final(self)@ == old(self)@.popped()
                        &&& reply == ChannelReply::Popped(true)
                        &&& *final(hand) == Some(old(self)@.ring.items[0])
                    } else {
                        &&& final(self)@ == old(self)@
                        &&& reply == ChannelReply::Popped(false)
                        &&& *final(hand) is None
                    }
                },
            },
    {
        match action {
            ChannelAction::Word(Action::Word(ChannelWord::SenderWaitNum, op)) => {
                ChannelReply::Word(op.apply(&mut self.sender_wait_num))
            },
            ChannelAction::Word(Action::Word(ChannelWord::ReceiverState, op)) => {
                ChannelReply::Word(op.apply(&mut self.receiver_state))
            },
            ChannelAction::Word(Action::Wait(word, value)) => {
                let found: u32 = match word {
                    ChannelWord::SenderWaitNum => self.sender_wait_num,
                    ChannelWord::ReceiverState => self.receiver_state,
                };
                if found == value {
                    ChannelReply::Word(Reply::Asleep)
                } else {
                    ChannelReply::Word(Reply::Done)
                }
            },
            ChannelAction::Word(_) => ChannelReply::Word(Reply::Done),
            ChannelAction::Senders(op) => {
                ChannelReply::Senders(op.apply(&mut self.senders_count))
            },
            ChannelAction::Push => match hand.take() {
                Some(message) => match self.data.push(message) {
                    Ok(()) => ChannelReply::Pushed(true),
                    Err(message) => {
                        *hand = Some(message);
                        ChannelReply::Pushed(false)
                    },
                },
                None => vstd::pervasive::unreached(),
            },
            ChannelAction::TryPush => match hand.take() {
                Some(message) => match self.data.try_push(message) {
                    Ok(()) => ChannelReply::Pushed(true),
                    Err(message) => {
                        *hand = Some(message);
                        ChannelReply::Pushed(false)
                    },
                },
                None => vstd::pervasive::unreached(),
            },
            ChannelAction::Pop => {
                *hand = self.data.pop();
                ChannelReply::Popped(hand.is_some())
            },
            ChannelAction::TryPop => {
                *hand = self.data.try_pop();
                ChannelReply::Popped(hand.is_some())
            },
        }
    }

    /// Lets a call take steps until it is over or asleep.
    fn run(&mut self, start: ChannelCall, hand: &mut Option<T>) -> (end: ChannelCall)
        requires
            old(self).wf(),
            start.is_free_to_run(old(self)@, N as nat, *old(hand)),
        ensures
            final(self).wf(),
            (final(self)@, end, *final(hand)) == start.alone(old(self)@, N as nat, *old(hand)),
    {
        let mut call = start;
        loop
            invariant
                self.wf(),
                call.is_free_to_run(self@, N as nat, *hand),
                call.alone(self@, N as nat, *hand) == start.alone(
                    old(self)@,
                    N as nat,
                    *old(hand),
                ),
            decreases call.steps_left(self@),
        {
            match call.action() {
                None => {
                    return call;
                },
                Some(action) => {
                    let reply = self.perform(action, hand);
                    if let ChannelReply::Word(Reply::Asleep) = reply {
                        return call;
                    }
                    call = call.advance(reply);
                },
            }
        }
    }
}

/// The right to send on a channel.
#[derive(Debug)]
pub struct Sender {
    channel_id: u64,
}

impl View for Sender {
    type V = u64;

    /// The identity of the channel.
    closed spec fn view(&self) -> u64 {
        self.channel_id
    }
}

/// The right to receive from a channel.
#[derive(Debug)]
pub struct Receiver {
    channel_id: u64,
}

impl View for Receiver {
    type V = u64;

    /// The identity of the channel.
    closed spec fn view(&self) -> u64 {
        self.channel_id
    }
}

/// Why a message was not sent. The message comes back.
#[derive(Clone, Copy, Debug, PartialEq, Eq)]
pub enum SendError<T> {
    /// The receiver is gone.
    Disconnected(T),
}

/// Why a message was not sent at once. The message comes back.
#[derive(Clone, Copy, Debug, PartialEq, Eq)]
pub enum TrySendError<T> {
    /// There is no room for the message.
    BufferFull(T),
    /// The receiver is gone.
    Disconnected(T),
}

/// Why no message was received.
#[derive(Clone, Copy, Debug, PartialEq, Eq)]
pub enum ReceiveError {
    /// There are no messages, and no senders.
    Disconnected,
}

/// Why no message was received at once.
#[derive(Clone, Copy, Debug, PartialEq, Eq)]
pub enum TryReceiveError {
    /// There are no messages.
    BufferEmpty,
    /// There are no messages, and no senders.
    Disconnected,
}

/// A `send` that waits for room.
#[derive(Debug, PartialEq, Eq)]
pub struct PendingSend<T> {
    pub call: ChannelCall,
    pub message: T,
}

/// A message that was received, and who has to be woken because there is room now.
#[derive(Debug, PartialEq, Eq)]
pub struct Receipt<T> {
    pub message: T,
    pub wake: Wake,
}

/// What a `send` gets that came to this end.
pub open spec fn send_result<T>(end: ChannelCall, message: T) -> Progress<
    Result<Wake, SendError<T>>,
    PendingSend<T>,
> {
    match end {
        ChannelCall::Done(ChannelOutcome::Sent(wake)) => Progress::Finished(Ok(wake)),
        ChannelCall::Done(_) => Progress::Finished(Err(SendError::Disconnected(message))),
        _ => Progress::Pending(PendingSend { call: end, message }),
    }
}

/// What a `recv` gets that came to this end.
pub open spec fn receive_result<T>(end: ChannelCall, messages: Seq<T>) -> Progress<
    Result<Receipt<T>, ReceiveError>,
    ChannelCall,
> {
    match end {
        ChannelCall::Done(ChannelOutcome::Received(wake)) => Progress::Finished(
            Ok(Receipt { message: messages[0], wake }),
        ),
        ChannelCall::Done(_) => Progress::Finished(Err(ReceiveError::Disconnected)),
        _ => Progress::Pending(end),
    }
}

/// What a `try_send` comes to: the message is sent, unless the receiver is gone or there is no
/// room.
pub open spec fn tries_to_send<T>(
    before: ChannelView<T>,
    after: ChannelView<T>,
    capacity: nat,
    message: T,
    res: Result<Wake, TrySendError<T>>,
) -> bool {
    if before.receiver_state == RECEIVER_GONE {
        &&& res == Err::<Wake, TrySendError<T>>(TrySendError::Disconnected(message))
        &&& after == before
    } else if before.has_room(capacity) {
        &&& res == Ok::<Wake, TrySendError<T>>(before.whom_to_wake())
        &&& after == before.sent(message)
    } else {
        &&& res == Err::<Wake, TrySendError<T>>(TrySendError::BufferFull(message))
        &&& after == before
    }
}

/// What a `try_recv` comes to: the first message is received, if there is one.
pub open spec fn tries_to_receive<T>(
    before: ChannelView<T>,
    after: ChannelView<T>,
    res: Result<T, TryReceiveError>,
) -> bool {
    if before.messages().len() > 0 {
        &&& res == Ok::<T, TryReceiveError>(before.messages()[0])
        &&& after == before.popped()
    } else {
        &&& res == Err::<T, TryReceiveError>(
            if before.senders_count == 0 {
                TryReceiveError::Disconnected
            } else {
                TryReceiveError::BufferEmpty
            },
        )
        &&& after == before
    }
}

impl Sender {
    /// Sends a message, or goes to sleep until there is room for it. Success says who has to be
    /// woken.
    pub fn send<T, const N: usize>(&self, channel: &mut Channel<T, N>, message: T) -> (res:
        Progress<Result<Wake, SendError<T>>, PendingSend<T>>)
        requires
            self@ == old(channel)@.id,
            old(channel).wf(),
            old(channel)@.has_room(N as nat) ==> old(channel)@.ring.head < usize::MAX,
        ensures
            final(channel).wf(),
            final(channel)@ == old(channel)@.sends(N as nat, message).0,
            res == send_result(old(channel)@.sends(N as nat, message).1, message),
    {
        Self::continue_send(channel, ChannelCall::SendCheck, message)
    }

    /// Goes on with a `send` that was asleep.
    pub fn resume<T, const N: usize>(
        &self,
        channel: &mut Channel<T, N>,
        pending: PendingSend<T>,
    ) -> (res: Progress<Result<Wake, SendError<T>>, PendingSend<T>>)
        requires
            self@ == old(channel)@.id,
            old(channel).wf(),
            old(channel)@.has_room(N as nat) ==> old(channel)@.ring.head < usize::MAX,
            pending.call is SendSleep,
        ensures
            final(channel).wf(),
            pending.call->seen == old(channel)@.sender_wait_num ==> {
                &&& final(channel)@ == old(channel)@
                &&& res == Progress::<Result<Wake, SendError<T>>, PendingSend<T>>::Pending(pending)
            },
            pending.call->seen != old(channel)@.sender_wait_num ==> {
                &&& final(channel)@ == old(channel)@.sends(N as nat, pending.message).0
                &&& res == send_result(
                    old(channel)@.sends(N as nat, pending.message).1,
                    pending.message,
                )
            },
    {
        Self::continue_send(channel, pending.call, pending.message)
    }

    /// Takes the steps of a `send` that can be taken now.
    fn continue_send<T, const N: usize>(
        channel: &mut Channel<T, N>,
        call: ChannelCall,
        message: T,
    ) -> (res: Progress<Result<Wake, SendError<T>>, PendingSend<T>>)
        requires
            old(channel).wf(),
            old(channel)@.has_room(N as nat) ==> old(channel)@.ring.head < usize::MAX,
            call is SendCheck || call is SendSleep,
        ensures
            final(channel).wf(),
            final(channel)@ == call.alone(old(channel)@, N as nat, Some(message)).0,
            res == send_result(call.alone(old(channel)@, N as nat, Some(message)).1, message),
    {
        let mut hand = Some(message);
        let end = channel.run(call, &mut hand);
        match end {
            ChannelCall::Done(ChannelOutcome::Sent(wake)) => Progress::Finished(Ok(wake)),
            _ => match hand {
                Some(message) => {
                    if let ChannelCall::Done(_) = end {
                        Progress::Finished(Err(SendError::Disconnected(message)))
                    } else {
                        Progress::Pending(PendingSend { call: end, message })
                    }
                },
                None => vstd::pervasive::unreached(),
            },
        }
    }

    /// Sends a message if there is room for it. Success says who has to be woken.
    pub fn try_send<T, const N: usize>(&self, channel: &mut Channel<T, N>, message: T) -> (res:
        Result<Wake, TrySendError<T>>)
        requires
            self@ == old(channel)@.id,
            old(channel).wf(),
            old(channel)@.has_room(N as nat) ==> old(channel)@.ring.head < usize::MAX,
        ensures
            final(channel).wf(),
            tries_to_send(old(channel)@, final(channel)@, N as nat, message, res),
    {
        let mut hand = Some(message);
        match channel.run(ChannelCall::TrySendCheck, &mut hand) {
            ChannelCall::Done(ChannelOutcome::Sent(wake)) => Ok(wake),
            end => match hand {
                Some(message) => {
                    if let ChannelCall::Done(ChannelOutcome::Disconnected) = end {
                        Err(TrySendError::Disconnected(message))
                    } else {
                        Err(TrySendError::BufferFull(message))
                    }
                },
                None => vstd::pervasive::unreached(),
            },
        }
    }

    /// Another sender for the same channel.
    pub fn clone<T, const N: usize>(this: &Self, channel: &mut Channel<T, N>) -> (sender: Sender)
        requires
            this@ == old(channel)@.id,
            old(channel).wf(),
            old(channel)@.senders_count <= MAX_SENDER_COUNT,
        ensures
            final(channel).wf(),
            final(channel)@ == (ChannelView {
                senders_count: (old(channel)@.senders_count + 1) as usize,
                ..old(channel)@
            }),
            sender@ == this@,
    {
        let mut hand: Option<T> = None;
        let _end = channel.run(ChannelCall::SenderClone, &mut hand);
        Sender { channel_id: this.channel_id }
    }

    /// Gives up the right to send.
    pub fn disconnect<T, const N: usize>(self, channel: &mut Channel<T, N>)
        requires
            self@ == old(channel)@.id,
            old(channel).wf(),
        ensures
            final(channel).wf(),
            final(channel)@ == (ChannelView {
                senders_count: old(channel)@.senders_count.wrapping_sub(1),
                ..old(channel)@
            }),
    {
        let mut hand: Option<T> = None;
        let _end = channel.run(ChannelCall::SenderDrop, &mut hand);
    }
}

impl Receiver {
    /// Receives the first message, or goes to sleep until there is one. Without messages and
    /// senders there is nothing to wait for.
    pub fn recv<T, const N: usize>(&self, channel: &mut Channel<T, N>) -> (res: Progress<
        Result<Receipt<T>, ReceiveError>,
        ChannelCall,
    >)
        requires
            self@ == old(channel)@.id,
            old(channel).wf(),
        ensures
            final(channel).wf(),
            final(channel)@ == old(channel)@.receives().0,
            res == receive_result(old(channel)@.receives().1, old(channel)@.messages()),
    {
        Self::continue_recv(channel, ChannelCall::RecvCheck)
    }

    /// Goes on with a `recv` that was asleep.
    pub fn resume<T, const N: usize>(&self, channel: &mut Channel<T, N>, call: ChannelCall) -> (res:
        Progress<Result<Receipt<T>, ReceiveError>, ChannelCall>)
        requires
            self@ == old(channel)@.id,
            old(channel).wf(),
            call == ChannelCall::RecvSleep,
        ensures
            final(channel).wf(),
            old(channel)@.receiver_state == RECEIVER_SLEEPS ==> {
                &&& final(channel)@ == old(channel)@
                &&& res == Progress::<Result<Receipt<T>, ReceiveError>, ChannelCall>::Pending(call)
            },
            old(channel)@.receiver_state != RECEIVER_SLEEPS ==> {
                &&& final(channel)@ == old(channel)@.receives().0
                &&& res == receive_result(old(channel)@.receives().1, old(channel)@.messages())
            },
    {
        Self::continue_recv(channel, call)
    }

    /// Takes the steps of a `recv` that can be taken now.
    fn continue_recv<T, const N: usize>(channel: &mut Channel<T, N>, call: ChannelCall) -> (res:
        Progress<Result<Receipt<T>, ReceiveError>, ChannelCall>)
        requires
            old(channel).wf(),
            call is RecvCheck || call is RecvSleep,
        ensures
            final(channel).wf(),
            final(channel)@ == call.alone(old(channel)@, N as nat, None).0,
            res == receive_result(
                call.alone(old(channel)@, N as nat, None).1,
                old(channel)@.messages(),
            ),
    {
        let mut hand: Option<T> = None;
        match channel.run(call, &mut hand) {
            ChannelCall::Done(ChannelOutcome::Received(wake)) => match hand {
                Some(message) => Progress::Finished(Ok(Receipt { message, wake })),
                None => vstd::pervasive::unreached(),
            },
            ChannelCall::Done(_) => Progress::Finished(Err(ReceiveError::Disconnected)),
            end => Progress::Pending(end),
        }
    }

    /// Receives the first message if there is one.
    pub fn try_recv<T, const N: usize>(&self, channel: &mut Channel<T, N>) -> (res: Result<
        T,
        TryReceiveError,
    >)
        requires
            self@ == old(channel)@.id,
            old(channel).wf(),
        ensures
            final(channel).wf(),
            tries_to_receive(old(channel)@, final(channel)@, res),
    {
        let mut hand: Option<T> = None;
        match channel.run(ChannelCall::TryRecvPop, &mut hand) {
            ChannelCall::Done(ChannelOutcome::Received(_)) => match hand {
                Some(message) => Ok(message),
                None => vstd::pervasive::unreached(),
            },
            ChannelCall::Done(ChannelOutcome::Disconnected) => Err(TryReceiveError::Disconnected),
            _ => Err(TryReceiveError::BufferEmpty),
        }
    }

    /// Gives up the right to receive.
    pub fn disconnect<T, const N: usize>(self, channel: &mut Channel<T, N>)
        requires
            self@ == old(channel)@.id,
            old(channel).wf(),
        ensures
            final(channel).wf(),
            final(channel)@ == (ChannelView { receiver_state: RECEIVER_GONE, ..old(channel)@ }),
    {
        let mut hand: Option<T> = None;
        let _end = channel.run(ChannelCall::ReceiverDrop, &mut hand);
    }
}

/// A call on a channel, with its result.
pub enum ChannelEvent<T> {
    Send { message: T, sent: Progress<Result<Wake, SendError<T>>, PendingSend<T>> },
    TrySend { message: T, tried: Result<Wake, TrySendError<T>> },
    Recv { received: Progress<Result<Receipt<T>, ReceiveError>, ChannelCall> },
    TryRecv { taken: Result<T, TryReceiveError> },
    /// A call was resumed too early.
    StillAsleep,
    SenderClone,
    SenderDrop,
    ReceiverDrop,
}

impl<T> ChannelEvent<T> {
    /// The call took the channel from one state to the other.
    pub open spec fn leads(
        self,
        before: ChannelView<T>,
        after: ChannelView<T>,
        capacity: nat,
    ) -> bool {
        match self {
            ChannelEvent::Send { message, sent } => {
                &&& after == before.sends(capacity, message).0
                &&& sent == send_result(before.sends(capacity, message).1, message)
            },
            ChannelEvent::TrySend { message, tried } => tries_to_send(
                before,
                after,
                capacity,
                message,
                tried,
            ),
            ChannelEvent::Recv { received } => {
                &&& after == before.receives().0
                &&& received == receive_result(before.receives().1, before.messages())
            },
            ChannelEvent::TryRecv { taken } => tries_to_receive(before, after, taken),
            ChannelEvent::StillAsleep => after == before,
            ChannelEvent::SenderClone => after == ChannelView {
                senders_count: (before.senders_count + 1) as usize,
                ..before
            },
            ChannelEvent::SenderDrop => after == ChannelView {
                senders_count: before.senders_count.wrapping_sub(1),
                ..before
            },
            ChannelEvent::ReceiverDrop => after == ChannelView {
                receiver_state: RECEIVER_GONE,
                ..before
            },
        }
    }
}

/// The messages that were sent, in order.
pub open spec fn messages_sent<T>(events: Seq<ChannelEvent<T>>) -> Seq<T>
    decreases events.len(),
{
    if events.len() == 0 {
        Seq::empty()
    } else {
        match events.last() {
            ChannelEvent::Send { message, sent: Progress::Finished(Ok(_)) }
            | ChannelEvent::TrySend { message, tried: Ok(_) } => messages_sent(
                events.drop_last(),
            ).push(message),
            _ => messages_sent(events.drop_last()),
        }
    }
}

/// The messages that were received, in order.
pub open spec fn messages_received<T>(events: Seq<ChannelEvent<T>>) -> Seq<T>
    decreases events.len(),
{
    if events.len() == 0 {
        Seq::empty()
    } else {
        match events.last() {
            ChannelEvent::Recv { received: Progress::Finished(Ok(receipt)) } => messages_received(
                events.drop_last(),
            ).push(receipt.message),
            ChannelEvent::TryRecv { taken: Ok(message) } => messages_received(
                events.drop_last(),
            ).push(message),
            _ => messages_received(events.drop_last()),
        }
    }
}

/// The calls took the channel from each state to the next.
pub open spec fn history<T>(
    states: Seq<ChannelView<T>>,
    events: Seq<ChannelEvent<T>>,
    capacity: nat,
) -> bool {
    &&& states.len() == events.len() + 1
    &&& forall|k: int|
        0 <= k < events.len() ==> (#[trigger] events[k]).leads(states[k], states[k + 1], capacity)
}

/// Messages arrive in the order in which they were sent, each once: those received, followed by
/// those on their way, are those that were on their way at the start, followed by those sent since.
pub proof fn law_messages_arrive_in_order<T>(
    states: Seq<ChannelView<T>>,
    events: Seq<ChannelEvent<T>>,
    capacity: nat,
)
    requires
        history(states, events, capacity),
    ensures
        messages_received(events) + states.last().messages() == states[0].messages()
            + messages_sent(events),
    decreases events.len(),
{
    if events.len() == 0 {
        assert(messages_received(events) + states.last().messages() =~= states[0].messages()
            + messages_sent(events));
    } else {
        let n = events.len() - 1;
        let earlier = events.drop_last();
        assert forall|k: int| 0 <= k < earlier.len() implies (#[trigger] earlier[k]).leads(
            states.drop_last()[k],
            states.drop_last()[k + 1],
            capacity,
        ) by {
            assert(events[k].leads(states[k], states[k + 1], capacity));
        }
        law_messages_arrive_in_order(states.drop_last(), earlier, capacity);
        let before = states[n];
        let after = states[n + 1];
        assert(events[n].leads(before, after, capacity));
        let all = messages_received(earlier) + before.messages();
        assert(all == states[0].messages() + messages_sent(earlier));
        match events.last() {
            ChannelEvent::Send { message, sent: Progress::Finished(Ok(_)) }
            | ChannelEvent::TrySend { message, tried: Ok(_) } => {
                assert(messages_received(events) + after.messages() =~= all.push(message));
                assert(states[0].messages() + messages_sent(events) =~= all.push(message));
            },
            ChannelEvent::Recv { .. } | ChannelEvent::TryRecv { .. } => {
                assert(messages_received(events) + after.messages() =~= all);
            },
            _ => {
                assert(after.messages() == before.messages());
            },
        }
    }
}

/// There are never more messages on their way than the channel has room for.
pub proof fn law_messages_are_bounded<T>(
    states: Seq<ChannelView<T>>,
    events: Seq<ChannelEvent<T>>,
    capacity: nat,
    k: int,
)
    requires
        history(states, events, capacity),
        states[0].messages().len() <= capacity,
        0 <= k < states.len(),
    ensures
        states[k].messages().len() <= capacity,
    decreases k,
{
    if k > 0 {
        law_messages_are_bounded(states, events, capacity, k - 1);
        assert(events[k - 1].leads(states[k - 1], states[k - 1 + 1], capacity));
    }
}

/// A sender and a receiver stay with their channel: whatever calls are made, the channel keeps the
/// identity by which its ends know it.
pub proof fn law_identity_is_kept<T>(
    states: Seq<ChannelView<T>>,
    events: Seq<ChannelEvent<T>>,
    capacity: nat,
    k: int,
)
    requires
        history(states, events, capacity),
        0 <= k < states.len(),
    ensures
        states[k].id == states[0].id,
    decreases k,
{
    if k > 0 {
        law_identity_is_kept(states, events, capacity, k - 1);
        assert(events[k - 1].leads(states[k - 1], states[k - 1 + 1], capacity));
    }
}

/// Once the receiver is gone, every message comes back to its sender.
pub proof fn law_gone_receiver_stays_gone<T>(
    states: Seq<ChannelView<T>>,
    events: Seq<ChannelEvent<T>>,
    capacity: nat,
    k: int,
)
    requires
        history(states, events, capacity),
        states[0].receiver_state == RECEIVER_GONE,
        forall|i: int| 0 <= i < events.len() ==> !(#[trigger] events[i] is Recv),
        0 <= k < states.len(),
    ensures
        states[k].receiver_state == RECEIVER_GONE,
        k < events.len() ==> match events[k] {
            ChannelEvent::Send { message, sent } => sent == Progress::<
                Result<Wake, SendError<T>>,
                PendingSend<T>,
            >::Finished(Err(SendError::Disconnected(message))),
            ChannelEvent::TrySend { message, tried } => tried == Err::<Wake, TrySendError<T>>(
                TrySendError::Disconnected(message),
            ),
            _ => true,
        },
    decreases k,
{
    if k > 0 {
        law_gone_receiver_stays_gone(states, events, capacity, k - 1);
        assert(!(events[k - 1] is Recv));
        assert(events[k - 1].leads(states[k - 1], states[k - 1 + 1], capacity));
    }
    if k < events.len() {
        assert(events[k].leads(states[k], states[k + 1], capacity));
    }
}

/// Once the senders are gone, the receiver still gets the messages that are on their way, in order,
/// and learns only after that that there are no more.
pub proof fn law_messages_outlive_senders<T>(
    states: Seq<ChannelView<T>>,
    events: Seq<ChannelEvent<T>>,
    capacity: nat,
    k: int,
)
    requires
        history(states, events, capacity),
        states[0].senders_count == 0,
        forall|i: int| 0 <= i < events.len() ==> #[trigger] events[i] is Recv,
        0 <= k < events.len(),
    ensures
        events[k] == (ChannelEvent::<T>::Recv {
            received: Progress::Finished(
                if k < states[0].messages().len() {
                    Ok(Receipt { message: states[0].messages()[k], wake: Wake::Nobody })
                } else {
                    Err(ReceiveError::Disconnected)
                },
            ),
        }),
{
    senders_stay_gone(states, events, capacity, k);
    assert(events[k] is Recv);
    assert(events[k].leads(states[k], states[k + 1], capacity));
}

/// Once the senders are gone, the receiver still gets the messages that are on their way, in order,
/// whether it waits for them or only tries, and learns only after that that there are no more.
pub proof fn law_messages_outlive_senders_however_received<T>(
    states: Seq<ChannelView<T>>,
    events: Seq<ChannelEvent<T>>,
    capacity: nat,
    k: int,
)
    requires
        history(states, events, capacity),
        states[0].senders_count == 0,
        forall|i: int|
            0 <= i < events.len() ==> #[trigger] events[i] is Recv || events[i] is TryRecv,
        0 <= k < events.len(),
    ensures
        events[k] is Recv ==> events[k] == (ChannelEvent::<T>::Recv {
            received: Progress::Finished(
                if k < states[0].messages().len() {
                    Ok(Receipt { message: states[0].messages()[k], wake: Wake::Nobody })
                } else {
                    Err(ReceiveError::Disconnected)
                },
            ),
        }),
        events[k] is TryRecv ==> events[k] == (ChannelEvent::<T>::TryRecv {
            taken: if k < states[0].messages().len() {
                Ok(states[0].messages()[k])
            } else {
                Err(TryReceiveError::Disconnected)
            },
        }),
{
    senders_stay_gone(states, events, capacity, k);
    assert(events[k] is Recv || events[k] is TryRecv);
    assert(events[k].leads(states[k], states[k + 1], capacity));
}

proof fn senders_stay_gone<T>(
    states: Seq<ChannelView<T>>,
    events: Seq<ChannelEvent<T>>,
    capacity: nat,
    k: int,
)
    requires
        history(states, events, capacity),
        states[0].senders_count == 0,
        forall|i: int|
            0 <= i < events.len() ==> #[trigger] events[i] is Recv || events[i] is TryRecv,
        0 <= k < states.len(),
    ensures
        states[k].senders_count == 0,
        states[k].messages() == if k < states[0].messages().len() {
            states[0].messages().skip(k)
        } else {
            Seq::empty()
        },
    decreases k,
{
    if k > 0 {
        senders_stay_gone(states, events, capacity, k - 1);
        assert(events[k - 1] is Recv || events[k - 1] is TryRecv);
        assert(events[k - 1].leads(states[k - 1], states[k - 1 + 1], capacity));
    }
}

/// A `recv` that finds no message sleeps, and the next message that is sent wakes it and is the one
/// that it receives.
pub proof fn law_blocked_recv_gets_the_next_message<T>(
    channel: ChannelView<T>,
    capacity: nat,
    message: T,
)
    requires
        channel.messages().len() == 0,
        channel.senders_count > 0,
        capacity > 0,
    ensures
        channel.receives().1 == ChannelCall::RecvSleep,
        channel.receives().0.sends(capacity, message).1 == ChannelCall::Done(
            ChannelOutcome::Sent(Wake::One),
        ),
        channel.receives().0.sends(capacity, message).0.receiver_state != RECEIVER_SLEEPS,
        ({
            let woken = channel.receives().0.sends(capacity, message).0;
            receive_result(woken.receives().1, woken.messages()) == Progress::<
                Result<Receipt<T>, ReceiveError>,
                ChannelCall,
            >::Finished(Ok(Receipt { message, wake: Wake::One }))
        }),
{
}

/// A `recv` that finds no message sleeps, and the next message that comes by `try_send` wakes it
/// and is the one that it receives.
pub proof fn law_blocked_recv_gets_the_next_tried_message<T>(
    channel: ChannelView<T>,
    capacity: nat,
    message: T,
    tried: ChannelView<T>,
    res: Result<Wake, TrySendError<T>>,
)
    requires
        channel.messages().len() == 0,
        channel.senders_count > 0,
        capacity > 0,
        tries_to_send(channel.receives().0, tried, capacity, message, res),
    ensures
        res == Ok::<Wake, TrySendError<T>>(Wake::One),
        tried.receiver_state != RECEIVER_SLEEPS,
        receive_result(tried.receives().1, tried.messages()) == Progress::<
            Result<Receipt<T>, ReceiveError>,
            ChannelCall,
        >::Finished(Ok(Receipt { message, wake: Wake::One })),
{
}

/// A `send` that finds no room sleeps, and the next message that is received wakes it and makes the
/// room that it needs.
pub proof fn law_blocked_send_gets_the_next_room<T>(
    channel: ChannelView<T>,
    capacity: nat,
    message: T,
)
    requires
        channel.messages().len() == capacity,
        capacity > 0,
        channel.senders_count > 0,
        channel.receiver_state != RECEIVER_GONE,
    ensures
        channel.sends(capacity, message).1 == (ChannelCall::SendSleep {
            seen: channel.sender_wait_num,
        }),
        channel.receives().1 == ChannelCall::Done(ChannelOutcome::Received(Wake::One)),
        channel.receives().0.sender_wait_num != channel.sender_wait_num,
        channel.receives().0.sends(capacity, message).1 is Done,
        channel.receives().0.sends(capacity, message).0.messages()
            == channel.messages().drop_first().push(message),
{
}

impl RawChannel {
    /// The atomic that holds the number of senders.
    pub closed spec fn senders_atomic(self) -> AtomicUsize {
        self.senders_count
    }

    /// The atomic that holds the number of receipts.
    pub closed spec fn receipts_atomic(self) -> AtomicU32 {
        self.sender_wait_num
    }

    /// The atomic that says whether the receiver is awake, sleeps or is gone.
    pub closed spec fn receiver_atomic(self) -> AtomicU32 {
        self.receiver_state
    }
}

/// Each word is held by its own atomic, which starts with the value of a new channel; an action on
/// a word is performed on that atomic and on no other.
pub proof fn law_every_word_has_its_atomic(
    made: RawChannel,
    raw: RawChannel,
    action: ChannelAction,
    reply: ChannelReply,
)
    requires
        call_ensures(RawChannel::new, (), made),
        call_requires(RawChannel::perform, (&raw, action)),
        call_ensures(RawChannel::perform, (&raw, action), Some(reply)),
    ensures
        call_ensures(AtomicUsize::new, (1usize,), made.senders_atomic()),
        call_ensures(AtomicU32::new, (0u32,), made.receipts_atomic()),
        call_ensures(AtomicU32::new, (RECEIVER_AWAKE,), made.receiver_atomic()),
        action matches ChannelAction::Senders(op) ==> reply is Senders && op.performed(
            raw.senders_atomic(),
            reply->Senders_0,
        ),
        action matches ChannelAction::Word(act) ==> reply is Word && act.performed(
            match act.word() {
                ChannelWord::SenderWaitNum => raw.receipts_atomic(),
                ChannelWord::ReceiverState => raw.receiver_atomic(),
            },
            reply->Word_0,
        ),
{
}

} // verus!
