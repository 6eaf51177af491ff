//! What a [`channel`](crate::channel) is for.

use crate::channel::{
    Channel, ChannelAction, ChannelCall, ChannelOutcome, ChannelReply, ChannelView, ChannelWord,
    PendingSend, RawChannel, Receipt, ReceiveError, Receiver, SendError, Sender, TryReceiveError,
    TrySendError, MAX_SENDER_COUNT, RECEIVER_AWAKE, RECEIVER_GONE, RECEIVER_SLEEPS,
};
use crate::laws;
use crate::utils::mutex_common::{Identities, Progress, Wake};
use crate::word::{Action, Op, Order, Reply};
use vstd::arithmetic::power2;
use vstd::prelude::*;

verus! {

/// The messages that are on their way, in the order in which they were sent.
pub open spec fn on_their_way<T>(channel: ChannelView<T>) -> Seq<T> {
    channel.ring.items
}

/// There is room for another message, and the number that it gets can be counted.
pub open spec fn can_take_one_more<T, const N: usize>(channel: Channel<T, N>) -> bool {
    &&& channel.wf()
    &&& on_their_way(channel@).len() < N ==> channel@.ring.head < usize::MAX
}

/// The two ends of a new channel are of one channel, which is empty: the receiver has to wait, and
/// is not told that the channel is closed.
pub proof fn law_new_channel_is_empty<T, const N: usize>(
    channel: &mut Channel<T, N>,
    ids: &mut Identities,
    ends: (Sender, Receiver),
    tried: &mut Channel<T, N>,
    taken: Result<T, TryReceiveError>,
)
    requires
        power2::is_pow2(N as int),
        call_ensures(Channel::<T, N>::channel, (channel, ids), ends),
        *old(tried) == *final(channel),
        call_ensures(Receiver::try_recv::<T, N>, (&ends.1, tried), taken),
    ensures
        ends.0@ == ends.1@,
        ends.0@ == final(channel)@.id,
        final(channel)@.id == old(ids)@,
        final(ids)@ != old(ids)@,
        final(channel).wf(),
        taken == Err::<T, TryReceiveError>(TryReceiveError::BufferEmpty),
        final(tried)@ == final(channel)@,
        final(channel)@.senders_count == 1,
        final(channel)@.receiver_state == RECEIVER_AWAKE,
{
}

/// A channel by itself is empty too, with one sender and a receiver that is awake.
pub proof fn law_new_channel_has_two_ends<T, const N: usize>(
    ids: &mut Identities,
    channel: Channel<T, N>,
)
    requires
        power2::is_pow2(N as int),
        call_ensures(Channel::<T, N>::new, (ids,), channel),
    ensures
        channel.wf(),
        on_their_way(channel@).len() == 0,
        channel@.senders_count == 1,
        channel@.receiver_state == RECEIVER_AWAKE,
        channel@.sender_wait_num == 0,
        channel@.id == old(ids)@,
        final(ids)@ != old(ids)@,
{
}

/// On the atomics, the actions on the words answer, and those on the ring do not.
pub proof fn law_words_answer(
    raw: RawChannel,
    action: ChannelAction,
    reply: Option<ChannelReply>,
)
    requires
        call_requires(RawChannel::perform, (&raw, action)),
        call_ensures(RawChannel::perform, (&raw, action), reply),
    ensures
        reply is Some <==> action is Word || action is Senders,
        action matches ChannelAction::Word(act) ==> reply->Some_0 is Word && act.fits(
            reply->Some_0->Word_0,
        ),
        action matches ChannelAction::Senders(op) ==> reply->Some_0 is Senders && op.fits(
            reply->Some_0->Senders_0,
        ),
{
}

/// A message that is sent on an empty channel is the one that is received next, and the channel is
/// empty then: whether it is sent and received by calls that wait or by calls that do not.
pub proof fn law_what_is_sent_is_received<T, const N: usize>(
    tx: Sender,
    rx: Receiver,
    message: T,
    sent: &mut Channel<T, N>,
    wake: Wake,
    received: &mut Channel<T, N>,
    res: Progress<Result<Receipt<T>, ReceiveError>, ChannelCall>,
    taken: &mut Channel<T, N>,
    tried: Result<T, TryReceiveError>,
)
    requires
        tx@ == old(sent)@.id,
        rx@ == old(sent)@.id,
        can_take_one_more(*old(sent)),
        on_their_way(old(sent)@).len() == 0,
        old(sent)@.senders_count > 0,
        call_ensures(
            Sender::try_send::<T, N>,
            (&tx, sent, message),
            Ok::<Wake, TrySendError<T>>(wake),
        ) || call_ensures(
            Sender::send::<T, N>,
            (&tx, sent, message),
            Progress::<Result<Wake, SendError<T>>, PendingSend<T>>::Finished(Ok(wake)),
        ),
        *old(received) == *final(sent),
        call_ensures(Receiver::recv::<T, N>, (&rx, received), res),
        *old(taken) == *final(sent),
        call_ensures(Receiver::try_recv::<T, N>, (&rx, taken), tried),
    ensures
        res matches Progress::Finished(Ok(receipt)) && receipt.message == message,
        tried == Ok::<T, TryReceiveError>(message),
        on_their_way(final(received)@).len() == 0,
        on_their_way(final(taken)@).len() == 0,
{
}

/// A `send` adds its message behind those that are on their way, if there is room and the receiver
/// is there. Without the receiver the message comes back at once. Without room the call waits, with
/// the message in hand, and changes nothing.
pub proof fn law_send_adds_the_message_or_waits<T, const N: usize>(
    tx: Sender,
    channel: &mut Channel<T, N>,
    message: T,
    res: Progress<Result<Wake, SendError<T>>, PendingSend<T>>,
)
    requires
        tx@ == old(channel)@.id,
        can_take_one_more(*old(channel)),
        call_ensures(Sender::send::<T, N>, (&tx, channel, message), res),
    ensures
        old(channel)@.receiver_state == RECEIVER_GONE <==> res == Progress::<
            Result<Wake, SendError<T>>,
            PendingSend<T>,
        >::Finished(Err(SendError::Disconnected(message))),
        res is Finished && res->Finished_0 is Ok <==> old(channel)@.receiver_state != RECEIVER_GONE
            && on_their_way(old(channel)@).len() < N,
        res is Pending <==> old(channel)@.receiver_state != RECEIVER_GONE && on_their_way(
            old(channel)@,
        ).len() >= N,
        res matches Progress::Finished(Ok(wake)) ==> {
            &&& on_their_way(final(channel)@) == on_their_way(old(channel)@).push(message)
            &&& final(channel)@.receiver_state != RECEIVER_SLEEPS
            &&& final(channel)@.receiver_state != RECEIVER_GONE
            &&& wake == Wake::One <==> old(channel)@.receiver_state == RECEIVER_SLEEPS
            &&& wake == Wake::One || wake == Wake::Nobody
        },
        !(res is Finished && res->Finished_0 is Ok) ==> final(channel)@ == old(channel)@,
        res matches Progress::Pending(pending) ==> pending.message == message && pending.call == (
        ChannelCall::SendSleep { seen: old(channel)@.sender_wait_num }),
        final(channel)@.id == old(channel)@.id,
        final(channel)@.senders_count == old(channel)@.senders_count,
        final(channel)@.sender_wait_num == old(channel)@.sender_wait_num,
{
}

/// A `try_send` does what a `send` does, except that it does not wait: where the `send` would, the
/// message comes back and nothing changes. It wakes the receiver exactly where the `send` does.
pub proof fn law_try_send_is_send_without_waiting<T, const N: usize>(
    tx: Sender,
    message: T,
    tried: &mut Channel<T, N>,
    tried_res: Result<Wake, TrySendError<T>>,
    sent: &mut Channel<T, N>,
    res: Progress<Result<Wake, SendError<T>>, PendingSend<T>>,
)
    requires
        *old(tried) == *old(sent),
        tx@ == old(tried)@.id,
        can_take_one_more(*old(tried)),
        call_ensures(Sender::try_send::<T, N>, (&tx, tried, message), tried_res),
        call_ensures(Sender::send::<T, N>, (&tx, sent, message), res),
    ensures
        final(tried)@ == final(sent)@,
        tried_res matches Ok(wake) ==> res == Progress::<
            Result<Wake, SendError<T>>,
            PendingSend<T>,
        >::Finished(Ok(wake)),
        tried_res is Ok <==> old(tried)@.receiver_state != RECEIVER_GONE && on_their_way(
            old(tried)@,
        ).len() < N,
        tried_res == Err::<Wake, TrySendError<T>>(TrySendError::Disconnected(message)) <==> old(
            tried,
        )@.receiver_state == RECEIVER_GONE,
        tried_res == Err::<Wake, TrySendError<T>>(TrySendError::BufferFull(message))
            <==> res is Pending,
{
}

/// A `recv` takes the first of the messages that are on their way, whatever the number of senders.
/// Without messages it ends if there are no senders, and waits if there are.
pub proof fn law_recv_takes_the_first_message_or_waits<T, const N: usize>(
    rx: Receiver,
    channel: &mut Channel<T, N>,
    res: Progress<Result<Receipt<T>, ReceiveError>, ChannelCall>,
)
    requires
        rx@ == old(channel)@.id,
        old(channel).wf(),
        call_ensures(Receiver::recv::<T, N>, (&rx, channel), res),
    ensures
        on_their_way(old(channel)@).len() > 0 ==> {
            &&& res matches Progress::Finished(Ok(receipt))
            &&& receipt.message == on_their_way(old(channel)@)[0]
            &&& on_their_way(final(channel)@) == on_their_way(old(channel)@).skip(1)
            &&& receipt.wake == Wake::One <==> old(channel)@.senders_count > 0
            &&& old(channel)@.senders_count > 0 ==> final(channel)@.sender_wait_num
                == laws::one_more(old(channel)@.sender_wait_num)
            &&& old(channel)@.senders_count == 0 ==> final(channel)@.sender_wait_num == old(
                channel,
            )@.sender_wait_num
            &&& final(channel)@.receiver_state == old(channel)@.receiver_state
        },
        res is Finished && res->Finished_0 is Err <==> on_their_way(old(channel)@).len() == 0
            && old(channel)@.senders_count == 0,
        res is Finished && res->Finished_0 is Err ==> final(channel)@ == old(channel)@,
        res is Pending <==> on_their_way(old(channel)@).len() == 0 && old(channel)@.senders_count
            > 0,
        res is Pending ==> {
            &&& res->Pending_0 == ChannelCall::RecvSleep
            &&& final(channel)@.receiver_state == RECEIVER_SLEEPS
            &&& on_their_way(final(channel)@) == on_their_way(old(channel)@)
            &&& final(channel)@.sender_wait_num == old(channel)@.sender_wait_num
        },
        final(channel)@.id == old(channel)@.id,
        final(channel)@.senders_count == old(channel)@.senders_count,
{
}

/// A `try_recv` takes the first of the messages that are on their way, whatever the number of
/// senders. Without messages it says whether there are senders, and changes nothing. It receives
/// what a `recv` receives, and is refused where the `recv` ends or waits.
pub proof fn law_try_recv_is_recv_without_waiting<T, const N: usize>(
    rx: Receiver,
    tried: &mut Channel<T, N>,
    taken: Result<T, TryReceiveError>,
    received: &mut Channel<T, N>,
    res: Progress<Result<Receipt<T>, ReceiveError>, ChannelCall>,
)
    requires
        *old(tried) == *old(received),
        rx@ == old(tried)@.id,
        old(tried).wf(),
        call_ensures(Receiver::try_recv::<T, N>, (&rx, tried), taken),
        call_ensures(Receiver::recv::<T, N>, (&rx, received), res),
    ensures
        taken is Ok <==> on_their_way(old(tried)@).len() > 0,
        taken is Ok <==> res is Finished && res->Finished_0 is Ok,
        taken matches Ok(message) ==> {
            &&& message == on_their_way(old(tried)@)[0]
            &&& message == res->Finished_0->Ok_0.message
            &&& on_their_way(final(tried)@) == on_their_way(old(tried)@).skip(1)
            &&& on_their_way(final(tried)@) == on_their_way(final(received)@)
        },
        taken == Err::<T, TryReceiveError>(TryReceiveError::Disconnected) <==> res is Finished
            && res->Finished_0 is Err,
        taken == Err::<T, TryReceiveError>(TryReceiveError::BufferEmpty) <==> res is Pending,
        taken is Err ==> final(tried)@ == old(tried)@,
        final(tried)@.id == old(tried)@.id,
        final(tried)@.senders_count == old(tried)@.senders_count,
        final(tried)@.receiver_state == old(tried)@.receiver_state,
        final(tried)@.sender_wait_num == old(tried)@.sender_wait_num,
{
}

/// Messages outlive the senders: when the last sender goes, the messages that are on their way stay
/// on their way, and both `recv` and `try_recv` still receive the first of them. The receiver
/// learns that there are no senders only when there is no message left.
pub proof fn law_messages_outlive_the_last_sender<T, const N: usize>(
    tx: Sender,
    rx: Receiver,
    left: &mut Channel<T, N>,
    received: &mut Channel<T, N>,
    res: Progress<Result<Receipt<T>, ReceiveError>, ChannelCall>,
    tried: &mut Channel<T, N>,
    taken: Result<T, TryReceiveError>,
)
    requires
        tx@ == old(left)@.id,
        rx@ == old(left)@.id,
        old(left).wf(),
        old(left)@.senders_count == 1,
        call_ensures(Sender::disconnect::<T, N>, (tx, left), ()),
        *old(received) == *final(left),
        call_ensures(Receiver::recv::<T, N>, (&rx, received), res),
        *old(tried) == *final(left),
        call_ensures(Receiver::try_recv::<T, N>, (&rx, tried), taken),
    ensures
        final(left)@.senders_count == 0,
        on_their_way(final(left)@) == on_their_way(old(left)@),
        on_their_way(old(left)@).len() > 0 ==> {
            &&& res matches Progress::Finished(Ok(receipt))
            &&& receipt.message == on_their_way(old(left)@)[0]
            &&& taken == Ok::<T, TryReceiveError>(on_their_way(old(left)@)[0])
        },
        on_their_way(old(left)@).len() == 0 ==> {
            &&& res == Progress::<Result<Receipt<T>, ReceiveError>, ChannelCall>::Finished(
                Err(ReceiveError::Disconnected),
            )
            &&& taken == Err::<T, TryReceiveError>(TryReceiveError::Disconnected)
        },
{
}

/// A `recv` that sleeps is woken by the next message, whether it comes by `send` or by `try_send`:
/// the sender is told to wake one, and the `recv` that goes on receives that message.
pub proof fn law_sleeping_recv_gets_the_next_message<T, const N: usize>(
    tx: Sender,
    rx: Receiver,
    message: T,
    asked: &mut Channel<T, N>,
    call: ChannelCall,
    sent: &mut Channel<T, N>,
    sent_res: Progress<Result<Wake, SendError<T>>, PendingSend<T>>,
    tried: &mut Channel<T, N>,
    tried_res: Result<Wake, TrySendError<T>>,
    resumed: &mut Channel<T, N>,
    res: Progress<Result<Receipt<T>, ReceiveError>, ChannelCall>,
)
    requires
        tx@ == old(asked)@.id,
        rx@ == old(asked)@.id,
        can_take_one_more(*old(asked)),
        N > 0,
        call_ensures(
            Receiver::recv::<T, N>,
            (&rx, asked),
            Progress::<Result<Receipt<T>, ReceiveError>, ChannelCall>::Pending(call),
        ),
        *old(sent) == *final(asked),
        call_ensures(Sender::send::<T, N>, (&tx, sent, message), sent_res),
        *old(tried) == *final(asked),
        call_ensures(Sender::try_send::<T, N>, (&tx, tried, message), tried_res),
        *old(resumed) == *final(sent) || *old(resumed) == *final(tried),
        call_ensures(Receiver::resume::<T, N>, (&rx, resumed, call), res),
    ensures
        sent_res == Progress::<Result<Wake, SendError<T>>, PendingSend<T>>::Finished(
            Ok(Wake::One),
        ),
        tried_res == Ok::<Wake, TrySendError<T>>(Wake::One),
        final(sent)@.receiver_state != RECEIVER_SLEEPS,
        final(tried)@.receiver_state != RECEIVER_SLEEPS,
        res matches Progress::Finished(Ok(receipt)) && receipt.message == message,
        on_their_way(final(resumed)@).len() == 0,
{
}

/// A `recv` that is resumed while it is still noted to sleep goes on sleeping, and nothing changes.
/// Otherwise it does what a `recv` does that starts then.
pub proof fn law_resumed_recv_is_a_recv<T, const N: usize>(
    rx: Receiver,
    call: ChannelCall,
    resumed: &mut Channel<T, N>,
    res: Progress<Result<Receipt<T>, ReceiveError>, ChannelCall>,
    received: &mut Channel<T, N>,
    fresh: Progress<Result<Receipt<T>, ReceiveError>, ChannelCall>,
)
    requires
        *old(resumed) == *old(received),
        rx@ == old(resumed)@.id,
        old(resumed).wf(),
        call == ChannelCall::RecvSleep,
        call_ensures(Receiver::resume::<T, N>, (&rx, resumed, call), res),
        call_ensures(Receiver::recv::<T, N>, (&rx, received), fresh),
    ensures
        old(resumed)@.receiver_state == RECEIVER_SLEEPS ==> res == Progress::<
            Result<Receipt<T>, ReceiveError>,
            ChannelCall,
        >::Pending(call) && final(resumed)@ == old(resumed)@,
        old(resumed)@.receiver_state != RECEIVER_SLEEPS ==> res == fresh && final(resumed)@
            == final(received)@,
{
}

/// A `send` that waits for room gets on once a message is received: the receiver is told to wake
/// one, and the `send` that goes on adds its message behind the others.
pub proof fn law_waiting_send_gets_the_next_room<T, const N: usize>(
    tx: Sender,
    rx: Receiver,
    message: T,
    asked: &mut Channel<T, N>,
    pending: PendingSend<T>,
    received: &mut Channel<T, N>,
    received_res: Progress<Result<Receipt<T>, ReceiveError>, ChannelCall>,
    resumed: &mut Channel<T, N>,
    res: Progress<Result<Wake, SendError<T>>, PendingSend<T>>,
)
    requires
        tx@ == old(asked)@.id,
        rx@ == old(asked)@.id,
        old(asked).wf(),
        N > 0,
        old(asked)@.senders_count > 0,
        old(asked)@.ring.head < usize::MAX,
        on_their_way(old(asked)@).len() == N,
        call_ensures(
            Sender::send::<T, N>,
            (&tx, asked, message),
            Progress::<Result<Wake, SendError<T>>, PendingSend<T>>::Pending(pending),
        ),
        *old(received) == *final(asked),
        call_ensures(Receiver::recv::<T, N>, (&rx, received), received_res),
        *old(resumed) == *final(received),
        call_ensures(Sender::resume::<T, N>, (&tx, resumed, pending), res),
    ensures
        received_res matches Progress::Finished(Ok(receipt)) && receipt.wake == Wake::One,
        res is Finished && res->Finished_0 is Ok,
        on_their_way(final(resumed)@) == on_their_way(old(asked)@).skip(1).push(message),
{
    assert(on_their_way(old(asked)@).drop_first() =~= on_their_way(old(asked)@).skip(1));
}

/// A `send` that is resumed before there was a receipt goes on sleeping, and nothing changes.
/// Otherwise it does what a `send` of its message does that starts then.
pub proof fn law_resumed_send_is_a_send<T, const N: usize>(
    tx: Sender,
    pending: PendingSend<T>,
    resumed: &mut Channel<T, N>,
    res: Progress<Result<Wake, SendError<T>>, PendingSend<T>>,
    sent: &mut Channel<T, N>,
    fresh: Progress<Result<Wake, SendError<T>>, PendingSend<T>>,
    seen: u32,
)
    requires
        *old(resumed) == *old(sent),
        tx@ == old(resumed)@.id,
        can_take_one_more(*old(resumed)),
        pending.call == (ChannelCall::SendSleep { seen }),
        call_ensures(Sender::resume::<T, N>, (&tx, resumed, pending), res),
        call_ensures(Sender::send::<T, N>, (&tx, sent, pending.message), fresh),
    ensures
        old(resumed)@.sender_wait_num == seen ==> res == Progress::<
            Result<Wake, SendError<T>>,
            PendingSend<T>,
        >::Pending(pending) && final(resumed)@ == old(resumed)@,
        old(resumed)@.sender_wait_num != seen ==> res == fresh && final(resumed)@ == final(sent)@,
{
}

/// A sender that is added or goes is counted, and a sender that is added is of the same channel;
/// the messages stay. A receiver that goes is noted, and messages sent after that come back.
pub proof fn law_ends_come_and_go<T, const N: usize>(
    tx: Sender,
    cloned: &mut Channel<T, N>,
    another: Sender,
    left: &mut Channel<T, N>,
    rx: Receiver,
    closed: &mut Channel<T, N>,
    message: T,
    sent: &mut Channel<T, N>,
    sent_res: Progress<Result<Wake, SendError<T>>, PendingSend<T>>,
    tried: &mut Channel<T, N>,
    tried_res: Result<Wake, TrySendError<T>>,
)
    requires
        tx@ == old(cloned)@.id,
        old(cloned).wf(),
        0 < old(cloned)@.senders_count <= MAX_SENDER_COUNT,
        call_ensures(Sender::clone::<T, N>, (&tx, cloned), another),
        *old(left) == *final(cloned),
        call_ensures(Sender::disconnect::<T, N>, (another, left), ()),
        rx@ == old(closed)@.id,
        *old(closed) == *old(cloned),
        call_ensures(Receiver::disconnect::<T, N>, (rx, closed), ()),
        can_take_one_more(*final(closed)),
        *old(sent) == *final(closed),
        call_ensures(Sender::send::<T, N>, (&tx, sent, message), sent_res),
        *old(tried) == *final(closed),
        call_ensures(Sender::try_send::<T, N>, (&tx, tried, message), tried_res),
    ensures
        another@ == tx@,
        final(cloned)@.senders_count == old(cloned)@.senders_count + 1,
        final(cloned)@.receiver_state == old(cloned)@.receiver_state,
        final(cloned)@.sender_wait_num == old(cloned)@.sender_wait_num,
        final(cloned)@.id == old(cloned)@.id,
        on_their_way(final(cloned)@) == on_their_way(old(cloned)@),
        final(left)@ == old(cloned)@,
        final(closed)@.id == old(closed)@.id,
        final(closed)@.senders_count == old(closed)@.senders_count,
        on_their_way(final(closed)@) == on_their_way(old(closed)@),
        sent_res == Progress::<Result<Wake, SendError<T>>, PendingSend<T>>::Finished(
            Err(SendError::Disconnected(message)),
        ),
        tried_res == Err::<Wake, TrySendError<T>>(TrySendError::Disconnected(message)),
        final(sent)@ == final(closed)@,
        final(tried)@ == final(closed)@,
{
}

/// Which call a step belongs to.
pub enum ChannelKind {
    Send,
    TrySend,
    Clone,
    Drop,
    Recv,
    TryRecv,
}

/// The steps of each call, and the ways in which it can end. A `send` is never told that the ring
/// is full, nor a `recv` that it is empty: they wait.
pub open spec fn is_of_kind(call: ChannelCall, kind: ChannelKind) -> bool {
    match kind {
        ChannelKind::Send => call is SendCheck || call is SendPush || call is SendLook
            || call is SendMark || call is SendWake || call is SendCount || call is SendSleep
            || call is Done && (call->Done_0 is Sent || call->Done_0 is Disconnected),
        ChannelKind::TrySend => call is TrySendCheck || call is TrySendPush || call is SendLook
            || call is SendMark || call is SendWake || call is Done && (call->Done_0 is Sent
            || call->Done_0 is BufferFull || call->Done_0 is Disconnected),
        ChannelKind::Clone => call is SenderClone || call is Done && (call->Done_0 is Cloned
            || call->Done_0 is TooManySenders),
        ChannelKind::Drop => call is SenderDrop || call is ReceiverDrop || call is Done
            && call->Done_0 is Dropped,
        ChannelKind::Recv => call is RecvCheck || call is RecvDrain || call is RecvPop
            || call is RecvCount || call is RecvWake || call is RecvMark || call is RecvPopAgain
            || call is RecvSleep || call is Done && (call->Done_0 is Received
            || call->Done_0 is Disconnected),
        ChannelKind::TryRecv => call is TryRecvPop || call is TryRecvCheck || call is TryRecvDrain
            || call is Done && (call->Done_0 is Received || call->Done_0 is BufferEmpty
            || call->Done_0 is Disconnected),
    }
}

/// Every step leads to a step of the same call, or to one of its ends, whatever the others do.
pub proof fn law_calls_keep_their_kind(
    call: ChannelCall,
    kind: ChannelKind,
    reply: ChannelReply,
    next: ChannelCall,
)
    requires
        is_of_kind(call, kind),
        call_ensures(ChannelCall::advance, (call, reply), next),
    ensures
        is_of_kind(next, kind),
{
}

/// A call that is over takes no step, and every other call does.
pub proof fn law_calls_go_on_until_they_are_over(call: ChannelCall, action: Option<ChannelAction>)
    requires
        call_ensures(ChannelCall::action, (&call,), action),
    ensures
        action is None <==> call is Done,
{
}

/// Messages are added only in `send` and `try_send`, and taken only in `recv` and `try_recv`. Once
/// a message is added, the call goes on to see whether the receiver sleeps; once one is taken, the
/// call ends with it, or counts the receipt first. A call that failed to add a message has not sent
/// it, and one that failed to take one has not received any.
pub proof fn law_messages_go_through_the_ring(
    call: ChannelCall,
    action: ChannelAction,
    done: bool,
    reply: ChannelReply,
    next: ChannelCall,
)
    requires
        call_ensures(ChannelCall::action, (&call,), Some(action)),
        call_ensures(ChannelCall::advance, (call, reply), next),
        action is Push || action is TryPush ==> reply == ChannelReply::Pushed(done),
        action is Pop || action is TryPop ==> reply == ChannelReply::Popped(done),
    ensures
        action is Push <==> call is SendPush,
        action is TryPush <==> call is TrySendPush,
        action is Pop <==> call is RecvPop || call is RecvPopAgain || call is RecvDrain
            || call is TryRecvDrain,
        action is TryPop <==> call is TryRecvPop,
        (action is Push || action is TryPush) && done ==> next is SendLook,
        action is Push && !done ==> next is SendCount,
        action is TryPush && !done ==> next == ChannelCall::Done(ChannelOutcome::BufferFull),
        (call is RecvPop || call is RecvPopAgain) && done ==> next is RecvCount,
        (call is RecvDrain || call is TryRecvDrain || call is TryRecvPop) && done ==> next
            == ChannelCall::Done(ChannelOutcome::Received(Wake::Nobody)),
        call is RecvPop && !done ==> next is RecvMark,
        call is RecvPopAgain && !done ==> next is RecvSleep,
        call is RecvDrain && !done ==> next == ChannelCall::Done(ChannelOutcome::Disconnected),
        call is TryRecvDrain && !done ==> next == ChannelCall::Done(ChannelOutcome::Disconnected),
        call is TryRecvPop && !done ==> next is TryRecvCheck,
{
}

/// What the calls see of each other. A sender is told that the receiver is gone exactly where it
/// saw that. A receiver that saw no senders looks at the ring once more before it says so, and one
/// that saw senders does not say so. A sender that saw the receiver sleep wakes it, if it is the
/// one to note that. A sender is added unless there were too many.
pub proof fn law_calls_tell_what_they_saw(
    call: ChannelCall,
    value: u32,
    next: ChannelCall,
    senders: usize,
    next_by_senders: ChannelCall,
    marked: ChannelCall,
    missed: ChannelCall,
    found: u32,
)
    requires
        call_ensures(
            ChannelCall::advance,
            (call, ChannelReply::Word(Reply::Value(value))),
            next,
        ),
        call_ensures(
            ChannelCall::advance,
            (call, ChannelReply::Senders(Reply::Value(senders))),
            next_by_senders,
        ),
        call_ensures(
            ChannelCall::advance,
            (ChannelCall::SendMark, ChannelReply::Word(Reply::Swapped)),
            marked,
        ),
        call_ensures(
            ChannelCall::advance,
            (ChannelCall::SendMark, ChannelReply::Word(Reply::Changed(found))),
            missed,
        ),
    ensures
        call is SendCheck || call is TrySendCheck ==> (next == ChannelCall::Done(
            ChannelOutcome::Disconnected,
        ) <==> value == RECEIVER_GONE),
        call is SendCheck && value != RECEIVER_GONE ==> next is SendPush,
        call is TrySendCheck && value != RECEIVER_GONE ==> next is TrySendPush,
        call is SendLook && value == RECEIVER_AWAKE ==> next == ChannelCall::Done(
            ChannelOutcome::Sent(Wake::Nobody),
        ),
        call is SendLook && value != RECEIVER_AWAKE ==> next is SendMark,
        marked is SendWake,
        missed == ChannelCall::Done(ChannelOutcome::Sent(Wake::Nobody)),
        call is SendCount ==> next == (ChannelCall::SendSleep { seen: value }),
        call is RecvCheck ==> (next_by_senders is RecvDrain <==> senders == 0)
            && (next_by_senders is RecvPop <==> senders != 0),
        call is TryRecvCheck ==> (next_by_senders is TryRecvDrain <==> senders == 0)
            && (next_by_senders == ChannelCall::Done(ChannelOutcome::BufferEmpty) <==> senders
            != 0),
        call is SenderClone ==> (next_by_senders == ChannelCall::Done(ChannelOutcome::Cloned)
            <==> senders <= MAX_SENDER_COUNT) && (next_by_senders == ChannelCall::Done(
            ChannelOutcome::TooManySenders,
        ) <==> senders > MAX_SENDER_COUNT),
        call is SenderDrop ==> next_by_senders == ChannelCall::Done(ChannelOutcome::Dropped),
{
}

/// What the steps do to the words. A receipt is counted and then wakes a sender, which sleeps on
/// the number of receipts that it saw; the receiver sleeps on the note that it sleeps, which a
/// sender takes back before it wakes it. After a sleep a call starts over. Senders are counted one
/// by one, and only the receiver's going notes that it is gone.
pub proof fn law_words_say_who_sleeps(
    call: ChannelCall,
    action: ChannelAction,
    next: ChannelCall,
)
    requires
        call_ensures(ChannelCall::action, (&call,), Some(action)),
        call_ensures(ChannelCall::advance, (call, ChannelReply::Word(Reply::Done)), next),
    ensures
        call is SendCheck || call is TrySendCheck || call is SendLook ==> action
            == ChannelAction::Word(
            Action::Word(ChannelWord::ReceiverState, Op::Load(Order::Relaxed)),
        ),
        call is SendMark ==> action == ChannelAction::Word(
            Action::Word(
                ChannelWord::ReceiverState,
                Op::CompareExchange {
                    current: RECEIVER_SLEEPS,
                    new: RECEIVER_AWAKE,
                    order: Order::Relaxed,
                },
            ),
        ),
        call is SendWake ==> action == ChannelAction::Word(
            Action::WakeOne(ChannelWord::ReceiverState),
        ) && next == ChannelCall::Done(ChannelOutcome::Sent(Wake::One)),
        call is SendCount ==> action == ChannelAction::Word(
            Action::Word(ChannelWord::SenderWaitNum, Op::Load(Order::Relaxed)),
        ),
        call matches ChannelCall::SendSleep { seen } ==> action == ChannelAction::Word(
            Action::Wait(ChannelWord::SenderWaitNum, seen),
        ) && next is SendCheck,
        call is RecvCount ==> action == ChannelAction::Word(
            Action::Word(ChannelWord::SenderWaitNum, Op::FetchAdd(1, Order::Relaxed)),
        ) && next is RecvWake,
        call is RecvWake ==> action == ChannelAction::Word(
            Action::WakeOne(ChannelWord::SenderWaitNum),
        ) && next == ChannelCall::Done(ChannelOutcome::Received(Wake::One)),
        call is RecvMark ==> action == ChannelAction::Word(
            Action::Word(
                ChannelWord::ReceiverState,
                Op::Store(RECEIVER_SLEEPS, Order::Relaxed),
            ),
        ) && next is RecvPopAgain,
        call is RecvSleep ==> action == ChannelAction::Word(
            Action::Wait(ChannelWord::ReceiverState, RECEIVER_SLEEPS),
        ) && next is RecvCheck,
        call is ReceiverDrop ==> action == ChannelAction::Word(
            Action::Word(ChannelWord::ReceiverState, Op::Store(RECEIVER_GONE, Order::Relaxed)),
        ) && next == ChannelCall::Done(ChannelOutcome::Dropped),
        call is SenderClone ==> action == ChannelAction::Senders(Op::FetchAdd(1, Order::Relaxed)),
        call is SenderDrop ==> action == ChannelAction::Senders(Op::FetchSub(1, Order::Release)),
        call is RecvCheck || call is TryRecvCheck ==> action == ChannelAction::Senders(
            Op::Load(Order::Relaxed),
        ),
{
}

/// Every call can be made by the ends of a channel, as long as the messages can be counted; a
/// sender can be added while there are no more than half of those that can be counted.
pub proof fn law_any_channel_can_be_used<T, const N: usize>(
    tx: Sender,
    rx: Receiver,
    channel: &mut Channel<T, N>,
    message: T,
    seen: u32,
)
    requires
        tx@ == old(channel)@.id,
        rx@ == old(channel)@.id,
        can_take_one_more(*old(channel)),
    ensures
        call_requires(Sender::send::<T, N>, (&tx, channel, message)),
        call_requires(Sender::try_send::<T, N>, (&tx, channel, message)),
        call_requires(
            Sender::resume::<T, N>,
            (&tx, channel, PendingSend { call: ChannelCall::SendSleep { seen }, message }),
        ),
        call_requires(Sender::disconnect::<T, N>, (tx, channel)),
        old(channel)@.senders_count <= usize::MAX / 2 ==> call_requires(
            Sender::clone::<T, N>,
            (&tx, channel),
        ),
        call_requires(Receiver::recv::<T, N>, (&rx, channel)),
        call_requires(Receiver::resume::<T, N>, (&rx, channel, ChannelCall::RecvSleep)),
        call_requires(Receiver::try_recv::<T, N>, (&rx, channel)),
        call_requires(Receiver::disconnect::<T, N>, (rx, channel)),
        MAX_SENDER_COUNT == usize::MAX / 2,
{
}

} // verus!
