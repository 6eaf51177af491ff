//! The ends of a [`channel`](crate::channel), each used by a thread of its own.
//!
//! The ring of the channel is the one of [`ring_buffer`](crate::interleaving::ring_buffer): where a
//! call adds or takes out a message, the steps of the ring interleave too. Where a `clone` finds
//! too many senders, or a counter of the ring overflows, the thread panics, so no step follows.

use crate::channel::{
    ChannelAction, ChannelCall, ChannelOutcome, ChannelReply, ChannelWord, MAX_SENDER_COUNT,
    RECEIVER_AWAKE, RECEIVER_GONE, RECEIVER_SLEEPS,
};
use crate::interleaving;
use crate::interleaving::ring_buffer;
use crate::interleaving::ring_buffer::Filled;
use crate::utils::ring_buffer::{RingCall, RingOutcome};
use crate::word::{Action, Op, Reply};
use vstd::prelude::*;

verus! {

/// Where an end of the channel stands.
pub enum End {
    /// A sender, in a call or not.
    Sender(Option<ChannelCall>),
    /// The receiver, in a call or not.
    Receiver(Option<ChannelCall>),
    /// A sender that is yet to come.
    Unborn,
    /// Given up.
    Gone,
}

impl End {
    /// The end is a sender that counts.
    pub open spec fn is_sender(self) -> bool {
        match self {
            End::Sender(None) => true,
            End::Sender(Some(call)) => call != ChannelCall::Done(ChannelOutcome::Dropped),
            _ => false,
        }
    }

    /// The end with its call at `call`.
    pub open spec fn at(self, call: ChannelCall) -> End {
        match self {
            End::Receiver(_) => End::Receiver(Some(call)),
            _ => End::Sender(Some(call)),
        }
    }

    /// The end after a call that is over.
    pub open spec fn after(self, call: ChannelCall) -> End {
        if call == ChannelCall::Done(ChannelOutcome::Dropped) {
            End::Gone
        } else {
            match self {
                End::Receiver(_) => End::Receiver(None),
                _ => End::Sender(None),
            }
        }
    }
}

/// The words and the ring, the ends, the message of each sender, and the messages that the receiver
/// got so far.
pub struct System<T> {
    pub senders_count: usize,
    pub sender_wait_num: u32,
    pub receiver_state: u32,
    pub ring: Filled<T>,
    pub ends: Map<int, End>,
    pub receiver: int,
    pub messages: Map<int, T>,
    pub received: Seq<T>,
}

/// The step of a `pop` on the ring, if it has started.
spec fn is_pop(on_ring: Option<RingCall>) -> bool {
    match on_ring {
        None => true,
        Some(call) => match call {
            RingCall::PopLookTail
            | RingCall::PopLookReady { .. }
            | RingCall::PopRead { .. }
            | RingCall::PopTake { .. } => true,
            RingCall::Done(outcome) => outcome is Popped || outcome is Empty,
            _ => false,
        },
    }
}

/// The step of a `try_pop` on the ring, if it has started.
spec fn is_try_pop(on_ring: Option<RingCall>) -> bool {
    match on_ring {
        None => true,
        Some(call) => match call {
            RingCall::TryPopLookTail
            | RingCall::TryPopLookReady { .. }
            | RingCall::TryPopRead { .. }
            | RingCall::TryPopTake { .. }
            | RingCall::Done(_) => true,
            _ => false,
        },
    }
}

impl<T> System<T> {
    /// The value of a 32-bit word.
    pub open spec fn get(self, word: ChannelWord) -> u32 {
        match word {
            ChannelWord::SenderWaitNum => self.sender_wait_num,
            ChannelWord::ReceiverState => self.receiver_state,
        }
    }

    /// A new channel with one sender, a receiver, and any number of senders to come.
    pub open spec fn initial(self) -> bool {
        &&& self.senders_count == 1
        &&& self.receiver_state == RECEIVER_AWAKE
        &&& self.ring.initial()
        &&& self.received == Seq::<T>::empty()
        &&& self.ends.dom().finite()
        &&& self.ends.contains_key(self.receiver)
        &&& self.ends[self.receiver] == End::Receiver(None)
        &&& exists|first: int|
            {
                &&& #[trigger] self.ends.contains_key(first)
                &&& self.ends[first] == End::Sender(None)
                &&& forall|e: int| #[trigger]
                    self.ends.contains_key(e) && e != first && e != self.receiver ==> self.ends[e]
                        is Unborn
            }
        &&& self.ring.ring.threads.dom() == self.ends.dom()
    }

    /// How many senders there are.
    pub open spec fn senders(self) -> nat {
        interleaving::those(self.ends, |end: End| end.is_sender()).len()
    }

    /// The receiver is there: it is not gone, and has not noted that it is.
    pub open spec fn has_receiver(self) -> bool {
        match self.ends[self.receiver] {
            End::Receiver(None) => true,
            End::Receiver(Some(call)) => call != ChannelCall::Done(ChannelOutcome::Dropped),
            _ => false,
        }
    }

    /// A message is in the ring.
    pub open spec fn has_message(self) -> bool {
        self.ring.ring.tail < self.ring.ring.ready
    }

    /// End `e` has added its message and will yet see to it that the receiver is woken.
    pub open spec fn is_about_to_wake(self, e: int) -> bool {
        &&& self.ends.contains_key(e)
        &&& match self.ends[e] {
            End::Sender(Some(ChannelCall::SendPush))
            | End::Sender(Some(ChannelCall::TrySendPush)) => self.ring.ring.threads[e] == Some(
                RingCall::Done(RingOutcome::Pushed),
            ),
            End::Sender(Some(ChannelCall::SendLook)) | End::Sender(Some(ChannelCall::SendMark)) => {
                true
            },
            _ => false,
        }
    }

    /// The receiver sleeps, and nobody has noted that it is woken.
    pub open spec fn receiver_sleeps(self) -> bool {
        &&& self.ends[self.receiver] == End::Receiver(Some(ChannelCall::RecvSleep))
        &&& self.receiver_state == RECEIVER_SLEEPS
    }

    /// The receiver has found no message since it noted that it sleeps, and nobody has noted that
    /// it is woken.
    spec fn receiver_is_about_to_sleep(self) -> bool {
        &&& self.ends[self.receiver] == End::Receiver(Some(ChannelCall::RecvPopAgain))
        &&& self.ring.ring.threads[self.receiver] == Some(RingCall::Done(RingOutcome::Empty))
        &&& self.receiver_state == RECEIVER_SLEEPS
    }

    /// A receiver that sleeps, or is about to, beside a message has somebody who will wake it.
    spec fn is_watched(self) -> bool {
        self.has_message() && (self.receiver_sleeps() || self.receiver_is_about_to_sleep())
            ==> exists|e: int| #[trigger] self.is_about_to_wake(e)
    }

    /// Nothing but the words and the ends changes.
    pub open spec fn keeps_ring(self, next: System<T>) -> bool {
        &&& next.ring == self.ring
        &&& next.received == self.received
        &&& next.messages == self.messages
        &&& next.receiver == self.receiver
    }

    /// No word changes.
    pub open spec fn keeps_words(self, next: System<T>) -> bool {
        &&& next.senders_count == self.senders_count
        &&& next.sender_wait_num == self.sender_wait_num
        &&& next.receiver_state == self.receiver_state
    }

    /// End `e` starts a call.
    pub open spec fn starts(self, next: System<T>, e: int, call: ChannelCall) -> bool {
        &&& self.keeps_words(next)
        &&& next.ring == self.ring
        &&& next.received == self.received
        &&& next.receiver == self.receiver
        &&& next.messages == self.messages.insert(e, next.messages[e])
        &&& next.ends == self.ends.insert(e, self.ends[e].at(call))
    }

    /// What the call of end `e` does to a 32-bit word, and the reply.
    pub open spec fn acts_on_word(
        self,
        next: System<T>,
        action: Action<ChannelWord>,
        reply: Reply<u32>,
    ) -> bool {
        &&& next.senders_count == self.senders_count
        &&& match action {
            Action::Word(word, op) => {
                &&& op.possible(self.get(word), next.get(word), reply)
                &&& match word {
                    ChannelWord::SenderWaitNum => next.receiver_state == self.receiver_state,
                    ChannelWord::ReceiverState => next.sender_wait_num == self.sender_wait_num,
                }
            },
            _ => self.keeps_words(next) && reply == Reply::<u32>::Done,
        }
    }

    /// What the call of end `e` does to the number of senders, and the reply.
    pub open spec fn acts_on_senders(
        self,
        next: System<T>,
        op: Op<usize>,
        reply: Reply<usize>,
    ) -> bool {
        &&& op.possible(self.senders_count, next.senders_count, reply)
        &&& next.sender_wait_num == self.sender_wait_num
        &&& next.receiver_state == self.receiver_state
    }

    /// The call of end `e` is at `call` then, and if it was a `clone` there is another sender.
    pub open spec fn comes_to(self, next: System<T>, e: int, call: ChannelCall) -> bool {
        if call == ChannelCall::Done(ChannelOutcome::Cloned) {
            exists|u: int|
                {
                    &&& self.ends.contains_key(u) && self.ends[u] is Unborn
                    &&& next.ends == #[trigger] self.ends.insert(e, self.ends[e].at(call)).insert(
                        u,
                        End::Sender(None),
                    )
                }
        } else {
            next.ends == self.ends.insert(e, self.ends[e].at(call))
        }
    }

    /// The call on the ring that an action of the channel starts with.
    pub open spec fn ring_call(action: ChannelAction) -> RingCall {
        match action {
            ChannelAction::Push => RingCall::PushLookTail { once: false },
            ChannelAction::TryPush => RingCall::PushLookTail { once: true },
            ChannelAction::Pop => RingCall::PopLookTail,
            _ => RingCall::TryPopLookTail,
        }
    }

    /// What a call on the ring answers that came to this end.
    pub open spec fn ring_reply(action: ChannelAction, outcome: RingOutcome) -> ChannelReply {
        match action {
            ChannelAction::Push | ChannelAction::TryPush => ChannelReply::Pushed(
                outcome is Pushed,
            ),
            _ => ChannelReply::Popped(outcome is Popped),
        }
    }

    /// The call of end `e` takes a step on the ring.
    pub open spec fn acts_on_ring(
        self,
        next: System<T>,
        e: int,
        call: ChannelCall,
        action: ChannelAction,
    ) -> bool {
        &&& self.keeps_words(next)
        &&& self.ring.step(next.ring, e)
        &&& next.messages == self.messages
        &&& next.receiver == self.receiver
        &&& match self.ring.ring.threads[e] {
            None => {
                &&& next.ring.ring.threads[e] == Some(Self::ring_call(action))
                &&& next.ring.brought[e] == self.messages[e]
                &&& next.ends == self.ends
                &&& next.received == self.received
            },
            Some(RingCall::Done(outcome)) => {
                &&& !(outcome is Overflow)
                &&& next.ends == self.ends.insert(
                    e,
                    self.ends[e].at(call.spec_advance(Self::ring_reply(action, outcome))),
                )
                &&& next.received == if outcome is Popped {
                    self.received.push(self.ring.read[e])
                } else {
                    self.received
                }
            },
            Some(_) => next.ends == self.ends && next.received == self.received,
        }
    }

    /// One step of the call of end `e`.
    pub open spec fn call_steps(self, next: System<T>, e: int, call: ChannelCall) -> bool {
        match call.spec_action() {
            Some(ChannelAction::Word(action)) => exists|reply: Reply<u32>|
                {
                    &&& #[trigger] self.acts_on_word(next, action, reply)
                    &&& self.keeps_ring(next)
                    &&& self.comes_to(next, e, call.spec_advance(ChannelReply::Word(reply)))
                },
            Some(ChannelAction::Senders(op)) => {
                &&& call is SenderClone ==> self.senders_count <= MAX_SENDER_COUNT
                &&& exists|reply: Reply<usize>|
                    {
                        &&& #[trigger] self.acts_on_senders(next, op, reply)
                        &&& self.keeps_ring(next)
                        &&& self.comes_to(next, e, call.spec_advance(ChannelReply::Senders(reply)))
                    }
            },
            Some(action) => self.acts_on_ring(next, e, call, action),
            None => {
                &&& self.keeps_words(next)
                &&& self.keeps_ring(next)
                &&& next.ends == self.ends.insert(e, self.ends[e].after(call))
            },
        }
    }

    /// One step of end `e`.
    pub open spec fn step(self, next: System<T>, e: int) -> bool {
        &&& self.ends.contains_key(e)
        &&& match self.ends[e] {
            End::Sender(None) => {
                ||| self.starts(next, e, ChannelCall::SendCheck)
                ||| self.starts(next, e, ChannelCall::TrySendCheck)
                ||| self.starts(next, e, ChannelCall::SenderClone)
                ||| self.starts(next, e, ChannelCall::SenderDrop)
            },
            End::Receiver(None) => {
                ||| self.starts(next, e, ChannelCall::RecvCheck)
                ||| self.starts(next, e, ChannelCall::TryRecvPop)
                ||| self.starts(next, e, ChannelCall::ReceiverDrop)
            },
            End::Sender(Some(call)) | End::Receiver(Some(call)) => self.call_steps(next, e, call),
            End::Unborn | End::Gone => false,
        }
    }

    /// What end `e` may be in the middle of.
    spec fn in_order(self, e: int) -> bool {
        let on_ring = self.ring.ring.threads[e];
        match self.ends[e] {
            End::Sender(Some(call)) => {
                &&& e != self.receiver
                &&& match call {
                    ChannelCall::SendPush | ChannelCall::TrySendPush => match on_ring {
                        None => true,
                        Some(ring_call) => match ring_call {
                            RingCall::PushLookTail { .. }
                            | RingCall::PushLookHead { .. }
                            | RingCall::PushTake { .. }
                            | RingCall::PushWrite { .. }
                            | RingCall::PushPublish { .. } => true,
                            RingCall::Done(outcome) => !(outcome is Popped),
                            _ => false,
                        },
                    },
                    ChannelCall::Done(outcome) => {
                        &&& on_ring is None
                        &&& outcome is Disconnected ==> !self.has_receiver()
                    },
                    ChannelCall::SendCheck
                    | ChannelCall::SendLook
                    | ChannelCall::SendMark
                    | ChannelCall::SendWake
                    | ChannelCall::SendCount
                    | ChannelCall::SendSleep { .. }
                    | ChannelCall::TrySendCheck
                    | ChannelCall::SenderClone
                    | ChannelCall::SenderDrop => on_ring is None,
                    _ => false,
                }
            },
            End::Receiver(Some(call)) => {
                &&& e == self.receiver
                &&& match call {
                    ChannelCall::RecvDrain | ChannelCall::TryRecvDrain => {
                        &&& self.senders_count == 0
                        &&& is_pop(on_ring)
                        &&& on_ring == Some(RingCall::Done(RingOutcome::Empty))
                            ==> !self.has_message()
                    },
                    ChannelCall::RecvPop | ChannelCall::RecvPopAgain => is_pop(on_ring),
                    ChannelCall::TryRecvPop => is_try_pop(on_ring),
                    ChannelCall::Done(outcome) => {
                        &&& on_ring is None
                        &&& outcome is Disconnected ==> self.senders_count == 0
                            && !self.has_message()
                    },
                    ChannelCall::RecvCheck
                    | ChannelCall::RecvCount
                    | ChannelCall::RecvWake
                    | ChannelCall::RecvMark
                    | ChannelCall::RecvSleep
                    | ChannelCall::TryRecvCheck
                    | ChannelCall::ReceiverDrop => on_ring is None,
                    _ => false,
                }
            },
            End::Receiver(None) => e == self.receiver && on_ring is None,
            End::Sender(None) | End::Unborn => e != self.receiver && on_ring is None,
            End::Gone => on_ring is None,
        }
    }

    /// What every step keeps.
    spec fn inv(self) -> bool {
        &&& self.ring.inv()
        &&& self.ends.dom().finite()
        &&& self.ends.contains_key(self.receiver)
        &&& forall|e: int| #[trigger]
            self.ends.contains_key(e) ==> self.in_order(e)
        &&& self.ring.ring.threads.dom() == self.ends.dom()
        &&& self.senders_count == self.senders()
        &&& self.senders_count <= MAX_SENDER_COUNT + 1
        &&& self.receiver_state == RECEIVER_GONE <==> !self.has_receiver()
        &&& if self.ring.ring.threads[self.receiver] == Some(RingCall::Done(RingOutcome::Popped)) {
            self.ring.taken == self.received.push(self.ring.read[self.receiver])
        } else {
            self.ring.taken == self.received
        }
    }
}

/// A run of the system: `states[k + 1]` comes from `states[k]` by a step of end `who[k]`.
pub open spec fn run<T>(states: Seq<System<T>>, who: Seq<int>) -> bool {
    &&& states.len() == who.len() + 1
    &&& states[0].initial()
    &&& forall|k: int| 0 <= k < who.len() ==> states[k].step(states[k + 1], #[trigger] who[k])
}

proof fn initial_inv<T>(s: System<T>)
    requires
        s.initial(),
    ensures
        s.inv(),
{
    ring_buffer::new_ring_has_values(s.ring);
    let first = choose|first: int|
        {
            &&& #[trigger] s.ends.contains_key(first)
            &&& s.ends[first] == End::Sender(None)
            &&& forall|e: int| #[trigger]
                s.ends.contains_key(e) && e != first && e != s.receiver ==> s.ends[e] is Unborn
        };
    assert(interleaving::those(s.ends, |end: End| end.is_sender()) =~= set![first]);
}

/// How the number of senders changes when end `e` moves.
proof fn senders_after_move<T>(s: System<T>, next: System<T>, e: int, to: End)
    requires
        s.ends.dom().finite(),
        s.ends.contains_key(e),
        next.ends == s.ends.insert(e, to),
    ensures
        next.ends.dom() == s.ends.dom(),
        next.senders() == s.senders() + interleaving::one_if(to.is_sender())
            - interleaving::one_if(s.ends[e].is_sender()),
{
    interleaving::those_after_move(s.ends, e, to, |end: End| end.is_sender());
}

proof fn step_keeps_inv<T>(s: System<T>, next: System<T>, e: int)
    requires
        s.inv(),
        s.step(next, e),
    ensures
        next.inv(),
{
    assert(s.in_order(e));
    assert(s.in_order(s.receiver));
    let call = match s.ends[e] {
        End::Sender(Some(call)) | End::Receiver(Some(call)) => call,
        _ => ChannelCall::SendCheck,
    };
    let in_call = s.ends[e] matches End::Sender(Some(_)) || s.ends[e] matches End::Receiver(Some(_));
    if s.ends[e].is_sender() {
        interleaving::those_some(s.ends, e, |end: End| end.is_sender());
    }
    if next.ring != s.ring {
        ring_buffer::step_keeps_values(s.ring, next.ring, e);
    }
    if in_call && call is SenderClone {
        let born = choose|u: int|
            {
                &&& s.ends.contains_key(u) && s.ends[u] is Unborn
                &&& next.ends == #[trigger] s.ends.insert(
                    e,
                    s.ends[e].at(ChannelCall::Done(ChannelOutcome::Cloned)),
                ).insert(u, End::Sender(None))
            };
        let to = s.ends[e].at(ChannelCall::Done(ChannelOutcome::Cloned));
        let middle = System { ends: s.ends.insert(e, to), ..next };
        senders_after_move(s, middle, e, to);
        senders_after_move(middle, next, born, End::Sender(None));
    } else {
        let to = next.ends[e];
        if next.ends == s.ends {
            assert(next.ends =~= s.ends.insert(e, to));
        }
        assert(next.ends == s.ends.insert(e, to));
        senders_after_move(s, next, e, to);
    }
    assert(next.ring.ring.threads.dom() =~= next.ends.dom());
    if e == s.receiver && (s.ring.ring.threads[e] matches Some(RingCall::PopLookReady { .. }))
        && next.ring.ring.threads[e] == Some(RingCall::Done(RingOutcome::Empty)) {
        ring_buffer::empty_pop_means_empty(s.ring, next.ring, e);
    }
    assert forall|f: int| #[trigger] next.ends.contains_key(f) implies next.in_order(f) by {
        assert(s.in_order(f));
    }
}

proof fn run_keeps_inv<T>(states: Seq<System<T>>, who: Seq<int>, k: int)
    requires
        run(states, who),
        0 <= k < states.len(),
    ensures
        states[k].inv(),
    decreases k,
{
    if k > 0 {
        run_keeps_inv(states, who, k - 1);
        assert(states[k - 1].step(states[k - 1 + 1], who[k - 1]));
        step_keeps_inv(states[k - 1], states[k], who[k - 1]);
    } else {
        initial_inv(states[0]);
    }
}

/// Messages arrive in order, each once: what the receiver got is the first of the messages that
/// senders brought, in the order in which they took their numbers.
pub proof fn law_messages_arrive_in_order<T>(states: Seq<System<T>>, who: Seq<int>, k: int)
    requires
        run(states, who),
        0 <= k < states.len(),
    ensures
        states[k].received == states[k].ring.added.take(states[k].received.len() as int),
        states[k].received.len() <= states[k].ring.added.len(),
{
    run_keeps_inv(states, who, k);
    let s = states[k];
    ring_buffer::values_are_in_order(s.ring);
    if s.received.len() < s.ring.taken.len() {
        assert(s.received =~= s.ring.taken.drop_last());
    }
    assert(s.received =~= s.ring.added.take(s.received.len() as int));
}

/// The senders are counted.
pub proof fn law_senders_are_counted<T>(states: Seq<System<T>>, who: Seq<int>, k: int)
    requires
        run(states, who),
        0 <= k < states.len(),
    ensures
        states[k].senders_count == states[k].senders(),
{
    run_keeps_inv(states, who, k);
}

/// A receiver that is told that there are no senders is told the truth, and none comes back.
pub proof fn law_no_senders_means_none<T>(
    states: Seq<System<T>>,
    who: Seq<int>,
    k: int,
    e: int,
)
    requires
        run(states, who),
        0 <= k < states.len(),
        states[k].ends.contains_key(e),
        states[k].ends[e] == End::Receiver(
            Some(ChannelCall::Done(ChannelOutcome::Disconnected)),
        ),
    ensures
        states[k].senders() == 0,
        forall|f: int| #[trigger]
            states[k].ends.contains_key(f) ==> !states[k].ends[f].is_sender(),
{
    run_keeps_inv(states, who, k);
    let s = states[k];
    assert(s.in_order(e));
    assert forall|f: int| #[trigger] s.ends.contains_key(f) implies !s.ends[f].is_sender() by {
        if s.ends[f].is_sender() {
            interleaving::those_some(s.ends, f, |end: End| end.is_sender());
        }
    }
}

/// Messages outlive their senders: a receiver that is told that there are no senders has received
/// every message that was added.
pub proof fn law_disconnected_means_nothing_is_left<T>(
    states: Seq<System<T>>,
    who: Seq<int>,
    k: int,
)
    requires
        run(states, who),
        0 <= k < states.len(),
        states[k].ends[states[k].receiver] == End::Receiver(
            Some(ChannelCall::Done(ChannelOutcome::Disconnected)),
        ),
    ensures
        states[k].received == states[k].ring.added,
{
    run_keeps_inv(states, who, k);
    let s = states[k];
    assert(s.in_order(s.receiver));
    assert forall|t: int, ticket: usize| !#[trigger] s.ring.ring.adds(t, ticket) by {
        if s.ring.ring.adds(t, ticket) {
            assert(s.ends.dom().contains(t));
            assert(s.in_order(t));
            interleaving::those_some(s.ends, t, |end: End| end.is_sender());
        }
    }
    ring_buffer::all_are_ready(s.ring);
    ring_buffer::values_are_in_order(s.ring);
    assert(s.received =~= s.ring.added);
}

/// A sender whose message is refused because the receiver is gone is told the truth.
pub proof fn law_refusal_means_no_receiver<T>(
    states: Seq<System<T>>,
    who: Seq<int>,
    k: int,
    e: int,
)
    requires
        run(states, who),
        0 <= k < states.len(),
        states[k].ends.contains_key(e),
        states[k].ends[e] == End::Sender(Some(ChannelCall::Done(ChannelOutcome::Disconnected))),
    ensures
        !states[k].has_receiver(),
{
    run_keeps_inv(states, who, k);
    assert(states[k].in_order(e));
}

proof fn step_keeps_watch<T>(s: System<T>, next: System<T>, e: int)
    requires
        s.inv(),
        s.is_watched(),
        s.step(next, e),
    ensures
        next.is_watched(),
{
    assert(s.in_order(e));
    assert(s.in_order(s.receiver));
    if next.has_message() && (next.receiver_sleeps() || next.receiver_is_about_to_sleep()) {
        if e == s.receiver && s.ring.ring.threads[e] matches Some(RingCall::PopLookReady { .. }) {
            ring_buffer::empty_pop_means_empty(s.ring, next.ring, e);
        }
        if next.ring.ring.ready != s.ring.ring.ready {
            assert(next.is_about_to_wake(e));
        } else {
            assert(s.has_message());
            let f = choose|f: int| #[trigger] s.is_about_to_wake(f);
            assert(s.in_order(f));
            assert(next.is_about_to_wake(f));
        }
    }
}

proof fn run_keeps_watch<T>(states: Seq<System<T>>, who: Seq<int>, k: int)
    requires
        run(states, who),
        0 <= k < states.len(),
    ensures
        states[k].is_watched(),
    decreases k,
{
    if k > 0 {
        run_keeps_watch(states, who, k - 1);
        run_keeps_inv(states, who, k - 1);
        assert(states[k - 1].step(states[k - 1 + 1], who[k - 1]));
        step_keeps_watch(states[k - 1], states[k], who[k - 1]);
    }
}

/// A message wakes the receiver: whenever the receiver sleeps and there is a message, a sender that
/// has added one will yet note that the receiver is woken, and wake it.
pub proof fn law_message_wakes_the_receiver<T>(
    states: Seq<System<T>>,
    who: Seq<int>,
    k: int,
) -> (e: int)
    requires
        run(states, who),
        0 <= k < states.len(),
        states[k].receiver_sleeps(),
        states[k].has_message(),
    ensures
        states[k].is_about_to_wake(e),
{
    run_keeps_watch(states, who, k);
    choose|e: int| #[trigger] states[k].is_about_to_wake(e)
}

} // verus!
