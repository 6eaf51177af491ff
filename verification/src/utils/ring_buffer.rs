//! A bounded queue in a ring of slots.
//!
//! `head` counts the values that were ever added and `tail` those that were ever taken out, so the
//! values in the ring are those from `tail` to `head`, and value number `i` is in slot `i % N`. A
//! thread takes the number of a value before it puts the value into the slot; `ready` counts the
//! values that are in their slots, and only those are taken out. The protocol of the counters and
//! the slots is [`RingCall`]. It runs on ordinary counters, one call at a time, as [`RingBuffer`]
//! does; [`RawRing`] performs the actions on the counters where they are atomics.

use crate::word::{Op, Order, Reply};
use std::sync::atomic::AtomicUsize;
use vstd::arithmetic::power2;
use vstd::prelude::*;

verus! {

/// The words of the ring.
#[derive(Clone, Copy, Debug, PartialEq, Eq)]
pub enum RingWord {
    Head,
    Ready,
    Tail,
}

/// An action of a call.
#[derive(Debug, PartialEq, Eq)]
pub enum RingAction {
    /// An atomic operation on a counter.
    Word(RingWord, Op<usize>),
    /// Put the value of the call into a slot.
    Write(usize),
    /// Get the value of the call from a slot.
    Read(usize),
}

impl RingAction {
    /// The orderings of the operation are legal.
    pub open spec fn legal(self) -> bool {
        self matches RingAction::Word(_, op) ==> op.legal()
    }

    /// The replies that fit an action, whatever the counters hold.
    pub open spec fn fits(self, reply: Reply<usize>) -> bool {
        match self {
            RingAction::Word(_, op) => op.fits(reply),
            _ => reply is Done,
        }
    }
}

/// How a call ends.
#[derive(Clone, Copy, Debug, PartialEq, Eq)]
pub enum RingOutcome {
    Pushed,
    /// The value was not added.
    Full,
    Popped,
    /// No value was taken out.
    Empty,
    /// A counter overflows.
    Overflow,
}

/// Where a call stands: the step that it takes next, or how it ended.
#[derive(Clone, Copy, Debug, PartialEq, Eq)]
pub enum RingCall {
    /// `push` and, if `once`, `try_push`: look at the tail.
    PushLookTail { once: bool },
    /// `push`, `try_push`: look at the head.
    PushLookHead { once: bool, tail: usize },
    /// `push`, `try_push`: take the next number.
    PushTake { once: bool, head: usize },
    /// `push`, `try_push`: put the value into its slot.
    PushWrite { ticket: usize },
    /// `push`, `try_push`: let the value be taken out, once those before it are.
    PushPublish { ticket: usize },
    /// `pop`: look at the tail.
    PopLookTail,
    /// `pop`: look at the number of values that are in their slots.
    PopLookReady { tail: usize },
    /// `pop`: get the value from its slot.
    PopRead { tail: usize },
    /// `pop`: free the slot.
    PopTake { tail: usize },
    /// `try_pop`: look at the tail.
    TryPopLookTail,
    /// `try_pop`: look at the number of values that are in their slots.
    TryPopLookReady { tail: usize },
    /// `try_pop`: get the value from its slot.
    TryPopRead { tail: usize },
    /// `try_pop`: free the slot.
    TryPopTake { tail: usize },
    /// The call is over.
    Done(RingOutcome),
}

impl RingCall {
    /// The action of the step on a ring with this many slots; `None` when the call is over.
    pub open spec fn spec_action(self, capacity: usize) -> Option<RingAction> {
        match self {
            RingCall::PushLookTail { .. } => Some(
                RingAction::Word(RingWord::Tail, Op::Load(Order::Acquire)),
            ),
            RingCall::PushLookHead { .. } => Some(
                RingAction::Word(RingWord::Head, Op::Load(Order::Relaxed)),
            ),
            RingCall::PushTake { head, .. } => Some(
                RingAction::Word(
                    RingWord::Head,
                    Op::CompareExchangeWeak {
                        current: head,
                        new: head.wrapping_add(1),
                        order: Order::Acquire,
                    },
                ),
            ),
            RingCall::PushWrite { ticket } => Some(RingAction::Write(ticket % capacity)),
            RingCall::PushPublish { ticket } => Some(
                RingAction::Word(
                    RingWord::Ready,
                    Op::CompareExchangeWeak {
                        current: ticket,
                        new: ticket.wrapping_add(1),
                        order: Order::Release,
                    },
                ),
            ),
            RingCall::PopLookTail | RingCall::TryPopLookTail => Some(
                RingAction::Word(RingWord::Tail, Op::Load(Order::Relaxed)),
            ),
            RingCall::PopLookReady { .. } | RingCall::TryPopLookReady { .. } => Some(
                RingAction::Word(RingWord::Ready, Op::Load(Order::Acquire)),
            ),
            RingCall::PopRead { tail } => Some(
                RingAction::Read(tail & (capacity.wrapping_sub(1))),
            ),
            RingCall::PopTake { tail } => Some(
                RingAction::Word(
                    RingWord::Tail,
                    Op::CompareExchangeWeak {
                        current: tail,
                        new: tail.wrapping_add(1),
                        order: Order::AcqRel,
                    },
                ),
            ),
            RingCall::TryPopRead { tail } => Some(RingAction::Read(tail % capacity)),
            RingCall::TryPopTake { tail } => Some(
                RingAction::Word(
                    RingWord::Tail,
                    Op::CompareExchangeWeak {
                        current: tail,
                        new: tail.wrapping_add(1),
                        order: Order::Release,
                    },
                ),
            ),
            RingCall::Done(_) => None,
        }
    }

    /// Where the call stands after the reply to its action.
    pub open spec fn spec_advance(self, reply: Reply<usize>, capacity: usize) -> RingCall {
        match (self, reply) {
            (RingCall::PushLookTail { once }, Reply::Value(tail)) => {
                RingCall::PushLookHead { once, tail }
            },
            (RingCall::PushLookHead { once, tail }, Reply::Value(head)) => {
                if head < tail {
                    RingCall::Done(RingOutcome::Overflow)
                } else if head - tail >= capacity {
                    RingCall::Done(RingOutcome::Full)
                } else if head == usize::MAX {
                    RingCall::Done(RingOutcome::Overflow)
                } else {
                    RingCall::PushTake { once, head }
                }
            },
            (RingCall::PushTake { head, .. }, Reply::Swapped) => {
                RingCall::PushWrite { ticket: head }
            },
            (RingCall::PushTake { once, .. }, _) => {
                if once {
                    RingCall::Done(RingOutcome::Full)
                } else {
                    RingCall::PushLookTail { once }
                }
            },
            (RingCall::PushWrite { ticket }, _) => RingCall::PushPublish { ticket },
            (RingCall::PushPublish { .. }, Reply::Swapped) => RingCall::Done(RingOutcome::Pushed),
            (RingCall::PopLookTail, Reply::Value(tail)) => RingCall::PopLookReady { tail },
            (RingCall::PopLookReady { tail }, Reply::Value(ready)) => {
                if ready == tail {
                    RingCall::Done(RingOutcome::Empty)
                } else {
                    RingCall::PopRead { tail }
                }
            },
            (RingCall::PopRead { tail }, _) => RingCall::PopTake { tail },
            (RingCall::PopTake { .. }, Reply::Swapped) => RingCall::Done(RingOutcome::Popped),
            (RingCall::PopTake { .. }, Reply::Changed(tail)) => RingCall::PopLookReady { tail },
            (RingCall::TryPopLookTail, Reply::Value(tail)) => RingCall::TryPopLookReady { tail },
            (RingCall::TryPopLookReady { tail }, Reply::Value(ready)) => {
                if ready == tail {
                    RingCall::Done(RingOutcome::Empty)
                } else {
                    RingCall::TryPopRead { tail }
                }
            },
            (RingCall::TryPopRead { tail }, _) => {
                if tail == usize::MAX {
                    RingCall::Done(RingOutcome::Overflow)
                } else {
                    RingCall::TryPopTake { tail }
                }
            },
            (RingCall::TryPopTake { .. }, Reply::Swapped) => RingCall::Done(RingOutcome::Popped),
            (RingCall::TryPopTake { .. }, _) => RingCall::Done(RingOutcome::Empty),
            (_, _) => self,
        }
    }

    /// The action of the step on a ring with this many slots.
    pub fn action(&self, capacity: usize) -> (action: Option<RingAction>)
        requires
            self is PushWrite || self is TryPopRead ==> capacity != 0,
        ensures
            action == self.spec_action(capacity),
            action matches Some(act) ==> act.legal(),
    {
        match *self {
            RingCall::PushLookTail { .. } => Some(
                RingAction::Word(RingWord::Tail, Op::Load(Order::Acquire)),
            ),
            RingCall::PushLookHead { .. } => Some(
                RingAction::Word(RingWord::Head, Op::Load(Order::Relaxed)),
            ),
            RingCall::PushTake { head, .. } => Some(
                RingAction::Word(
                    RingWord::Head,
                    Op::CompareExchangeWeak {
                        current: head,
                        new: head.wrapping_add(1),
                        order: Order::Acquire,
                    },
                ),
            ),
            RingCall::PushWrite { ticket } => Some(RingAction::Write(ticket % capacity)),
            RingCall::PushPublish { ticket } => Some(
                RingAction::Word(
                    RingWord::Ready,
                    Op::CompareExchangeWeak {
                        current: ticket,
                        new: ticket.wrapping_add(1),
                        order: Order::Release,
                    },
                ),
            ),
            RingCall::PopLookTail | RingCall::TryPopLookTail => Some(
                RingAction::Word(RingWord::Tail, Op::Load(Order::Relaxed)),
            ),
            RingCall::PopLookReady { .. } | RingCall::TryPopLookReady { .. } => Some(
                RingAction::Word(RingWord::Ready, Op::Load(Order::Acquire)),
            ),
            RingCall::PopRead { tail } => Some(
                RingAction::Read(tail & (capacity.wrapping_sub(1))),
            ),
            RingCall::PopTake { tail } => Some(
                RingAction::Word(
                    RingWord::Tail,
                    Op::CompareExchangeWeak {
                        current: tail,
                        new: tail.wrapping_add(1),
                        order: Order::AcqRel,
                    },
                ),
            ),
            RingCall::TryPopRead { tail } => Some(RingAction::Read(tail % capacity)),
            RingCall::TryPopTake { tail } => Some(
                RingAction::Word(
                    RingWord::Tail,
                    Op::CompareExchangeWeak {
                        current: tail,
                        new: tail.wrapping_add(1),
                        order: Order::Release,
                    },
                ),
            ),
            RingCall::Done(_) => None,
        }
    }

    /// Takes the reply to the action and moves on.
    pub fn advance(self, reply: Reply<usize>, capacity: usize) -> (next: RingCall)
        ensures
            next == self.spec_advance(reply, capacity),
    {
        match (self, reply) {
            (RingCall::PushLookTail { once }, Reply::Value(tail)) => {
                RingCall::PushLookHead { once, tail }
            },
            (RingCall::PushLookHead { once, tail }, Reply::Value(head)) => {
                if head < tail {
                    RingCall::Done(RingOutcome::Overflow)
                } else if head - tail >= capacity {
                    RingCall::Done(RingOutcome::Full)
                } else if head == usize::MAX {
                    RingCall::Done(RingOutcome::Overflow)
                } else {
                    RingCall::PushTake { once, head }
                }
            },
            (RingCall::PushTake { head, .. }, Reply::Swapped) => {
                RingCall::PushWrite { ticket: head }
            },
            (RingCall::PushTake { once, .. }, _) => {
                if once {
                    RingCall::Done(RingOutcome::Full)
                } else {
                    RingCall::PushLookTail { once }
                }
            },
            (RingCall::PushWrite { ticket }, _) => RingCall::PushPublish { ticket },
            (RingCall::PushPublish { .. }, Reply::Swapped) => RingCall::Done(RingOutcome::Pushed),
            (RingCall::PopLookTail, Reply::Value(tail)) => RingCall::PopLookReady { tail },
            (RingCall::PopLookReady { tail }, Reply::Value(ready)) => {
                if ready == tail {
                    RingCall::Done(RingOutcome::Empty)
                } else {
                    RingCall::PopRead { tail }
                }
            },
            (RingCall::PopRead { tail }, _) => RingCall::PopTake { tail },
            (RingCall::PopTake { .. }, Reply::Swapped) => RingCall::Done(RingOutcome::Popped),
            (RingCall::PopTake { .. }, Reply::Changed(tail)) => RingCall::PopLookReady { tail },
            (RingCall::TryPopLookTail, Reply::Value(tail)) => RingCall::TryPopLookReady { tail },
            (RingCall::TryPopLookReady { tail }, Reply::Value(ready)) => {
                if ready == tail {
                    RingCall::Done(RingOutcome::Empty)
                } else {
                    RingCall::TryPopRead { tail }
                }
            },
            (RingCall::TryPopRead { tail }, _) => {
                if tail == usize::MAX {
                    RingCall::Done(RingOutcome::Overflow)
                } else {
                    RingCall::TryPopTake { tail }
                }
            },
            (RingCall::TryPopTake { .. }, Reply::Swapped) => RingCall::Done(RingOutcome::Popped),
            (RingCall::TryPopTake { .. }, _) => RingCall::Done(RingOutcome::Empty),
            (_, _) => self,
        }
    }
}

/// The counters of a ring that many threads use at the same time. The slots are kept elsewhere.
pub struct RawRing {
    head: AtomicUsize,
    ready: AtomicUsize,
    tail: AtomicUsize,
}

impl RawRing {
    /// The atomics are what the standard library's `new` returns for these values. What they hold
    /// later is up to the threads.
    pub closed spec fn made_with(self, head: usize, ready: usize, tail: usize) -> bool {
        &&& call_ensures(AtomicUsize::new, (head,), self.head)
        &&& call_ensures(AtomicUsize::new, (ready,), self.ready)
        &&& call_ensures(AtomicUsize::new, (tail,), self.tail)
    }

    /// An empty ring.
    pub fn new() -> (raw: RawRing)
        ensures
            raw.made_with(0, 0, 0),
    {
        RawRing {
            head: AtomicUsize::new(0),
            ready: AtomicUsize::new(0),
            tail: AtomicUsize::new(0),
        }
    }

    /// The action was performed on the counter that it names, with this reply.
    pub closed spec fn performed(self, action: RingAction, reply: Reply<usize>) -> bool {
        match action {
            RingAction::Word(RingWord::Head, op) => op.performed(self.head, reply),
            RingAction::Word(RingWord::Ready, op) => op.performed(self.ready, reply),
            RingAction::Word(RingWord::Tail, op) => op.performed(self.tail, reply),
            RingAction::Write(_) | RingAction::Read(_) => false,
        }
    }

    /// Performs an action on a counter. `None` says that the action is about a slot.
    pub fn perform(&self, action: RingAction) -> (reply: Option<Reply<usize>>)
        requires
            action.legal(),
        ensures
            reply is None <==> !(action is Word),
            reply matches Some(rep) ==> self.performed(action, rep) && action.fits(rep),
    {
        match action {
            RingAction::Word(RingWord::Head, op) => Some(op.apply_atomic(&self.head)),
            RingAction::Word(RingWord::Ready, op) => Some(op.apply_atomic(&self.ready)),
            RingAction::Word(RingWord::Tail, op) => Some(op.apply_atomic(&self.tail)),
            RingAction::Write(_) | RingAction::Read(_) => None,
        }
    }
}

/// A ring of `N` slots.
pub struct RingBuffer<T, const N: usize> {
    buffer: Vec<Option<T>>,
    head: usize,
    ready: usize,
    tail: usize,
}

/// What a ring is, to those who use it.
pub struct RingView<T> {
    /// The values in the ring, oldest first.
    pub items: Seq<T>,
    /// How many values were ever added.
    pub head: usize,
    /// How many values were ever taken out.
    pub tail: usize,
}

impl<T, const N: usize> View for RingBuffer<T, N> {
    type V = RingView<T>;

    closed spec fn view(&self) -> RingView<T> {
        RingView {
            items: Seq::new(
                (self.head - self.tail) as nat,
                |i: int| self.buffer@[(self.tail + i) % (N as int)]->Some_0,
            ),
            head: self.head,
            tail: self.tail,
        }
    }
}

/// Two numbers less than `n` apart are in different slots.
pub proof fn slots_differ(i: int, j: int, n: int)
    requires
        0 <= i < j < i + n,
    ensures
        i % n != j % n,
{
    if i % n == j % n {
        vstd::arithmetic::div_mod::lemma_fundamental_div_mod(i, n);
        vstd::arithmetic::div_mod::lemma_fundamental_div_mod(j, n);
        let d = j / n - i / n;
        assert(j - i == n * d) by (nonlinear_arith)
            requires
                i == n * (i / n) + i % n,
                j == n * (j / n) + j % n,
                i % n == j % n,
                d == j / n - i / n,
        ;
        assert(false) by (nonlinear_arith)
            requires
                j - i == n * d,
                0 < j - i < n,
        ;
    }
}

/// For a power of two, masking with one less is the remainder.
pub proof fn mask_is_remainder(x: usize, n: usize)
    requires
        power2::is_pow2(n as int),
    ensures
        x & (n.wrapping_sub(1)) == x % n,
{
    power2::is_pow2_equiv(n as int);
    let k = choose|k: nat| vstd::arithmetic::power::pow(2, k) == n;
    power2::lemma_pow2(k);
    assert(power2::pow2(k) == n);
    if k >= usize::BITS {
        assert(usize::BITS == 32 || usize::BITS == 64);
        if k > usize::BITS {
            power2::lemma_pow2_strictly_increases(usize::BITS as nat, k);
        }
        power2::lemma2_to64();
        power2::lemma2_to64_rest();
        assert(false);
    }
    vstd::bits::lemma_usize_low_bits_mask_is_mod(x, k);
    power2::lemma_pow2_pos(k);
    assert(vstd::bits::low_bits_mask(k) == n - 1);
}

impl<T, const N: usize> RingBuffer<T, N> {
    /// Value number `i` is in its slot.
    spec fn has(self, i: int) -> bool {
        self.buffer@[i % (N as int)] is Some
    }

    /// There are `N` slots, which is a power of two, no more values than slots, and every value is
    /// in its slot.
    pub closed spec fn wf(self) -> bool {
        &&& power2::is_pow2(N as int)
        &&& self.buffer@.len() == N
        &&& self.tail <= self.head
        &&& self.ready == self.head
        &&& self.head - self.tail <= N
        &&& forall|i: int| self.tail <= i < self.head ==> #[trigger] self.has(i)
    }

    /// What the counters and the values have to do with each other.
    pub proof fn wf_counts(self)
        requires
            self.wf(),
        ensures
            self@.items.len() == self@.head - self@.tail,
            self@.items.len() <= N,
            power2::is_pow2(N as int),
    {
    }

    /// An empty ring. The number of slots is a power of two.
    pub fn new() -> (ring: RingBuffer<T, N>)
        requires
            power2::is_pow2(N as int),
        ensures
            ring.wf(),
            ring@ == (RingView { items: Seq::<T>::empty(), head: 0, tail: 0 }),
    {
        let mut buffer: Vec<Option<T>> = Vec::new();
        let mut i: usize = 0;
        while i < N
            invariant
                i <= N,
                buffer@.len() == i,
            decreases N - i,
        {
            buffer.push(None);
            i = i + 1;
        }
        let ring = RingBuffer { buffer, head: 0, ready: 0, tail: 0 };
        assert(ring@.items =~= Seq::<T>::empty());
        ring
    }

    /// Performs an action. A write takes the value out of the hand, a read puts it there.
    fn perform(&mut self, action: RingAction, hand: &mut Option<T>) -> (reply: Reply<usize>)
        requires
            action matches RingAction::Write(slot) ==> slot < old(self).buffer@.len(),
            action matches RingAction::Read(slot) ==> slot < old(self).buffer@.len(),
        ensures
            match action {
                RingAction::Word(word, op) => {
                    let value = match word {
                        RingWord::Head => old(self).head,
                        RingWord::Ready => old(self).ready,
                        RingWord::Tail => old(self).tail,
                    };
                    &&& *final(self) == match word {
                        RingWord::Head => (RingBuffer { head: op.effect(value).0, ..*old(self) }),
                        RingWord::Ready => (RingBuffer { ready: op.effect(value).0, ..*old(self) }),
                        RingWord::Tail => (RingBuffer { tail: op.effect(value).0, ..*old(self) }),
                    }
                    &&& reply == op.effect(value).1
                    &&& *final(hand) == *old(hand)
                },
                RingAction::Write(slot) => {
                    &&& final(self).buffer@ == old(self).buffer@.update(slot as int, *old(hand))
                    &&& final(self).head == old(self).head
                    &&& final(self).ready == old(self).ready
                    &&& final(self).tail == old(self).tail
                    &&& *final(hand) is None
                    &&& reply is Done
                },
                RingAction::Read(slot) => {
                    &&& final(self).buffer@ == old(self).buffer@.update(slot as int, None)
                    &&& final(self).head == old(self).head
                    &&& final(self).ready == old(self).ready
                    &&& final(self).tail == old(self).tail
                    &&& *final(hand) == old(self).buffer@[slot as int]
                    &&& reply is Done
                },
            },
    {
        match action {
            RingAction::Word(RingWord::Head, op) => op.apply(&mut self.head),
            RingAction::Word(RingWord::Ready, op) => op.apply(&mut self.ready),
            RingAction::Word(RingWord::Tail, op) => op.apply(&mut self.tail),
            RingAction::Write(slot) => {
                self.buffer[slot] = hand.take();
                Reply::Done
            },
            RingAction::Read(slot) => {
                *hand = self.buffer[slot].take();
                Reply::Done
            },
        }
    }

    /// What the steps of a push have come to.
    spec fn pushing(
        before: Self,
        after: Self,
        value: T,
        once: bool,
        hand: Option<T>,
        call: RingCall,
    ) -> bool {
        match call {
            RingCall::PushLookTail { once: o } => {
                o == once && after == before && hand == Some(value)
            },
            RingCall::PushLookHead { once: o, tail } => {
                o == once && after == before && hand == Some(value) && tail == before.tail
            },
            RingCall::PushTake { once: o, head } => {
                &&& o == once && after == before && hand == Some(value)
                &&& head == before.head && head < usize::MAX && head - before.tail < N
            },
            RingCall::PushWrite { ticket } => {
                &&& after == (RingBuffer { head: (before.head + 1) as usize, ..before })
                &&& hand == Some(value)
                &&& ticket == before.head && ticket < usize::MAX && ticket - before.tail < N
            },
            RingCall::PushPublish { ticket } => {
                &&& after.head == before.head + 1 && after.ready == before.ready
                &&& after.tail == before.tail
                &&& after.buffer@ == before.buffer@.update(
                    before.head as int % N as int,
                    Some(value),
                )
                &&& ticket == before.head && ticket < usize::MAX && ticket - before.tail < N
            },
            RingCall::Done(RingOutcome::Pushed) => {
                &&& after.wf()
                &&& after@ == (RingView {
                    items: before@.items.push(value),
                    head: (before.head + 1) as usize,
                    ..before@
                })
                &&& before.head - before.tail < N
            },
            RingCall::Done(outcome) => {
                &&& outcome is Full && after == before && hand == Some(value)
                &&& before.head - before.tail >= N
            },
            _ => false,
        }
    }

    /// Adds a value at the end.
    fn push_with(&mut self, value: T, once: bool) -> (res: Result<(), T>)
        requires
            old(self).wf(),
            old(self)@.items.len() < N ==> old(self)@.head < usize::MAX,
        ensures
            final(self).wf(),
            pushes(old(self)@, final(self)@, N as nat, value, res),
    {
        let mut hand = Some(value);
        let mut call = RingCall::PushLookTail { once };
        loop
            invariant
                old(self).wf(),
                old(self)@.items.len() < N ==> old(self)@.head < usize::MAX,
                Self::pushing(*old(self), *self, value, once, hand, call),
            decreases
                    match call {
                        RingCall::PushLookTail { .. } => 5int,
                        RingCall::PushLookHead { .. } => 4,
                        RingCall::PushTake { .. } => 3,
                        RingCall::PushWrite { .. } => 2,
                        RingCall::PushPublish { .. } => 1,
                        _ => 0,
                    },
        {
            proof {
                if call is PushWrite {
                    vstd::arithmetic::div_mod::lemma_mod_bound(call->PushWrite_ticket as int, N as int);
                }
            }
            match call.action(N) {
                None => {
                    if let RingCall::Done(RingOutcome::Pushed) = call {
                        return Ok(());
                    }
                    return match hand {
                        Some(value) => Err(value),
                        None => vstd::pervasive::unreached(),
                    };
                },
                Some(action) => {
                    let ghost before = call;
                    let reply = self.perform(action, &mut hand);
                    call = call.advance(reply, N);
                    proof {
                        if before is PushPublish {
                            Self::pushed(*old(self), *self, value);
                        }
                    }
                },
            }
        }
    }

    /// A value written into the slot after the last one is the last one then.
    proof fn pushed(before: Self, after: Self, value: T)
        requires
            before.wf(),
            before.head < usize::MAX,
            before.head - before.tail < N,
            after.head == before.head + 1,
            after.ready == after.head,
            after.tail == before.tail,
            after.buffer@ == before.buffer@.update(before.head as int % N as int, Some(value)),
        ensures
            after.wf(),
            after@.items == before@.items.push(value),
    {
        vstd::arithmetic::div_mod::lemma_mod_bound(before.head as int, N as int);
        assert forall|i: int| before.tail <= i < before.head implies after.buffer@[i % (N as int)]
            == #[trigger] before.buffer@[i % (N as int)] by {
            slots_differ(i, before.head as int, N as int);
            vstd::arithmetic::div_mod::lemma_mod_bound(i, N as int);
        }
        assert forall|i: int| after.tail <= i < after.head implies #[trigger] after.has(i) by {
            if i < before.head {
                assert(before.has(i));
                assert(after.buffer@[i % (N as int)] == before.buffer@[i % (N as int)]);
            }
        }
        assert forall|i: int| 0 <= i < before.head - before.tail implies #[trigger] after@.items[i]
            == before@.items[i] by {
            let j = before.tail + i;
            assert(after.buffer@[j % (N as int)] == before.buffer@[j % (N as int)]);
        }
        assert(after@.items =~= before@.items.push(value));
    }

    /// Adds a value at the end, or hands it back if the ring is full.
    pub fn push(&mut self, value: T) -> (res: Result<(), T>)
        requires
            old(self).wf(),
            old(self)@.items.len() < N ==> old(self)@.head < usize::MAX,
        ensures
            final(self).wf(),
            pushes(old(self)@, final(self)@, N as nat, value, res),
    {
        self.push_with(value, false)
    }

    /// Adds a value at the end, or hands it back if the ring is full. It does not try again if
    /// another thread was faster.
    pub fn try_push(&mut self, value: T) -> (res: Result<(), T>)
        requires
            old(self).wf(),
            old(self)@.items.len() < N ==> old(self)@.head < usize::MAX,
        ensures
            final(self).wf(),
            pushes(old(self)@, final(self)@, N as nat, value, res),
    {
        self.push_with(value, true)
    }

    /// What the steps of a pop have come to.
    spec fn popping(before: Self, after: Self, hand: Option<T>, call: RingCall) -> bool {
        match call {
            RingCall::PopLookTail | RingCall::TryPopLookTail => after == before,
            RingCall::PopLookReady { tail } | RingCall::TryPopLookReady { tail } => {
                after == before && tail == before.tail
            },
            RingCall::PopRead { tail } | RingCall::TryPopRead { tail } => {
                after == before && tail == before.tail && before.tail < before.head
            },
            RingCall::PopTake { tail } | RingCall::TryPopTake { tail } => {
                &&& before.tail < before.head && tail == before.tail
                &&& after.head == before.head && after.ready == before.ready
                &&& after.tail == before.tail
                &&& after.buffer@ == before.buffer@.update(before.tail as int % N as int, None)
                &&& hand == before.buffer@[before.tail as int % N as int]
            },
            RingCall::Done(RingOutcome::Popped) => {
                &&& before.tail < before.head
                &&& after.wf()
                &&& after@ == (RingView {
                    items: before@.items.drop_first(),
                    tail: (before.tail + 1) as usize,
                    ..before@
                })
                &&& hand == Some(before@.items[0])
            },
            RingCall::Done(outcome) => {
                outcome is Empty && after == before && before.tail == before.head
            },
            _ => false,
        }
    }

    /// Takes the first value out.
    fn pop_with(&mut self, start: RingCall) -> (res: Option<T>)
        requires
            old(self).wf(),
            start is PopLookTail || start is TryPopLookTail,
        ensures
            final(self).wf(),
            pops(old(self)@, final(self)@, res),
    {
        let mut hand: Option<T> = None;
        let mut call = start;
        loop
            invariant
                old(self).wf(),
                Self::popping(*old(self), *self, hand, call),
            decreases
                    match call {
                        RingCall::PopLookTail | RingCall::TryPopLookTail => 4int,
                        RingCall::PopLookReady { .. } | RingCall::TryPopLookReady { .. } => 3,
                        RingCall::PopRead { .. } | RingCall::TryPopRead { .. } => 2,
                        RingCall::PopTake { .. } | RingCall::TryPopTake { .. } => 1,
                        _ => 0,
                    },
        {
            proof {
                if call is PopRead {
                    mask_is_remainder(self.tail, N);
                }
                if self.tail < self.head {
                    vstd::arithmetic::div_mod::lemma_mod_bound(self.tail as int, N as int);
                }
            }
            match call.action(N) {
                None => {
                    if let RingCall::Done(RingOutcome::Popped) = call {
                        return hand;
                    }
                    return None;
                },
                Some(action) => {
                    let ghost before = call;
                    let reply = self.perform(action, &mut hand);
                    call = call.advance(reply, N);
                    proof {
                        if before is PopTake || before is TryPopTake {
                            Self::popped(*old(self), *self);
                        }
                    }
                },
            }
        }
    }

    /// Once the slot of the first value is free, the values after it are left.
    proof fn popped(before: Self, after: Self)
        requires
            before.wf(),
            before.tail < before.head,
            after.head == before.head,
            after.ready == before.ready,
            after.tail == before.tail + 1,
            after.buffer@ == before.buffer@.update(before.tail as int % N as int, None),
        ensures
            after.wf(),
            after@.items == before@.items.drop_first(),
            before.buffer@[before.tail as int % N as int] == Some(before@.items[0]),
    {
        vstd::arithmetic::div_mod::lemma_mod_bound(before.tail as int, N as int);
        assert(before.has(before.tail as int));
        assert forall|i: int| before.tail < i < before.head implies after.buffer@[i % (N as int)]
            == #[trigger] before.buffer@[i % (N as int)] by {
            slots_differ(before.tail as int, i, N as int);
            vstd::arithmetic::div_mod::lemma_mod_bound(i, N as int);
        }
        assert forall|i: int| after.tail <= i < after.head implies #[trigger] after.has(i) by {
            assert(before.has(i));
            assert(after.buffer@[i % (N as int)] == before.buffer@[i % (N as int)]);
        }
        assert forall|i: int| 0 <= i < after.head - after.tail implies #[trigger] after@.items[i]
            == before@.items[i + 1] by {
            let j = before.tail + 1 + i;
            assert(after.buffer@[j % (N as int)] == before.buffer@[j % (N as int)]);
        }
        assert(after@.items =~= before@.items.drop_first());
    }

    /// Takes the first value out, if there is one.
    pub fn pop(&mut self) -> (res: Option<T>)
        requires
            old(self).wf(),
        ensures
            final(self).wf(),
            pops(old(self)@, final(self)@, res),
    {
        self.pop_with(RingCall::PopLookTail)
    }

    /// Takes the first value out, if there is one. It does not try again if another thread was
    /// faster.
    pub fn try_pop(&mut self) -> (res: Option<T>)
        requires
            old(self).wf(),
        ensures
            final(self).wf(),
            pops(old(self)@, final(self)@, res),
    {
        self.pop_with(RingCall::TryPopLookTail)
    }
}

/// What taking a value out comes to: the first one is taken out, if there is one.
pub open spec fn pops<T>(before: RingView<T>, after: RingView<T>, res: Option<T>) -> bool {
    if before.items.len() > 0 {
        &&& res == Some(before.items[0])
        &&& after == (RingView {
            items: before.items.drop_first(),
            tail: (before.tail + 1) as usize,
            ..before
        })
    } else {
        &&& res is None
        &&& after == before
    }
}

/// What adding a value comes to: it is added at the end, or handed back if the ring is full.
pub open spec fn pushes<T>(
    before: RingView<T>,
    after: RingView<T>,
    capacity: nat,
    value: T,
    res: Result<(), T>,
) -> bool {
    if before.items.len() < capacity {
        &&& res == Ok::<(), T>(())
        &&& after == (RingView {
            items: before.items.push(value),
            head: (before.head + 1) as usize,
            ..before
        })
    } else {
        &&& res == Err::<(), T>(value)
        &&& after == before
    }
}

/// A call on a ring, with its result.
pub enum RingEvent<T> {
    Push { value: T, outcome: Result<(), T> },
    Pop { taken: Option<T> },
}

impl<T> RingEvent<T> {
    /// The call took the ring from one state to the other.
    pub open spec fn leads(self, before: RingView<T>, after: RingView<T>, capacity: nat) -> bool {
        match self {
            RingEvent::Push { value, outcome } => pushes(before, after, capacity, value, outcome),
            RingEvent::Pop { taken } => pops(before, after, taken),
        }
    }
}

/// The values that were added, in order.
pub open spec fn added<T>(events: Seq<RingEvent<T>>) -> Seq<T>
    decreases events.len(),
{
    if events.len() == 0 {
        Seq::empty()
    } else {
        match events.last() {
            RingEvent::Push { value, outcome: Ok(_) } => added(events.drop_last()).push(value),
            _ => added(events.drop_last()),
        }
    }
}

/// The values that were taken out, in order.
pub open spec fn taken<T>(events: Seq<RingEvent<T>>) -> Seq<T>
    decreases events.len(),
{
    if events.len() == 0 {
        Seq::empty()
    } else {
        match events.last() {
            RingEvent::Pop { taken: Some(value) } => taken(events.drop_last()).push(value),
            _ => taken(events.drop_last()),
        }
    }
}

/// The calls took the ring from each state to the next.
pub open spec fn history<T>(
    states: Seq<RingView<T>>,
    events: Seq<RingEvent<T>>,
    capacity: nat,
) -> bool {
    &&& states.len() == events.len() + 1
    &&& forall|k: int|
        0 <= k < events.len() ==> (#[trigger] events[k]).leads(states[k], states[k + 1], capacity)
}

/// First in, first out: whatever calls are made, the values taken out, followed by those that are
/// left, are the values there were at the start, followed by those that were added, in order.
/// Nothing is lost, made up or moved ahead.
pub proof fn law_first_in_first_out<T>(
    states: Seq<RingView<T>>,
    events: Seq<RingEvent<T>>,
    capacity: nat,
)
    requires
        history(states, events, capacity),
    ensures
        taken(events) + states.last().items == states[0].items + added(events),
    decreases events.len(),
{
    if events.len() == 0 {
        assert(taken(events) + states.last().items =~= states[0].items + added(events));
    } else {
        let n = events.len() - 1;
        let earlier = events.drop_last();
        assert forall|k: int| 0 <= k < earlier.len() implies (#[trigger] earlier[k]).leads(
            states.drop_last()[k],
            states.drop_last()[k + 1],
            capacity,
        ) by {
            assert(events[k].leads(states[k], states[k + 1], capacity));
        }
        law_first_in_first_out(states.drop_last(), earlier, capacity);
        let before = states[n];
        let after = states[n + 1];
        assert(events[n].leads(before, after, capacity));
        assert(taken(earlier) + before.items == states[0].items + added(earlier));
        match events.last() {
            RingEvent::Push { value, outcome: Ok(_) } => {
                assert(taken(events) + after.items =~= (taken(earlier) + before.items).push(value));
                assert(states[0].items + added(events) =~= (states[0].items + added(earlier)).push(
                    value,
                ));
            },
            RingEvent::Pop { taken: Some(value) } => {
                assert(taken(events) + after.items =~= taken(earlier) + before.items);
            },
            _ => {},
        }
    }
}

/// A ring never holds more values than it has slots, whatever calls are made.
pub proof fn law_capacity_is_kept<T>(
    states: Seq<RingView<T>>,
    events: Seq<RingEvent<T>>,
    capacity: nat,
    k: int,
)
    requires
        history(states, events, capacity),
        states[0].items.len() <= capacity,
        0 <= k < states.len(),
    ensures
        states[k].items.len() <= capacity,
    decreases k,
{
    if k > 0 {
        law_capacity_is_kept(states, events, capacity, k - 1);
        assert(events[k - 1].leads(states[k - 1], states[k - 1 + 1], capacity));
    }
}

impl RawRing {
    /// The atomic that holds the number of values that were ever added.
    pub closed spec fn head_atomic(self) -> AtomicUsize {
        self.head
    }

    /// The atomic that holds the number of values that can be read.
    pub closed spec fn ready_atomic(self) -> AtomicUsize {
        self.ready
    }

    /// The atomic that holds the number of values that were ever taken out.
    pub closed spec fn tail_atomic(self) -> AtomicUsize {
        self.tail
    }
}

/// Each counter is held by its own atomic, which starts at zero; an action on a counter is
/// performed on that atomic and on no other.
pub proof fn law_every_counter_has_its_atomic(
    made: RawRing,
    raw: RawRing,
    action: RingAction,
    reply: Reply<usize>,
)
    requires
        call_ensures(RawRing::new, (), made),
        call_requires(RawRing::perform, (&raw, action)),
        call_ensures(RawRing::perform, (&raw, action), Some(reply)),
    ensures
        call_ensures(AtomicUsize::new, (0usize,), made.head_atomic()),
        call_ensures(AtomicUsize::new, (0usize,), made.ready_atomic()),
        call_ensures(AtomicUsize::new, (0usize,), made.tail_atomic()),
        action matches RingAction::Word(RingWord::Head, op) ==> op.performed(
            raw.head_atomic(),
            reply,
        ),
        action matches RingAction::Word(RingWord::Ready, op) ==> op.performed(
            raw.ready_atomic(),
            reply,
        ),
        action matches RingAction::Word(RingWord::Tail, op) ==> op.performed(
            raw.tail_atomic(),
            reply,
        ),
{
}

} // verus!
