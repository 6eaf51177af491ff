//! Threads that share a [`ring_buffer`](crate::utils::ring_buffer).
//!
//! A thread that adds a value takes its number before it puts the value into the slot. Other
//! threads come to read the slot only once the value counts as ready, so none comes too early.

use crate::utils::ring_buffer;
use crate::utils::ring_buffer::{RingAction, RingCall, RingOutcome, RingWord};
use crate::word::Reply;
use vstd::arithmetic::power2;
use vstd::prelude::*;

verus! {

/// The counters, the number of slots, and the call of each thread, if it is in one.
pub struct System {
    pub head: usize,
    pub ready: usize,
    pub tail: usize,
    pub capacity: usize,
    pub threads: Map<int, Option<RingCall>>,
}

impl System {
    /// The value of a counter.
    pub open spec fn get(self, word: RingWord) -> usize {
        match word {
            RingWord::Head => self.head,
            RingWord::Ready => self.ready,
            RingWord::Tail => self.tail,
        }
    }

    /// The ring is new, and no thread is in a call.
    pub open spec fn initial(self) -> bool {
        &&& self.head == 0
        &&& self.ready == 0
        &&& self.tail == 0
        &&& forall|t: int| #[trigger] self.threads.contains_key(t) ==> self.threads[t] is None
    }

    /// No counter changes.
    pub open spec fn keeps_counters(self, next: System) -> bool {
        &&& next.head == self.head
        &&& next.ready == self.ready
        &&& next.tail == self.tail
    }

    /// What an action may do to the counters among threads that interleave.
    pub open spec fn acts(self, next: System, action: RingAction, reply: Reply<usize>) -> bool {
        match action {
            RingAction::Word(word, op) => {
                &&& op.possible(self.get(word), next.get(word), reply)
                &&& match word {
                    RingWord::Head => next.ready == self.ready && next.tail == self.tail,
                    RingWord::Ready => next.head == self.head && next.tail == self.tail,
                    RingWord::Tail => next.head == self.head && next.ready == self.ready,
                }
            },
            _ => self.keeps_counters(next) && reply == Reply::<usize>::Done,
        }
    }

    /// One step of thread `t`.
    pub open spec fn step(self, next: System, t: int) -> bool {
        &&& self.threads.contains_key(t)
        &&& next.capacity == self.capacity
        &&& match self.threads[t] {
            None => {
                &&& self.keeps_counters(next)
                &&& {
                    ||| next.threads == self.threads.insert(
                        t,
                        Some(RingCall::PushLookTail { once: false }),
                    )
                    ||| next.threads == self.threads.insert(
                        t,
                        Some(RingCall::PushLookTail { once: true }),
                    )
                    ||| next.threads == self.threads.insert(t, Some(RingCall::PopLookTail))
                    ||| next.threads == self.threads.insert(t, Some(RingCall::TryPopLookTail))
                }
            },
            Some(call) => match call.spec_action(self.capacity) {
                Some(action) => exists|reply: Reply<usize>|
                    {
                        &&& #[trigger] self.acts(next, action, reply)
                        &&& next.threads == self.threads.insert(
                            t,
                            Some(call.spec_advance(reply, self.capacity)),
                        )
                    },
                None => {
                    &&& self.keeps_counters(next)
                    &&& next.threads == self.threads.insert(t, None)
                },
            },
        }
    }

    /// Thread `t` has taken a number and not yet put its value into the slot.
    pub open spec fn writes(self, t: int, ticket: usize) -> bool {
        self.threads.contains_key(t) && self.threads[t] == Some(RingCall::PushWrite { ticket })
    }

    /// Thread `t` has taken a number and its value is not ready yet.
    pub open spec fn adds(self, t: int, ticket: usize) -> bool {
        ||| self.writes(t, ticket)
        ||| self.threads.contains_key(t) && self.threads[t] == Some(
            RingCall::PushPublish { ticket },
        )
    }

    /// What a thread may have seen.
    spec fn in_order(self, t: int) -> bool {
        match self.threads[t] {
            None => true,
            Some(call) => match call {
                RingCall::PushLookHead { tail, .. } => tail <= self.tail,
                RingCall::PushTake { head, .. } => head < self.tail + self.capacity && head
                    < usize::MAX,
                RingCall::PushWrite { ticket } | RingCall::PushPublish { ticket } => self.ready
                    <= ticket < self.head,
                RingCall::PopLookReady { tail } | RingCall::TryPopLookReady { tail } => tail
                    <= self.tail,
                RingCall::PopRead { tail }
                | RingCall::PopTake { tail }
                | RingCall::TryPopRead { tail }
                | RingCall::TryPopTake { tail } => tail < self.ready && tail <= self.tail,
                RingCall::Done(outcome) => outcome is Overflow ==> self.head == usize::MAX,
                _ => true,
            },
        }
    }

    /// A thread has taken this number and its value is not ready yet.
    spec fn is_being_added(self, ticket: usize) -> bool {
        exists|t: int| #[trigger] self.adds(t, ticket)
    }

    /// What every step keeps.
    pub closed spec fn inv(self) -> bool {
        &&& self.tail <= self.ready <= self.head
        &&& self.head - self.tail <= self.capacity
        &&& forall|t: int| #[trigger] self.threads.contains_key(t) ==> self.in_order(t)
        &&& forall|t: int, u: int, ticket: usize| #[trigger]
            self.adds(t, ticket) && #[trigger] self.adds(u, ticket) ==> t == u
        &&& forall|ticket: usize|
            self.ready <= ticket < self.head ==> #[trigger] self.is_being_added(ticket)
    }
}

/// A run of the system: `states[k + 1]` comes from `states[k]` by a step of thread `who[k]`.
pub open spec fn run(states: Seq<System>, who: Seq<int>) -> bool {
    &&& states.len() == who.len() + 1
    &&& states[0].initial()
    &&& forall|k: int| 0 <= k < who.len() ==> states[k].step(states[k + 1], #[trigger] who[k])
}

proof fn step_keeps_inv(s: System, next: System, t: int)
    requires
        s.inv(),
        s.step(next, t),
    ensures
        next.inv(),
        s.tail <= next.tail,
        s.ready <= next.ready,
        s.head <= next.head,
{
    assert(s.in_order(t));
    assert(s.tail <= next.tail && s.ready <= next.ready && s.head <= next.head);
    if let Some(RingCall::PushPublish { ticket }) = s.threads[t] {
        assert(s.adds(t, ticket));
    }
    assert forall|u: int| #[trigger] next.threads.contains_key(u) implies next.in_order(u) by {
        assert(s.in_order(u));
        if u != t && next.ready != s.ready {
            assert(s.adds(t, s.ready));
            assert(!s.adds(u, s.ready));
        }
    }
    assert forall|u: int, v: int, ticket: usize| #[trigger]
        next.adds(u, ticket) && #[trigger] next.adds(v, ticket) implies u == v by {
        assert(u != t ==> s.adds(u, ticket) && s.in_order(u));
        assert(v != t ==> s.adds(v, ticket) && s.in_order(v));
        assert(u == t && ticket != s.head ==> s.adds(u, ticket));
        assert(v == t && ticket != s.head ==> s.adds(v, ticket));
    }
    assert forall|ticket: usize| next.ready <= ticket < next.head implies #[trigger]
        next.is_being_added(ticket) by {
        if ticket == s.head {
            assert(next.adds(t, ticket));
        } else {
            assert(s.is_being_added(ticket));
            let u = choose|u: int| #[trigger] s.adds(u, ticket);
            assert(next.adds(u, ticket));
        }
    }
}

proof fn run_keeps_inv(states: Seq<System>, who: Seq<int>, k: int)
    requires
        run(states, who),
        0 <= k < states.len(),
    ensures
        states[k].inv(),
    decreases k,
{
    if k > 0 {
        run_keeps_inv(states, who, k - 1);
        assert(states[k - 1].step(states[k - 1 + 1], who[k - 1]));
        step_keeps_inv(states[k - 1], states[k], who[k - 1]);
    }
}

/// However many threads add and take out, there are never more numbers taken than slots, never more
/// values ready than numbers taken, and never more values taken out than were ready.
pub proof fn law_counters_stay_in_bounds(states: Seq<System>, who: Seq<int>, k: int)
    requires
        run(states, who),
        0 <= k < states.len(),
    ensures
        states[k].tail <= states[k].ready <= states[k].head,
        states[k].head - states[k].tail <= states[k].capacity,
{
    run_keeps_inv(states, who, k);
}

/// No two threads that add have the same number.
pub proof fn law_numbers_are_taken_once(
    states: Seq<System>,
    who: Seq<int>,
    k: int,
    t: int,
    u: int,
    ticket: usize,
)
    requires
        run(states, who),
        0 <= k < states.len(),
        states[k].adds(t, ticket),
        states[k].adds(u, ticket),
    ensures
        t == u,
{
    run_keeps_inv(states, who, k);
}

/// A counter overflows only after as many values as it can count.
pub proof fn law_overflow_is_far_away(states: Seq<System>, who: Seq<int>, k: int, t: int)
    requires
        run(states, who),
        0 <= k < states.len(),
        states[k].threads.contains_key(t),
        states[k].threads[t] == Some(RingCall::Done(RingOutcome::Overflow)),
    ensures
        states[k].head == usize::MAX,
{
    run_keeps_inv(states, who, k);
    assert(states[k].in_order(t));
}

/// A ring with its values.
pub struct Filled<T> {
    pub ring: System,
    /// What is in the slots.
    pub slots: Map<int, T>,
    /// The value that each thread adds.
    pub brought: Map<int, T>,
    /// The value that each thread has read.
    pub read: Map<int, T>,
    /// The values whose numbers were taken, in order.
    pub added: Seq<T>,
    /// The values that were taken out, in order.
    pub taken: Seq<T>,
}

impl<T> Filled<T> {
    /// The ring is new, and nothing was added or taken out.
    pub open spec fn initial(self) -> bool {
        &&& self.ring.initial()
        &&& power2::is_pow2(self.ring.capacity as int)
        &&& self.added == Seq::<T>::empty()
        &&& self.taken == Seq::<T>::empty()
    }

    /// The action that thread `t` performs next.
    pub open spec fn action(self, t: int) -> Option<RingAction> {
        match self.ring.threads[t] {
            Some(call) => call.spec_action(self.ring.capacity),
            None => None,
        }
    }

    /// One step of thread `t`, with what it does to the values. A thread that starts a call brings
    /// any value.
    pub open spec fn step(self, next: Filled<T>, t: int) -> bool {
        &&& self.ring.step(next.ring, t)
        &&& if self.ring.threads[t] is None {
            next.brought == self.brought.insert(t, next.brought[t])
        } else {
            next.brought == self.brought
        }
        &&& next.slots == match self.action(t) {
            Some(RingAction::Write(slot)) => self.slots.insert(slot as int, self.brought[t]),
            _ => self.slots,
        }
        &&& next.read == match self.action(t) {
            Some(RingAction::Read(slot)) => self.read.insert(t, self.slots[slot as int]),
            _ => self.read,
        }
        &&& next.added == if next.ring.head != self.ring.head {
            self.added.push(self.brought[t])
        } else {
            self.added
        }
        &&& next.taken == if next.ring.tail != self.ring.tail {
            self.taken.push(self.read[t])
        } else {
            self.taken
        }
    }

    /// A thread has taken this number and not yet put its value into the slot.
    pub open spec fn pending(self, ticket: usize) -> bool {
        exists|t: int| #[trigger] self.ring.writes(t, ticket)
    }

    /// Value number `i` is in its slot, or about to be put there.
    spec fn stored(self, i: usize) -> bool {
        self.pending(i) || self.slots[i as int % self.ring.capacity as int] == self.added[i as int]
    }

    /// What thread `t` knows of the value that is first in line.
    spec fn knows(self, t: int) -> bool {
        match self.ring.threads[t] {
            Some(RingCall::PopTake { tail }) | Some(RingCall::TryPopTake { tail }) => tail
                == self.ring.tail ==> !self.pending(tail) && self.read[t]
                == self.added[tail as int],
            _ => true,
        }
    }

    /// What every step keeps.
    pub closed spec fn inv(self) -> bool {
        &&& self.ring.inv()
        &&& power2::is_pow2(self.ring.capacity as int)
        &&& self.added.len() == self.ring.head
        &&& self.taken == self.added.take(self.ring.tail as int)
        &&& forall|t: int, ticket: usize| #[trigger]
            self.ring.writes(t, ticket) ==> self.ring.tail <= ticket && self.brought[t]
                == self.added[ticket as int]
        &&& forall|i: usize| self.ring.tail <= i < self.ring.head ==> #[trigger] self.stored(i)
        &&& forall|t: int| #[trigger] self.ring.threads.contains_key(t) ==> self.knows(t)
    }
}

/// A thread whose `pop` finds no value does so when none is ready.
pub proof fn empty_pop_means_empty<T>(s: Filled<T>, next: Filled<T>, t: int)
    requires
        s.inv(),
        s.step(next, t),
        s.ring.threads[t] matches Some(RingCall::PopLookReady { .. }),
        next.ring.threads[t] == Some(RingCall::Done(RingOutcome::Empty)),
    ensures
        next.ring.ready == next.ring.tail,
{
    assert(s.ring.in_order(t));
}

/// Every value is ready once no thread adds one.
pub proof fn all_are_ready<T>(s: Filled<T>)
    requires
        s.inv(),
        forall|t: int, ticket: usize| !#[trigger] s.ring.adds(t, ticket),
    ensures
        s.ring.ready == s.ring.head,
{
    if s.ring.ready < s.ring.head {
        assert(s.ring.is_being_added(s.ring.ready));
    }
}

/// A run of a ring with its values: `states[k + 1]` comes from `states[k]` by a step of thread
/// `who[k]`.
pub open spec fn filled_run<T>(states: Seq<Filled<T>>, who: Seq<int>) -> bool {
    &&& states.len() == who.len() + 1
    &&& states[0].initial()
    &&& forall|k: int| 0 <= k < who.len() ==> states[k].step(states[k + 1], #[trigger] who[k])
}

/// A step keeps the values in order.
pub proof fn step_keeps_values<T>(s: Filled<T>, next: Filled<T>, t: int)
    requires
        s.inv(),
        s.step(next, t),
    ensures
        next.inv(),
{
    step_keeps_inv(s.ring, next.ring, t);
    assert(s.ring.in_order(t));
    assert(s.knows(t));
    let capacity = s.ring.capacity as int;
    if let Some(RingCall::PopRead { tail }) = s.ring.threads[t] {
        ring_buffer::mask_is_remainder(tail, s.ring.capacity);
    }
    assert forall|u: int, ticket: usize| u != t implies #[trigger] next.ring.writes(u, ticket)
        == s.ring.writes(u, ticket) by {}
    if let Some(RingCall::PushWrite { ticket }) = s.ring.threads[t] {
        assert(s.ring.writes(t, ticket));
    }
    assert forall|i: usize| i != s.ring.head && #[trigger] next.pending(i) implies s.pending(i) by {
        let u = choose|u: int| next.ring.writes(u, i);
        assert(s.ring.writes(u, i));
    }
    assert forall|u: int, ticket: usize| #[trigger] next.ring.writes(u, ticket) implies
        next.ring.tail <= ticket && next.brought[u] == next.added[ticket as int] by {
        if u != t {
            assert(s.ring.writes(u, ticket));
            assert(s.ring.in_order(u));
            assert(s.pending(ticket));
        }
    }
    assert forall|i: usize| next.ring.tail <= i < next.ring.head implies #[trigger] next.stored(
        i,
    ) by {
        if i < s.ring.head {
            assert(s.stored(i));
            if s.pending(i) {
                let u = choose|u: int| s.ring.writes(u, i);
                assert(u != t ==> next.ring.writes(u, i));
                assert(u == t ==> s.ring.threads[t] == Some(RingCall::PushWrite { ticket: i }));
            } else if let Some(RingCall::PushWrite { ticket }) = s.ring.threads[t] {
                assert(s.pending(ticket));
                if i < ticket {
                    ring_buffer::slots_differ(i as int, ticket as int, capacity);
                } else {
                    ring_buffer::slots_differ(ticket as int, i as int, capacity);
                }
            }
        } else {
            assert(next.ring.writes(t, i));
        }
    }
    assert forall|u: int| #[trigger] next.ring.threads.contains_key(u) implies next.knows(u) by {
        assert(s.ring.in_order(u));
        assert(s.knows(u));
        if u == t && s.ring.tail < s.ring.ready {
            assert(s.stored(s.ring.tail));
            if s.pending(s.ring.tail) {
                let v = choose|v: int| #[trigger] s.ring.writes(v, s.ring.tail);
                assert(s.ring.in_order(v));
            }
        }
    }
    assert(next.taken =~= next.added.take(next.ring.tail as int));
}

/// A new ring has its values in order.
pub proof fn new_ring_has_values<T>(s: Filled<T>)
    requires
        s.initial(),
    ensures
        s.inv(),
{
    assert(s.taken =~= s.added.take(0));
}

/// The values that were taken out are the first of those that were added.
pub proof fn values_are_in_order<T>(s: Filled<T>)
    requires
        s.inv(),
    ensures
        s.ring.tail <= s.ring.ready <= s.ring.head,
        s.added.len() == s.ring.head,
        s.taken == s.added.take(s.ring.tail as int),
{
}

proof fn run_keeps_values<T>(states: Seq<Filled<T>>, who: Seq<int>, k: int)
    requires
        filled_run(states, who),
        0 <= k < states.len(),
    ensures
        states[k].inv(),
    decreases k,
{
    if k > 0 {
        run_keeps_values(states, who, k - 1);
        assert(states[k - 1].step(states[k - 1 + 1], who[k - 1]));
        step_keeps_values(states[k - 1], states[k], who[k - 1]);
    } else {
        new_ring_has_values(states[0]);
    }
}

/// First in, first out among threads: the values are taken out in the order in which their numbers
/// were taken, each once.
pub proof fn law_first_in_first_out<T>(states: Seq<Filled<T>>, who: Seq<int>, k: int)
    requires
        filled_run(states, who),
        0 <= k < states.len(),
    ensures
        states[k].taken == states[k].added.take(states[k].ring.tail as int),
        states[k].added.len() == states[k].ring.head,
{
    run_keeps_values(states, who, k);
    values_are_in_order(states[k]);
}

} // verus!
