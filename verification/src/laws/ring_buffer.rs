//! What a [`ring_buffer`](crate::utils::ring_buffer) is for.

use crate::utils::ring_buffer::{
    RawRing, RingAction, RingBuffer, RingCall, RingOutcome, RingWord,
};
use crate::word::{Op, Order, Reply};
use vstd::arithmetic::power2;
use vstd::prelude::*;

verus! {

/// A new ring is empty, whatever way a value is asked for.
pub proof fn law_new_ring_is_empty<T, const N: usize>(
    made: RingBuffer<T, N>,
    popped: &mut RingBuffer<T, N>,
    first: Option<T>,
    tried: &mut RingBuffer<T, N>,
    tried_first: Option<T>,
)
    requires
        power2::is_pow2(N as int),
        call_ensures(RingBuffer::<T, N>::new, (), made),
        *old(popped) == made,
        call_ensures(RingBuffer::<T, N>::pop, (popped,), first),
        *old(tried) == made,
        call_ensures(RingBuffer::<T, N>::try_pop, (tried,), tried_first),
    ensures
        made.wf(),
        made@.items.len() == 0,
        first is None,
        tried_first is None,
{
}

/// A value is added behind the others if there is a free slot. Otherwise it comes back, and nothing
/// changes. `push` and `try_push` do the same on a ring that nobody else uses.
pub proof fn law_push_adds_at_the_end<T, const N: usize>(
    value: T,
    pushed: &mut RingBuffer<T, N>,
    res: Result<(), T>,
    tried: &mut RingBuffer<T, N>,
    tried_res: Result<(), T>,
)
    requires
        old(pushed).wf(),
        old(pushed)@.items.len() < N ==> old(pushed)@.head < usize::MAX,
        *old(tried) == *old(pushed),
        call_ensures(RingBuffer::<T, N>::push, (pushed, value), res),
        call_ensures(RingBuffer::<T, N>::try_push, (tried, value), tried_res),
    ensures
        res is Ok <==> old(pushed)@.items.len() < N,
        res is Ok ==> {
            &&& final(pushed)@.items == old(pushed)@.items.push(value)
            &&& final(pushed)@.head == old(pushed)@.head + 1
            &&& final(pushed)@.tail == old(pushed)@.tail
        },
        res matches Err(back) ==> back == value && final(pushed)@ == old(pushed)@,
        final(pushed).wf(),
        tried_res == res,
        final(tried)@ == final(pushed)@,
{
}

/// The first value is taken out, if there is one; otherwise nothing changes. `pop` and `try_pop` do
/// the same on a ring that nobody else uses.
pub proof fn law_pop_takes_the_first<T, const N: usize>(
    popped: &mut RingBuffer<T, N>,
    res: Option<T>,
    tried: &mut RingBuffer<T, N>,
    tried_res: Option<T>,
)
    requires
        old(popped).wf(),
        *old(tried) == *old(popped),
        call_ensures(RingBuffer::<T, N>::pop, (popped,), res),
        call_ensures(RingBuffer::<T, N>::try_pop, (tried,), tried_res),
    ensures
        res is Some <==> old(popped)@.items.len() > 0,
        res matches Some(first) ==> {
            &&& first == old(popped)@.items[0]
            &&& final(popped)@.items == old(popped)@.items.skip(1)
            &&& final(popped)@.tail == (old(popped)@.tail + 1) as usize
            &&& final(popped)@.head == old(popped)@.head
        },
        res is None ==> final(popped)@ == old(popped)@,
        final(popped).wf(),
        tried_res == res,
        final(tried)@ == final(popped)@,
{
}

/// Of two values that are added to an empty ring, the first comes out first and the second comes
/// out second.
pub proof fn law_two_values_come_out_in_order<T, const N: usize>(
    first: T,
    second: T,
    one: &mut RingBuffer<T, N>,
    two: &mut RingBuffer<T, N>,
    three: &mut RingBuffer<T, N>,
    out: Option<T>,
    four: &mut RingBuffer<T, N>,
    out_next: Option<T>,
)
    requires
        old(one).wf(),
        old(one)@.items.len() == 0,
        N >= 2,
        old(one)@.head < usize::MAX - 1,
        call_ensures(RingBuffer::<T, N>::push, (one, first), Ok::<(), T>(())) || call_ensures(
            RingBuffer::<T, N>::try_push,
            (one, first),
            Ok::<(), T>(()),
        ),
        *old(two) == *final(one),
        call_ensures(RingBuffer::<T, N>::push, (two, second), Ok::<(), T>(())) || call_ensures(
            RingBuffer::<T, N>::try_push,
            (two, second),
            Ok::<(), T>(()),
        ),
        *old(three) == *final(two),
        call_ensures(RingBuffer::<T, N>::pop, (three,), out) || call_ensures(
            RingBuffer::<T, N>::try_pop,
            (three,),
            out,
        ),
        *old(four) == *final(three),
        call_ensures(RingBuffer::<T, N>::pop, (four,), out_next) || call_ensures(
            RingBuffer::<T, N>::try_pop,
            (four,),
            out_next,
        ),
    ensures
        out == Some(first),
        out_next == Some(second),
        final(four)@.items.len() == 0,
{
}

/// Which call a step belongs to.
pub enum RingKind {
    Push { once: bool },
    Pop,
    TryPop,
}

/// The steps of each call, and the ways in which it can end.
pub open spec fn is_of_kind(call: RingCall, kind: RingKind) -> bool {
    match kind {
        RingKind::Push { once } => {
            ||| call == (RingCall::PushLookTail { once })
            ||| call matches RingCall::PushLookHead { once: o, .. } && o == once
            ||| call matches RingCall::PushTake { once: o, .. } && o == once
            ||| call is PushWrite
            ||| call is PushPublish
            ||| call == RingCall::Done(RingOutcome::Pushed)
            ||| call == RingCall::Done(RingOutcome::Full)
            ||| call == RingCall::Done(RingOutcome::Overflow)
        },
        RingKind::Pop => call is PopLookTail || call is PopLookReady || call is PopRead
            || call is PopTake || call == RingCall::Done(RingOutcome::Popped) || call
            == RingCall::Done(RingOutcome::Empty),
        RingKind::TryPop => call is TryPopLookTail || call is TryPopLookReady || call is TryPopRead
            || call is TryPopTake || call == RingCall::Done(RingOutcome::Popped) || call
            == RingCall::Done(RingOutcome::Empty) || call == RingCall::Done(RingOutcome::Overflow),
    }
}

/// Every step leads to a step of the same call, or to one of its ends, whatever the other threads
/// do. A call that is over takes no step, and every other call does.
pub proof fn law_calls_keep_their_kind(
    call: RingCall,
    kind: RingKind,
    reply: Reply<usize>,
    capacity: usize,
    next: RingCall,
    action: Option<RingAction>,
)
    requires
        is_of_kind(call, kind),
        capacity > 0,
        call_ensures(RingCall::advance, (call, reply, capacity), next),
        call_ensures(RingCall::action, (&call, capacity), action),
    ensures
        is_of_kind(next, kind),
        action is None <==> call is Done,
{
}

/// How a value is added. The number of a value is the head that the call advances by one; the call
/// is told that the ring is full only where it saw all slots taken, or, if it tries once, where
/// another thread was faster. Then the value is written into the slot of its number, and only then
/// does it count as ready, after those before it: so nobody reads a slot that is not written.
pub proof fn law_push_writes_before_it_publishes(
    call: RingCall,
    capacity: usize,
    action: RingAction,
    value: usize,
    looked: RingCall,
    swapped: RingCall,
    found: usize,
    missed: RingCall,
    done: RingCall,
)
    requires
        capacity > 0,
        call_ensures(RingCall::action, (&call, capacity), Some(action)),
        call_ensures(RingCall::advance, (call, Reply::Value(value), capacity), looked),
        call_ensures(RingCall::advance, (call, Reply::Swapped, capacity), swapped),
        call_ensures(RingCall::advance, (call, Reply::Changed(found), capacity), missed),
        call_ensures(RingCall::advance, (call, Reply::Done, capacity), done),
    ensures
        call matches RingCall::PushLookTail { once } ==> action == RingAction::Word(
            RingWord::Tail,
            Op::Load(Order::Acquire),
        ) && looked == (RingCall::PushLookHead { once, tail: value }),
        call matches RingCall::PushLookHead { once, tail } ==> {
            &&& action == RingAction::Word(RingWord::Head, Op::Load(Order::Relaxed))
            &&& looked == RingCall::Done(RingOutcome::Full) <==> value >= tail && value - tail
                >= capacity
            &&& looked is PushTake <==> value >= tail && value - tail < capacity && value
                < usize::MAX
            &&& looked is PushTake ==> looked == (RingCall::PushTake { once, head: value })
        },
        call matches RingCall::PushTake { once, head } ==> {
            &&& action == RingAction::Word(
                RingWord::Head,
                Op::CompareExchangeWeak {
                    current: head,
                    new: head.wrapping_add(1),
                    order: Order::Acquire,
                },
            )
            &&& swapped == (RingCall::PushWrite { ticket: head })
            &&& once ==> missed == RingCall::Done(RingOutcome::Full)
            &&& !once ==> missed == (RingCall::PushLookTail { once })
        },
        call matches RingCall::PushWrite { ticket } ==> action == RingAction::Write(
            (ticket as int % capacity as int) as usize,
        ) && done == (RingCall::PushPublish { ticket }),
        call matches RingCall::PushPublish { ticket } ==> {
            &&& action == RingAction::Word(
                RingWord::Ready,
                Op::CompareExchangeWeak {
                    current: ticket,
                    new: ticket.wrapping_add(1),
                    order: Order::Release,
                },
            )
            &&& swapped == RingCall::Done(RingOutcome::Pushed)
            &&& missed == call
        },
        action is Write ==> call is PushWrite,
{
}

/// How a value is taken out. The call is told that the ring is empty only where it saw that no
/// value is ready, or, if it tries once, where another thread was faster. Otherwise it reads the
/// slot of the number at the tail, and has the value if it is the one that advances the tail by
/// one.
pub proof fn law_pop_reads_what_is_ready(
    call: RingCall,
    capacity: usize,
    action: RingAction,
    value: usize,
    looked: RingCall,
    swapped: RingCall,
    found: usize,
    missed: RingCall,
    done: RingCall,
)
    requires
        power2::is_pow2(capacity as int),
        capacity > 0,
        call_ensures(RingCall::action, (&call, capacity), Some(action)),
        call_ensures(RingCall::advance, (call, Reply::Value(value), capacity), looked),
        call_ensures(RingCall::advance, (call, Reply::Swapped, capacity), swapped),
        call_ensures(RingCall::advance, (call, Reply::Changed(found), capacity), missed),
        call_ensures(RingCall::advance, (call, Reply::Done, capacity), done),
    ensures
        call is PopLookTail ==> action == RingAction::Word(
            RingWord::Tail,
            Op::Load(Order::Relaxed),
        ) && looked == (RingCall::PopLookReady { tail: value }),
        call is TryPopLookTail ==> action == RingAction::Word(
            RingWord::Tail,
            Op::Load(Order::Relaxed),
        ) && looked == (RingCall::TryPopLookReady { tail: value }),
        call matches RingCall::PopLookReady { tail } ==> {
            &&& action == RingAction::Word(RingWord::Ready, Op::Load(Order::Acquire))
            &&& looked == RingCall::Done(RingOutcome::Empty) <==> value == tail
            &&& value != tail ==> looked == (RingCall::PopRead { tail })
        },
        call matches RingCall::TryPopLookReady { tail } ==> {
            &&& action == RingAction::Word(RingWord::Ready, Op::Load(Order::Acquire))
            &&& looked == RingCall::Done(RingOutcome::Empty) <==> value == tail
            &&& value != tail ==> looked == (RingCall::TryPopRead { tail })
        },
        call matches RingCall::PopRead { tail } ==> action == RingAction::Read(
            (tail as int % capacity as int) as usize,
        ) && done == (RingCall::PopTake { tail }),
        call matches RingCall::TryPopRead { tail } ==> action == RingAction::Read(
            (tail as int % capacity as int) as usize,
        ) && (tail < usize::MAX ==> done == (RingCall::TryPopTake { tail })),
        call matches RingCall::PopTake { tail } ==> {
            &&& action == RingAction::Word(
                RingWord::Tail,
                Op::CompareExchangeWeak {
                    current: tail,
                    new: tail.wrapping_add(1),
                    order: Order::AcqRel,
                },
            )
            &&& swapped == RingCall::Done(RingOutcome::Popped)
            &&& missed == (RingCall::PopLookReady { tail: found })
        },
        call matches RingCall::TryPopTake { tail } ==> {
            &&& action == RingAction::Word(
                RingWord::Tail,
                Op::CompareExchangeWeak {
                    current: tail,
                    new: tail.wrapping_add(1),
                    order: Order::Release,
                },
            )
            &&& swapped == RingCall::Done(RingOutcome::Popped)
            &&& missed == RingCall::Done(RingOutcome::Empty)
        },
        action is Read ==> call is PopRead || call is TryPopRead,
{
    if let RingCall::PopRead { tail } = call {
        crate::utils::ring_buffer::mask_is_remainder(tail, capacity);
    }
}

/// On the atomics, an action on a counter answers, and one on a slot does not.
pub proof fn law_counters_answer(raw: RawRing, action: RingAction, reply: Option<Reply<usize>>)
    requires
        call_requires(RawRing::perform, (&raw, action)),
        call_ensures(RawRing::perform, (&raw, action), reply),
    ensures
        reply is Some <==> action is Word,
        action matches RingAction::Word(_, op) ==> op.fits(reply->Some_0),
{
}

/// Values can be added to every ring as long as they can be counted, and taken out of every ring.
pub proof fn law_any_ring_can_be_used<T, const N: usize>(ring: &mut RingBuffer<T, N>, value: T)
    requires
        old(ring).wf(),
    ensures
        old(ring)@.items.len() >= N || old(ring)@.head < usize::MAX ==> {
            &&& call_requires(RingBuffer::<T, N>::push, (ring, value))
            &&& call_requires(RingBuffer::<T, N>::try_push, (ring, value))
        },
        call_requires(RingBuffer::<T, N>::pop, (ring,)),
        call_requires(RingBuffer::<T, N>::try_pop, (ring,)),
{
}

/// A counter that would overflow is told, and nothing else is: where the numbers make no sense, or
/// the next one cannot be counted.
pub proof fn law_overflow_is_told(
    call: RingCall,
    capacity: usize,
    value: usize,
    looked: RingCall,
    done: RingCall,
)
    requires
        capacity > 0,
        call_ensures(RingCall::advance, (call, Reply::Value(value), capacity), looked),
        call_ensures(RingCall::advance, (call, Reply::Done, capacity), done),
    ensures
        call matches RingCall::PushLookHead { tail, .. } ==> (looked == RingCall::Done(
            RingOutcome::Overflow,
        ) <==> value < tail || value == usize::MAX && value - tail < capacity),
        call matches RingCall::TryPopRead { tail } ==> (done == RingCall::Done(
            RingOutcome::Overflow,
        ) <==> tail == usize::MAX),
        call is Done ==> looked == call && done == call,
{
}

} // verus!
