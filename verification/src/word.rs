//! Shared words and the atomic operations that the primitives perform on them.
//!
//! An operation is a plain value ([`Op`]), so the protocols can say which operation comes next
//! without performing it. It can then be applied to an ordinary integer, where its effect is known
//! exactly, or to an atomic that other threads use too, where the contract says which call of the
//! standard library was made on the atomic, and that its result is the answer. What an atomic holds
//! is up to all threads and not part of any contract, so none can say that no other call was made.

use std::sync::atomic::{AtomicU32, AtomicUsize, Ordering};
use vstd::prelude::*;

verus! {

/// The memory ordering of an atomic operation.
#[derive(Clone, Copy, Debug, PartialEq, Eq)]
pub enum Order {
    Relaxed,
    Acquire,
    Release,
    AcqRel,
}

/// One atomic operation on a word of type `V`.
///
/// The ordering of a compare-exchange is the one used on success; a failed one is relaxed.
#[derive(Debug, PartialEq, Eq)]
pub enum Op<V> {
    Load(Order),
    Store(V, Order),
    Swap(V, Order),
    CompareExchange { current: V, new: V, order: Order },
    CompareExchangeWeak { current: V, new: V, order: Order },
    FetchAdd(V, Order),
    FetchSub(V, Order),
}

/// What an atomic operation answers.
#[derive(Debug, PartialEq, Eq)]
pub enum Reply<V> {
    /// The value the word had before a load, swap, addition or subtraction.
    Value(V),
    /// A compare-exchange took place.
    Swapped,
    /// A compare-exchange did not take place; the word had this value.
    Changed(V),
    /// A store, a wake-up call, or a wait that is over.
    Done,
    /// A wait that goes on: the word still has the value the thread waits on.
    Asleep,
}

/// An action on one of the 32-bit words of a primitive, named by `W`.
#[derive(Debug, PartialEq, Eq)]
pub enum Action<W> {
    /// Perform an atomic operation on a word.
    Word(W, Op<u32>),
    /// Sleep while a word has this value.
    Wait(W, u32),
    /// Wake one thread that sleeps on a word.
    WakeOne(W),
    /// Wake every thread that sleeps on a word.
    WakeAll(W),
}

impl<V> Op<V> {
    /// The orderings that an operation may have: a load does not release, a store does not acquire.
    pub open spec fn legal(self) -> bool {
        match self {
            Op::Load(order) => order is Relaxed || order is Acquire,
            Op::Store(_, order) => order is Relaxed || order is Release,
            _ => true,
        }
    }

    /// The replies that fit an operation, whatever the word holds.
    pub open spec fn fits(self, reply: Reply<V>) -> bool {
        match self {
            Op::Load(_) | Op::Swap(_, _) | Op::FetchAdd(_, _) | Op::FetchSub(_, _) =>
                reply is Value,
            Op::Store(_, _) => reply is Done,
            Op::CompareExchange { .. } | Op::CompareExchangeWeak { .. } =>
                reply is Swapped || reply is Changed,
        }
    }
}

impl<W> Action<W> {
    /// The orderings of the operation are legal.
    pub open spec fn legal(self) -> bool {
        self matches Action::Word(_, op) ==> op.legal()
    }

    /// The replies that fit an action, whatever the words hold.
    pub open spec fn fits(self, reply: Reply<u32>) -> bool {
        match self {
            Action::Word(_, op) => op.fits(reply),
            Action::Wait(_, _) => reply is Done || reply is Asleep,
            Action::WakeOne(_) | Action::WakeAll(_) => reply is Done,
        }
    }
}

/// The standard library's name of an ordering.
pub open spec fn ordering_of(order: Order) -> Ordering {
    match order {
        Order::Relaxed => Ordering::Relaxed,
        Order::Acquire => Ordering::Acquire,
        Order::Release => Ordering::Release,
        Order::AcqRel => Ordering::AcqRel,
    }
}

/// The standard library's name of an ordering.
fn std_order(order: Order) -> (res: Ordering)
    ensures
        res == ordering_of(order),
{
    match order {
        Order::Relaxed => Ordering::Relaxed,
        Order::Acquire => Ordering::Acquire,
        Order::Release => Ordering::Release,
        Order::AcqRel => Ordering::AcqRel,
    }
}

/// The reply that the result of a compare-exchange stands for.
pub open spec fn reply_of<V>(result: Result<V, V>) -> Reply<V> {
    match result {
        Ok(_) => Reply::Swapped,
        Err(found) => Reply::Changed(found),
    }
}

/// Turns the result of a compare-exchange into a reply.
fn exchange_reply<V>(result: Result<V, V>) -> (reply: Reply<V>)
    ensures
        reply == reply_of(result),
{
    match result {
        Ok(_) => Reply::Swapped,
        Err(found) => Reply::Changed(found),
    }
}

impl Op<u32> {
    /// The value of a 32-bit word after the operation, and the reply, when nothing else touches the
    /// word. Addition and subtraction wrap around.
    pub open spec fn effect(self, word: u32) -> (u32, Reply<u32>) {
        match self {
            Op::Load(_) => (word, Reply::Value(word)),
            Op::Store(value, _) => (value, Reply::Done),
            Op::Swap(value, _) => (value, Reply::Value(word)),
            Op::CompareExchange { current, new, .. }
            | Op::CompareExchangeWeak { current, new, .. } => if word == current {
                (new, Reply::Swapped)
            } else {
                (word, Reply::Changed(word))
            },
            Op::FetchAdd(n, _) => (word.wrapping_add(n), Reply::Value(word)),
            Op::FetchSub(n, _) => (word.wrapping_sub(n), Reply::Value(word)),
        }
    }

    /// What the operation may do to a word among threads that interleave: what it does alone, or,
    /// for a weak compare-exchange, fail although the word has the expected value.
    pub open spec fn possible(self, word: u32, next: u32, reply: Reply<u32>) -> bool {
        ||| (next, reply) == self.effect(word)
        ||| self is CompareExchangeWeak && next == word && reply == Reply::Changed(word)
    }

    /// Applies the operation to a word that nothing else touches.
    pub fn apply(self, word: &mut u32) -> (reply: Reply<u32>)
        ensures
            (*final(word), reply) == self.effect(*old(word)),
    {
        let before: u32 = *word;
        match self {
            Op::Load(_) => Reply::Value(before),
            Op::Store(value, _) => {
                *word = value;
                Reply::Done
            },
            Op::Swap(value, _) => {
                *word = value;
                Reply::Value(before)
            },
            Op::CompareExchange { current, new, .. }
            | Op::CompareExchangeWeak { current, new, .. } => {
                if before == current {
                    *word = new;
                    Reply::Swapped
                } else {
                    Reply::Changed(before)
                }
            },
            Op::FetchAdd(n, _) => {
                *word = before.wrapping_add(n);
                Reply::Value(before)
            },
            Op::FetchSub(n, _) => {
                *word = before.wrapping_sub(n);
                Reply::Value(before)
            },
        }
    }

    /// The operation was performed on this atomic: the call of the standard library that it stands
    /// for was made on it, with the values and the orderings of the operation, and this is what the
    /// call returned.
    pub open spec fn performed(self, word: AtomicU32, reply: Reply<u32>) -> bool {
        match self {
            Op::Load(order) => {
                &&& reply matches Reply::Value(value)
                &&& call_ensures(AtomicU32::load, (&word, ordering_of(order)), value)
            },
            Op::Store(value, order) => {
                &&& reply is Done
                &&& call_ensures(AtomicU32::store, (&word, value, ordering_of(order)), ())
            },
            Op::Swap(new, order) => {
                &&& reply matches Reply::Value(value)
                &&& call_ensures(AtomicU32::swap, (&word, new, ordering_of(order)), value)
            },
            Op::CompareExchange { current, new, order } => exists|result: Result<u32, u32>|
                {
                    &&& #[trigger] call_ensures(
                        AtomicU32::compare_exchange,
                        (&word, current, new, ordering_of(order), Ordering::Relaxed),
                        result,
                    )
                    &&& reply == reply_of(result)
                },
            Op::CompareExchangeWeak { current, new, order } => exists|result: Result<u32, u32>|
                {
                    &&& #[trigger] call_ensures(
                        AtomicU32::compare_exchange_weak,
                        (&word, current, new, ordering_of(order), Ordering::Relaxed),
                        result,
                    )
                    &&& reply == reply_of(result)
                },
            Op::FetchAdd(n, order) => {
                &&& reply matches Reply::Value(value)
                &&& call_ensures(AtomicU32::fetch_add, (&word, n, ordering_of(order)), value)
            },
            Op::FetchSub(n, order) => {
                &&& reply matches Reply::Value(value)
                &&& call_ensures(AtomicU32::fetch_sub, (&word, n, ordering_of(order)), value)
            },
        }
    }

    /// Performs the operation on an atomic that other threads may use at the same time. Which value
    /// comes back depends on them.
    pub fn apply_atomic(self, word: &AtomicU32) -> (reply: Reply<u32>)
        requires
            self.legal(),
        ensures
            self.performed(*word, reply),
            self.fits(reply),
    {
        match self {
            Op::Load(order) => Reply::Value(word.load(std_order(order))),
            Op::Store(value, order) => {
                word.store(value, std_order(order));
                Reply::Done
            },
            Op::Swap(value, order) => Reply::Value(word.swap(value, std_order(order))),
            Op::CompareExchange { current, new, order } => exchange_reply(
                word.compare_exchange(current, new, std_order(order), Ordering::Relaxed),
            ),
            Op::CompareExchangeWeak { current, new, order } => exchange_reply(
                word.compare_exchange_weak(current, new, std_order(order), Ordering::Relaxed),
            ),
            Op::FetchAdd(n, order) => Reply::Value(word.fetch_add(n, std_order(order))),
            Op::FetchSub(n, order) => Reply::Value(word.fetch_sub(n, std_order(order))),
        }
    }
}

impl Op<usize> {
    /// The value of a word-sized counter after the operation, and the reply, when nothing else
    /// touches the word. Addition and subtraction wrap around.
    pub open spec fn effect(self, word: usize) -> (usize, Reply<usize>) {
        match self {
            Op::Load(_) => (word, Reply::Value(word)),
            Op::Store(value, _) => (value, Reply::Done),
            Op::Swap(value, _) => (value, Reply::Value(word)),
            Op::CompareExchange { current, new, .. }
            | Op::CompareExchangeWeak { current, new, .. } => if word == current {
                (new, Reply::Swapped)
            } else {
                (word, Reply::Changed(word))
            },
            Op::FetchAdd(n, _) => (word.wrapping_add(n), Reply::Value(word)),
            Op::FetchSub(n, _) => (word.wrapping_sub(n), Reply::Value(word)),
        }
    }

    /// What the operation may do to a word among threads that interleave: what it does alone, or,
    /// for a weak compare-exchange, fail although the word has the expected value.
    pub open spec fn possible(self, word: usize, next: usize, reply: Reply<usize>) -> bool {
        ||| (next, reply) == self.effect(word)
        ||| self is CompareExchangeWeak && next == word && reply == Reply::Changed(word)
    }

    /// Applies the operation to a word that nothing else touches.
    pub fn apply(self, word: &mut usize) -> (reply: Reply<usize>)
        ensures
            (*final(word), reply) == self.effect(*old(word)),
    {
        let before: usize = *word;
        match self {
            Op::Load(_) => Reply::Value(before),
            Op::Store(value, _) => {
                *word = value;
                Reply::Done
            },
            Op::Swap(value, _) => {
                *word = value;
                Reply::Value(before)
            },
            Op::CompareExchange { current, new, .. }
            | Op::CompareExchangeWeak { current, new, .. } => {
                if before == current {
                    *word = new;
                    Reply::Swapped
                } else {
                    Reply::Changed(before)
                }
            },
            Op::FetchAdd(n, _) => {
                *word = before.wrapping_add(n);
                Reply::Value(before)
            },
            Op::FetchSub(n, _) => {
                *word = before.wrapping_sub(n);
                Reply::Value(before)
            },
        }
    }

    /// The operation was performed on this atomic: the call of the standard library that it stands
    /// for was made on it, with the values and the orderings of the operation, and this is what the
    /// call returned.
    pub open spec fn performed(self, word: AtomicUsize, reply: Reply<usize>) -> bool {
        match self {
            Op::Load(order) => {
                &&& reply matches Reply::Value(value)
                &&& call_ensures(AtomicUsize::load, (&word, ordering_of(order)), value)
            },
            Op::Store(value, order) => {
                &&& reply is Done
                &&& call_ensures(AtomicUsize::store, (&word, value, ordering_of(order)), ())
            },
            Op::Swap(new, order) => {
                &&& reply matches Reply::Value(value)
                &&& call_ensures(AtomicUsize::swap, (&word, new, ordering_of(order)), value)
            },
            Op::CompareExchange { current, new, order } => exists|result: Result<usize, usize>|
                {
                    &&& #[trigger] call_ensures(
                        AtomicUsize::compare_exchange,
                        (&word, current, new, ordering_of(order), Ordering::Relaxed),
                        result,
                    )
                    &&& reply == reply_of(result)
                },
            Op::CompareExchangeWeak { current, new, order } => exists|result: Result<usize, usize>|
                {
                    &&& #[trigger] call_ensures(
                        AtomicUsize::compare_exchange_weak,
                        (&word, current, new, ordering_of(order), Ordering::Relaxed),
                        result,
                    )
                    &&& reply == reply_of(result)
                },
            Op::FetchAdd(n, order) => {
                &&& reply matches Reply::Value(value)
                &&& call_ensures(AtomicUsize::fetch_add, (&word, n, ordering_of(order)), value)
            },
            Op::FetchSub(n, order) => {
                &&& reply matches Reply::Value(value)
                &&& call_ensures(AtomicUsize::fetch_sub, (&word, n, ordering_of(order)), value)
            },
        }
    }

    /// Performs the operation on an atomic that other threads may use at the same time. Which value
    /// comes back depends on them.
    pub fn apply_atomic(self, word: &AtomicUsize) -> (reply: Reply<usize>)
        requires
            self.legal(),
        ensures
            self.performed(*word, reply),
            self.fits(reply),
    {
        match self {
            Op::Load(order) => Reply::Value(word.load(std_order(order))),
            Op::Store(value, order) => {
                word.store(value, std_order(order));
                Reply::Done
            },
            Op::Swap(value, order) => Reply::Value(word.swap(value, std_order(order))),
            Op::CompareExchange { current, new, order } => exchange_reply(
                word.compare_exchange(current, new, std_order(order), Ordering::Relaxed),
            ),
            Op::CompareExchangeWeak { current, new, order } => exchange_reply(
                word.compare_exchange_weak(current, new, std_order(order), Ordering::Relaxed),
            ),
            Op::FetchAdd(n, order) => Reply::Value(word.fetch_add(n, std_order(order))),
            Op::FetchSub(n, order) => Reply::Value(word.fetch_sub(n, std_order(order))),
        }
    }
}

/// Calls `atomic_wait::wait`: sleeps if the word has this value, until a wake-up call on the word.
/// It may return without one, so nothing is claimed about the word afterwards.
#[verifier::external_body]
fn futex_wait(word: &AtomicU32, value: u32) {
    atomic_wait::wait(word, value)
}

/// Calls `atomic_wait::wake_one`: wakes one thread that sleeps on the word. The word is not changed
/// by it; nothing is claimed about the other threads.
#[verifier::external_body]
fn futex_wake_one(word: &AtomicU32) {
    atomic_wait::wake_one(word)
}

/// Calls `atomic_wait::wake_all`: wakes every thread that sleeps on the word. The word is not
/// changed by it; nothing is claimed about the other threads.
#[verifier::external_body]
fn futex_wake_all(word: &AtomicU32) {
    atomic_wait::wake_all(word)
}

impl<W> Action<W> {
    /// The word that the action is on.
    pub open spec fn word(self) -> W {
        match self {
            Action::Word(word, _)
            | Action::Wait(word, _)
            | Action::WakeOne(word)
            | Action::WakeAll(word) => word,
        }
    }

    /// The action was performed on this atomic: the operation, the wait or the wake-up call was
    /// made on it, and this is the answer.
    pub closed spec fn performed(self, word: AtomicU32, reply: Reply<u32>) -> bool {
        match self {
            Action::Word(_, op) => op.performed(word, reply),
            Action::Wait(_, value) => {
                &&& reply is Done
                &&& call_ensures(futex_wait, (&word, value), ())
            },
            Action::WakeOne(_) => {
                &&& reply is Done
                &&& call_ensures(futex_wake_one, (&word,), ())
            },
            Action::WakeAll(_) => {
                &&& reply is Done
                &&& call_ensures(futex_wake_all, (&word,), ())
            },
        }
    }

    /// Performs the action on an atomic that other threads may use at the same time; a wait returns
    /// when it is over.
    pub fn apply_atomic(self, word: &AtomicU32) -> (reply: Reply<u32>)
        requires
            self.legal(),
        ensures
            self.performed(*word, reply),
            self.fits(reply),
            !(reply is Asleep),
    {
        match self {
            Action::Word(_, op) => op.apply_atomic(word),
            Action::Wait(_, value) => {
                futex_wait(word, value);
                Reply::Done
            },
            Action::WakeOne(_) => {
                futex_wake_one(word);
                Reply::Done
            },
            Action::WakeAll(_) => {
                futex_wake_all(word);
                Reply::Done
            },
        }
    }
}

/// On a word that nothing else touches, an operation does what its name says. A load answers the
/// value and leaves it. A store and a swap leave the new value, and the swap answers the old one. A
/// compare-exchange of either kind leaves the new value exactly if the word had the expected one,
/// and otherwise answers what it had. Addition and subtraction answer the old value, and start over
/// at the other end where the word ends.
pub proof fn law_operations_do_what_they_say_u32(op: Op<u32>, word: &mut u32, reply: Reply<u32>)
    requires
        call_ensures(Op::<u32>::apply, (op, word), reply),
    ensures
        op is Load ==> reply == Reply::Value(*old(word)) && *final(word) == *old(word),
        op matches Op::Store(value, _) ==> reply is Done && *final(word) == value,
        op matches Op::Swap(value, _) ==> reply == Reply::Value(*old(word)) && *final(word)
            == value,
        op matches Op::CompareExchange { current, new, .. } ==> {
            &&& *old(word) == current ==> reply is Swapped && *final(word) == new
            &&& *old(word) != current ==> reply == Reply::Changed(*old(word)) && *final(word)
                == *old(word)
        },
        op matches Op::CompareExchangeWeak { current, new, .. } ==> {
            &&& *old(word) == current ==> reply is Swapped && *final(word) == new
            &&& *old(word) != current ==> reply == Reply::Changed(*old(word)) && *final(word)
                == *old(word)
        },
        op matches Op::FetchAdd(n, _) ==> {
            &&& reply == Reply::Value(*old(word))
            &&& *final(word) == if *old(word) + n <= u32::MAX {
                *old(word) + n
            } else {
                *old(word) + n - u32::MAX - 1
            }
        },
        op matches Op::FetchSub(n, _) ==> {
            &&& reply == Reply::Value(*old(word))
            &&& *final(word) == if *old(word) >= n {
                *old(word) - n
            } else {
                *old(word) - n + u32::MAX + 1
            }
        },
{
}

/// Among threads that interleave, an operation does what it does alone, or, if it is a weak
/// compare-exchange, it fails and changes nothing. No other operation does anything else.
pub proof fn law_only_weak_exchanges_fail_for_no_reason_u32(
    op: Op<u32>,
    word: &mut u32,
    reply: Reply<u32>,
    next: u32,
    answer: Reply<u32>,
)
    requires
        call_ensures(Op::<u32>::apply, (op, word), reply),
        op.possible(*old(word), next, answer),
    ensures
        next == *final(word) && answer == reply || {
            &&& op is CompareExchangeWeak
            &&& next == *old(word)
            &&& answer == Reply::Changed(*old(word))
        },
{
}

/// On an atomic, an operation is the call of the standard library that has its name, with its
/// values and its ordering. A compare-exchange that fails is relaxed. The reply is what the call
/// returned.
pub proof fn law_operations_are_calls_of_the_same_name_u32(
    op: Op<u32>,
    word: AtomicU32,
    reply: Reply<u32>,
    order: Order,
    ordering: Ordering,
)
    requires
        call_ensures(Op::<u32>::apply_atomic, (op, &word), reply),
        order is Relaxed ==> ordering == Ordering::Relaxed,
        order is Acquire ==> ordering == Ordering::Acquire,
        order is Release ==> ordering == Ordering::Release,
        order is AcqRel ==> ordering == Ordering::AcqRel,
    ensures
        op == Op::<u32>::Load(order) ==> {
            &&& reply is Value
            &&& call_ensures(AtomicU32::load, (&word, ordering), reply->Value_0)
        },
        op matches Op::Store(value, with) ==> with == order ==> {
            &&& reply is Done
            &&& call_ensures(AtomicU32::store, (&word, value, ordering), ())
        },
        op matches Op::Swap(value, with) ==> with == order ==> {
            &&& reply is Value
            &&& call_ensures(AtomicU32::swap, (&word, value, ordering), reply->Value_0)
        },
        op matches Op::FetchAdd(n, with) ==> with == order ==> {
            &&& reply is Value
            &&& call_ensures(AtomicU32::fetch_add, (&word, n, ordering), reply->Value_0)
        },
        op matches Op::FetchSub(n, with) ==> with == order ==> {
            &&& reply is Value
            &&& call_ensures(AtomicU32::fetch_sub, (&word, n, ordering), reply->Value_0)
        },
        op matches Op::CompareExchange { current, new, order: with } ==> with == order ==> exists|
            result: Result<u32, u32>,
        |
            {
                &&& #[trigger] call_ensures(
                    AtomicU32::compare_exchange,
                    (&word, current, new, ordering, Ordering::Relaxed),
                    result,
                )
                &&& result is Ok <==> reply is Swapped
                &&& result matches Err(found) ==> reply == Reply::Changed(found)
            },
        op matches Op::CompareExchangeWeak { current, new, order: with } ==> with == order
            ==> exists|result: Result<u32, u32>|
            {
                &&& #[trigger] call_ensures(
                    AtomicU32::compare_exchange_weak,
                    (&word, current, new, ordering, Ordering::Relaxed),
                    result,
                )
                &&& result is Ok <==> reply is Swapped
                &&& result matches Err(found) ==> reply == Reply::Changed(found)
            },
{
}

/// On a word that nothing else touches, an operation does what its name says. A load answers the
/// value and leaves it. A store and a swap leave the new value, and the swap answers the old one. A
/// compare-exchange of either kind leaves the new value exactly if the word had the expected one,
/// and otherwise answers what it had. Addition and subtraction answer the old value, and start over
/// at the other end where the word ends.
pub proof fn law_operations_do_what_they_say_usize(op: Op<usize>, word: &mut usize, reply: Reply<usize>)
    requires
        call_ensures(Op::<usize>::apply, (op, word), reply),
    ensures
        op is Load ==> reply == Reply::Value(*old(word)) && *final(word) == *old(word),
        op matches Op::Store(value, _) ==> reply is Done && *final(word) == value,
        op matches Op::Swap(value, _) ==> reply == Reply::Value(*old(word)) && *final(word)
            == value,
        op matches Op::CompareExchange { current, new, .. } ==> {
            &&& *old(word) == current ==> reply is Swapped && *final(word) == new
            &&& *old(word) != current ==> reply == Reply::Changed(*old(word)) && *final(word)
                == *old(word)
        },
        op matches Op::CompareExchangeWeak { current, new, .. } ==> {
            &&& *old(word) == current ==> reply is Swapped && *final(word) == new
            &&& *old(word) != current ==> reply == Reply::Changed(*old(word)) && *final(word)
                == *old(word)
        },
        op matches Op::FetchAdd(n, _) ==> {
            &&& reply == Reply::Value(*old(word))
            &&& *final(word) == if *old(word) + n <= usize::MAX {
                *old(word) + n
            } else {
                *old(word) + n - usize::MAX - 1
            }
        },
        op matches Op::FetchSub(n, _) ==> {
            &&& reply == Reply::Value(*old(word))
            &&& *final(word) == if *old(word) >= n {
                *old(word) - n
            } else {
                *old(word) - n + usize::MAX + 1
            }
        },
{
}

/// Among threads that interleave, an operation does what it does alone, or, if it is a weak
/// compare-exchange, it fails and changes nothing. No other operation does anything else.
pub proof fn law_only_weak_exchanges_fail_for_no_reason_usize(
    op: Op<usize>,
    word: &mut usize,
    reply: Reply<usize>,
    next: usize,
    answer: Reply<usize>,
)
    requires
        call_ensures(Op::<usize>::apply, (op, word), reply),
        op.possible(*old(word), next, answer),
    ensures
        next == *final(word) && answer == reply || {
            &&& op is CompareExchangeWeak
            &&& next == *old(word)
            &&& answer == Reply::Changed(*old(word))
        },
{
}

/// On an atomic, an operation is the call of the standard library that has its name, with its
/// values and its ordering. A compare-exchange that fails is relaxed. The reply is what the call
/// returned.
pub proof fn law_operations_are_calls_of_the_same_name_usize(
    op: Op<usize>,
    word: AtomicUsize,
    reply: Reply<usize>,
    order: Order,
    ordering: Ordering,
)
    requires
        call_ensures(Op::<usize>::apply_atomic, (op, &word), reply),
        order is Relaxed ==> ordering == Ordering::Relaxed,
        order is Acquire ==> ordering == Ordering::Acquire,
        order is Release ==> ordering == Ordering::Release,
        order is AcqRel ==> ordering == Ordering::AcqRel,
    ensures
        op == Op::<usize>::Load(order) ==> {
            &&& reply is Value
            &&& call_ensures(AtomicUsize::load, (&word, ordering), reply->Value_0)
        },
        op matches Op::Store(value, with) ==> with == order ==> {
            &&& reply is Done
            &&& call_ensures(AtomicUsize::store, (&word, value, ordering), ())
        },
        op matches Op::Swap(value, with) ==> with == order ==> {
            &&& reply is Value
            &&& call_ensures(AtomicUsize::swap, (&word, value, ordering), reply->Value_0)
        },
        op matches Op::FetchAdd(n, with) ==> with == order ==> {
            &&& reply is Value
            &&& call_ensures(AtomicUsize::fetch_add, (&word, n, ordering), reply->Value_0)
        },
        op matches Op::FetchSub(n, with) ==> with == order ==> {
            &&& reply is Value
            &&& call_ensures(AtomicUsize::fetch_sub, (&word, n, ordering), reply->Value_0)
        },
        op matches Op::CompareExchange { current, new, order: with } ==> with == order ==> exists|
            result: Result<usize, usize>,
        |
            {
                &&& #[trigger] call_ensures(
                    AtomicUsize::compare_exchange,
                    (&word, current, new, ordering, Ordering::Relaxed),
                    result,
                )
                &&& result is Ok <==> reply is Swapped
                &&& result matches Err(found) ==> reply == Reply::Changed(found)
            },
        op matches Op::CompareExchangeWeak { current, new, order: with } ==> with == order
            ==> exists|result: Result<usize, usize>|
            {
                &&& #[trigger] call_ensures(
                    AtomicUsize::compare_exchange_weak,
                    (&word, current, new, ordering, Ordering::Relaxed),
                    result,
                )
                &&& result is Ok <==> reply is Swapped
                &&& result matches Err(found) ==> reply == Reply::Changed(found)
            },
{
}

/// A call that waits on this atomic for this value was made.
pub closed spec fn waits_on(word: AtomicU32, value: u32) -> bool {
    call_ensures(futex_wait, (&word, value), ())
}

/// A call that wakes one thread that sleeps on this atomic was made.
pub closed spec fn wakes_one_on(word: AtomicU32) -> bool {
    call_ensures(futex_wake_one, (&word,), ())
}

/// A call that wakes every thread that sleeps on this atomic was made.
pub closed spec fn wakes_all_on(word: AtomicU32) -> bool {
    call_ensures(futex_wake_all, (&word,), ())
}

/// On an atomic, an operation of an action is performed as it is by itself; a wait is a call that
/// waits on this atomic for this value, and a wake-up call wakes one or all that sleep on it.
pub proof fn law_actions_are_calls_on_their_atomic<W>(
    action: Action<W>,
    word: AtomicU32,
    reply: Reply<u32>,
)
    requires
        call_ensures(Action::<W>::apply_atomic, (action, &word), reply),
        call_requires(Action::<W>::apply_atomic, (action, &word)),
    ensures
        action matches Action::Word(_, op) ==> op.performed(word, reply),
        action matches Action::Wait(_, value) ==> reply is Done && waits_on(word, value),
        action is WakeOne ==> reply is Done && wakes_one_on(word),
        action is WakeAll ==> reply is Done && wakes_all_on(word),
{
}

} // verus!
