//! What a [`mutex`](crate::mutex) is for.

use crate::interleaving;
use crate::mutex::{
    LockResult, Mutex, MutexAction, MutexCall, MutexGuard, MutexOutcome, MutexReply, MutexView,
    MutexWords, MutexWordsView, RawMutex, LOCKED, SPIN_LIMIT, UNLOCKED,
};
use crate::utils::mutex_common::{HeldLocks, Identities, LockError, Progress};
use vstd::prelude::*;

verus! {

/// A result hands out the mutex: a guard of it, which comes with a warning if the mutex is
/// poisoned.
pub open spec fn hands_out<T>(mutex: MutexView<T>, res: LockResult) -> bool {
    &&& res matches Ok(guard) ==> guard@ == mutex.id && !mutex.poisoned
    &&& res matches Err(error) ==> error is Poisoned && error->Poisoned_0.guard@ == mutex.id
        && mutex.poisoned
}

/// A result says that the mutex is taken.
pub open spec fn is_refusal(res: LockResult) -> bool {
    res matches Err(LockError::WouldBlock)
}

/// Nothing but the words and the queue differs.
pub open spec fn same_but_words<T>(before: MutexView<T>, after: MutexView<T>) -> bool {
    &&& after.id == before.id
    &&& after.data == before.data
    &&& after.poisoned == before.poisoned
}

/// A new mutex is free, nobody waits for it, it is not poisoned, and its data is what it was made
/// with.
pub proof fn law_new_mutex_is_free<T>(
    ids: &mut Identities,
    data: T,
    mutex: Mutex<T>,
    tried: &mut Mutex<T>,
    me: &mut HeldLocks,
    res: LockResult,
    inner: T,
    poisoned: bool,
)
    requires
        call_ensures(Mutex::<T>::new, (ids, data), mutex),
        *old(tried) == mutex,
        !old(me)@.contains(mutex@.id),
        call_ensures(Mutex::<T>::try_lock, (tried, me), res),
        call_ensures(Mutex::<T>::into_inner, (mutex,), inner),
        call_ensures(Mutex::<T>::is_poisoned, (&mutex,), poisoned),
    ensures
        res is Ok,
        inner == data,
        !poisoned,
        mutex@.id == old(ids)@,
        final(ids)@ != old(ids)@,
        mutex@.words.at_rest(),
        mutex@.words.queue.len() == 0,
{
}

/// A thread that has the mutex is refused by `lock` and `try_lock`, and nothing changes. No other
/// thread is refused by `lock`.
pub proof fn law_only_holders_are_refused<T>(
    mutex: &mut Mutex<T>,
    me: &mut HeldLocks,
    thread: usize,
    res: Progress<LockResult, MutexCall>,
    tried: &mut Mutex<T>,
    trier: &mut HeldLocks,
    handed: LockResult,
)
    requires
        old(mutex)@.words.at_rest(),
        call_ensures(Mutex::<T>::lock, (mutex, me, thread), res),
        call_ensures(Mutex::<T>::try_lock, (tried, trier), handed),
    ensures
        res is Finished && is_refusal(res->Finished_0) <==> old(me)@.contains(old(mutex)@.id),
        old(me)@.contains(old(mutex)@.id) ==> final(mutex)@ == old(mutex)@ && final(me)@ == old(
            me,
        )@,
        old(trier)@.contains(old(tried)@.id) ==> is_refusal(handed) && final(tried)@ == old(tried)@
            && final(trier)@ == old(trier)@,
{
}

/// A `lock` gets a free mutex, and leaves the queue as it is. Otherwise the thread enters the queue
/// behind the others, and parks; the mutex stays with whom it is.
pub proof fn law_lock_takes_a_free_mutex_or_queues<T>(
    mutex: &mut Mutex<T>,
    me: &mut HeldLocks,
    thread: usize,
    res: Progress<LockResult, MutexCall>,
)
    requires
        old(mutex)@.words.at_rest(),
        !old(me)@.contains(old(mutex)@.id),
        call_ensures(Mutex::<T>::lock, (mutex, me, thread), res),
    ensures
        res is Finished <==> old(mutex)@.words.state == UNLOCKED,
        res matches Progress::Finished(handed) ==> {
            &&& hands_out(old(mutex)@, handed)
            &&& final(mutex)@.words.state == LOCKED
            &&& final(mutex)@.words.queue == old(mutex)@.words.queue
            &&& final(me)@ == old(me)@.insert(old(mutex)@.id)
        },
        res matches Progress::Pending(call) ==> {
            &&& call == (MutexCall::Park { me: thread })
            &&& final(mutex)@.words.state == old(mutex)@.words.state
            &&& final(mutex)@.words.queue == old(mutex)@.words.queue.push(thread)
            &&& final(me)@ == old(me)@
        },
        final(mutex)@.words.at_rest(),
        same_but_words(old(mutex)@, final(mutex)@),
{
}

/// A `try_lock` gets the mutex exactly where a `lock` gets it at once, and does the same then.
/// Otherwise it is refused, and nothing changes.
pub proof fn law_try_lock_is_lock_without_waiting<T>(
    tried: &mut Mutex<T>,
    trier: &mut HeldLocks,
    handed: LockResult,
    mutex: &mut Mutex<T>,
    me: &mut HeldLocks,
    thread: usize,
    res: Progress<LockResult, MutexCall>,
)
    requires
        *old(tried) == *old(mutex),
        *old(trier) == *old(me),
        old(mutex)@.words.at_rest(),
        call_ensures(Mutex::<T>::try_lock, (tried, trier), handed),
        call_ensures(Mutex::<T>::lock, (mutex, me, thread), res),
    ensures
        hands_out(old(tried)@, handed) <==> res is Finished && hands_out(
            old(mutex)@,
            res->Finished_0,
        ),
        hands_out(old(tried)@, handed) <==> !old(trier)@.contains(old(tried)@.id) && old(
            tried,
        )@.words.state == UNLOCKED,
        hands_out(old(tried)@, handed) ==> final(tried)@ == final(mutex)@ && final(trier)@
            == final(me)@,
        !hands_out(old(tried)@, handed) ==> is_refusal(handed) && final(tried)@ == old(tried)@
            && final(trier)@ == old(trier)@,
{
}

/// A thread that comes back from parking gets a free mutex, and has no place in the queue then if
/// it had one. Otherwise it keeps its place, or enters the queue if it has none, and parks again.
/// The others keep their order.
pub proof fn law_resumed_lock_takes_a_free_mutex_or_keeps_its_place<T>(
    mutex: &mut Mutex<T>,
    call: MutexCall,
    thread: usize,
    me: &mut HeldLocks,
    res: Progress<LockResult, MutexCall>,
    i: int,
)
    requires
        old(mutex)@.words.at_rest(),
        call == (MutexCall::Park { me: thread }),
        old(mutex)@.words.queue.no_duplicates(),
        call_ensures(Mutex::<T>::resume, (mutex, call, me), res),
        old(mutex)@.words.queue.contains(thread) ==> 0 <= i < old(mutex)@.words.queue.len() && old(
            mutex,
        )@.words.queue[i] == thread,
    ensures
        res is Finished <==> old(mutex)@.words.state == UNLOCKED,
        res matches Progress::Finished(handed) ==> {
            &&& hands_out(old(mutex)@, handed)
            &&& final(mutex)@.words.state == LOCKED
            &&& final(me)@ == old(me)@.insert(old(mutex)@.id)
            &&& final(mutex)@.words.queue == if old(mutex)@.words.queue.contains(thread) {
                old(mutex)@.words.queue.remove(i)
            } else {
                old(mutex)@.words.queue
            }
        },
        res matches Progress::Pending(again) ==> {
            &&& again == call
            &&& final(mutex)@.words.state == old(mutex)@.words.state
            &&& final(me)@ == old(me)@
            &&& final(mutex)@.words.queue == if old(mutex)@.words.queue.contains(thread) {
                old(mutex)@.words.queue
            } else {
                old(mutex)@.words.queue.push(thread)
            }
        },
        final(mutex)@.words.at_rest(),
        same_but_words(old(mutex)@, final(mutex)@),
{
    let queue = old(mutex)@.words.queue;
    crate::mutex::place_is_first(queue, thread, 0);
    let place = crate::mutex::place_in_queue(queue, thread, 0);
    if queue.contains(thread) {
        assert(queue[i] == thread);
        assert(place == i);
    } else if place < queue.len() {
        assert(queue[place as int] == thread);
    }
}

/// A thread that releases the mutex leaves it free, and poisoned if it was, or if the thread is
/// panicking. The first thread of the queue, if there is one, leaves it and is to be unparked.
pub proof fn law_unlock_frees_the_mutex<T>(
    guard: MutexGuard,
    mutex: &mut Mutex<T>,
    me: &mut HeldLocks,
    panicking: bool,
    first: Option<usize>,
)
    requires
        guard@ == old(mutex)@.id,
        old(mutex)@.words.at_rest(),
        call_ensures(MutexGuard::unlock::<T>, (guard, mutex, me, panicking), first),
    ensures
        final(mutex)@.words.state == UNLOCKED,
        final(mutex)@.words.at_rest(),
        first is Some <==> old(mutex)@.words.queue.len() > 0,
        first matches Some(thread) ==> thread == old(mutex)@.words.queue[0]
            && final(mutex)@.words.queue == old(mutex)@.words.queue.skip(1),
        first is None ==> final(mutex)@.words.queue.len() == 0,
        final(mutex)@.id == old(mutex)@.id,
        final(mutex)@.data == old(mutex)@.data,
        final(mutex)@.poisoned == (old(mutex)@.poisoned || panicking),
        final(me)@ == old(me)@.remove(old(mutex)@.id),
{
}

/// First come, first served: of two threads that wait for a mutex that nobody else waits for, the
/// release unparks the one that asked first, which has the mutex then; its release unparks the
/// other.
pub proof fn law_two_threads_are_served_in_order<T>(
    asked: &mut Mutex<T>,
    one: &mut HeldLocks,
    first: usize,
    first_call: MutexCall,
    asked_again: &mut Mutex<T>,
    two: &mut HeldLocks,
    second: usize,
    second_call: MutexCall,
    guard: MutexGuard,
    freed: &mut Mutex<T>,
    holder: &mut HeldLocks,
    unparked: Option<usize>,
    resumed: &mut Mutex<T>,
    woken: &mut HeldLocks,
    res: Progress<LockResult, MutexCall>,
    next_guard: MutexGuard,
    freed_again: &mut Mutex<T>,
    next_holder: &mut HeldLocks,
    unparked_then: Option<usize>,
)
    requires
        first != second,
        old(asked)@.words.at_rest(),
        old(asked)@.words.queue.len() == 0,
        !old(one)@.contains(old(asked)@.id),
        !old(two)@.contains(old(asked)@.id),
        call_ensures(
            Mutex::<T>::lock,
            (asked, one, first),
            Progress::<LockResult, MutexCall>::Pending(first_call),
        ),
        *old(asked_again) == *final(asked),
        call_ensures(
            Mutex::<T>::lock,
            (asked_again, two, second),
            Progress::<LockResult, MutexCall>::Pending(second_call),
        ),
        guard@ == old(asked)@.id,
        *old(freed) == *final(asked_again),
        call_ensures(MutexGuard::unlock::<T>, (guard, freed, holder, false), unparked),
        *old(resumed) == *final(freed),
        call_ensures(Mutex::<T>::resume, (resumed, first_call, woken), res),
        next_guard@ == old(asked)@.id,
        *old(freed_again) == *final(resumed),
        call_ensures(
            MutexGuard::unlock::<T>,
            (next_guard, freed_again, next_holder, false),
            unparked_then,
        ),
    ensures
        unparked == Some(first),
        res is Finished && hands_out(old(resumed)@, res->Finished_0),
        unparked_then == Some(second),
{
    let queue = old(resumed)@.words.queue;
    assert(queue =~= seq![second]);
    crate::mutex::place_is_first(queue, first, 0);
    if crate::mutex::place_in_queue(queue, first, 0) < queue.len() {
        assert(queue[0] == second);
    }
}

/// What is changed under the mutex is what the next thread sees that has it. A guard shows the
/// data, and so do `get_mut` and `into_inner`; what is changed is the data, and nothing else.
pub proof fn law_guards_show_the_data<T>(
    mutex: Mutex<T>,
    guard: MutexGuard,
    seen: T,
    inner: T,
    owned: &mut Mutex<T>,
    data: &mut T,
    held: &mut Mutex<T>,
    mine: &mut MutexGuard,
    guarded: &mut T,
)
    requires
        guard@ == mutex@.id,
        call_ensures(MutexGuard::deref::<T>, (&guard, &mutex), &seen),
        call_ensures(Mutex::<T>::into_inner, (mutex,), inner),
        *old(owned) == mutex,
        call_ensures(Mutex::<T>::get_mut, (owned,), data),
        *old(held) == mutex,
        old(mine)@ == mutex@.id,
        call_ensures(MutexGuard::deref_mut::<T>, (mine, held), guarded),
    ensures
        seen == mutex@.data,
        inner == mutex@.data,
        *old(data) == mutex@.data,
        final(owned)@ == (MutexView { data: *final(data), ..mutex@ }),
        *old(guarded) == mutex@.data,
        final(held)@ == (MutexView { data: *final(guarded), ..mutex@ }),
        final(mine)@ == mutex@.id,
{
}

/// A mutex tells that it is poisoned from when a thread that panics releases it, until that is
/// cleared. Clearing it changes nothing else.
pub proof fn law_poison_is_told<T>(
    guard: MutexGuard,
    freed: &mut Mutex<T>,
    holder: &mut HeldLocks,
    panicking: bool,
    first: Option<usize>,
    told: bool,
    cleared: &mut Mutex<T>,
    told_then: bool,
)
    requires
        guard@ == old(freed)@.id,
        old(freed)@.words.at_rest(),
        call_ensures(MutexGuard::unlock::<T>, (guard, freed, holder, panicking), first),
        call_ensures(Mutex::<T>::is_poisoned, (&*final(freed),), told),
        *old(cleared) == *final(freed),
        call_ensures(Mutex::<T>::clear_poison, (cleared,), ()),
        call_ensures(Mutex::<T>::is_poisoned, (&*final(cleared),), told_then),
    ensures
        panicking ==> told,
        !panicking ==> told == old(freed)@.poisoned,
        !told_then,
        final(cleared)@ == (MutexView { poisoned: false, ..old(cleared)@ }),
{
}

/// Which call a step belongs to.
pub enum MutexKind {
    Lock,
    TryLock,
    Unlock,
}

/// The steps of each call, and the ways in which it can end: a `lock` ends only with the mutex.
pub open spec fn is_of_kind(call: MutexCall, kind: MutexKind) -> bool {
    match kind {
        MutexKind::Lock => call is SpinLook || call is SpinPeek || call is SpinTake
            || call is QueueLook || call is QueueTake || call is QueueCheck || call is QueueLeave
            || call is QueuePush || call is QueueFree || call is Park || call is OwnLook
            || call is OwnTake || call is OwnRemove || call is OwnFree || call == MutexCall::Done(
            MutexOutcome::Acquired,
        ),
        MutexKind::TryLock => call is TryLock || call == MutexCall::Done(MutexOutcome::Acquired)
            || call == MutexCall::Done(MutexOutcome::WouldBlock),
        MutexKind::Unlock => call is DequeueLook || call is DequeueTake || call is DequeuePop
            || call is DequeueUnlock || call is DequeueFree || call is Unpark || call is Done
            && call->Done_0 is Released,
    }
}

/// The thread whose `lock` a step belongs to.
pub open spec fn locker(call: MutexCall) -> Option<usize> {
    match call {
        MutexCall::SpinLook { me, .. }
        | MutexCall::SpinPeek { me, .. }
        | MutexCall::SpinTake { me, .. }
        | MutexCall::QueueLook { me, .. }
        | MutexCall::QueueTake { me, .. }
        | MutexCall::QueueCheck { me, .. }
        | MutexCall::QueueLeave { me, .. }
        | MutexCall::QueuePush { me, .. }
        | MutexCall::QueueFree { me }
        | MutexCall::Park { me }
        | MutexCall::OwnLook { me }
        | MutexCall::OwnTake { me }
        | MutexCall::OwnRemove { me }
        | MutexCall::OwnFree { me } => Some(me),
        _ => None,
    }
}

/// Every step leads to a step of the same call of the same thread, or to one of its ends, whatever
/// the other threads do. A call that is over takes no step, and every other call does.
pub proof fn law_calls_keep_their_kind(
    call: MutexCall,
    kind: MutexKind,
    reply: MutexReply,
    next: MutexCall,
    action: Option<MutexAction>,
)
    requires
        is_of_kind(call, kind),
        call_ensures(MutexCall::advance, (call, reply), next),
        call_ensures(MutexCall::action, (&call,), action),
    ensures
        is_of_kind(next, kind),
        !(next is Done) ==> locker(next) == locker(call),
        action is None <==> call is Done,
{
}

/// What one step does among threads that interleave. The mutex is taken exactly in the step in
/// which a call gets it, and only while it is free; only an unlock frees it. A `try_lock` is
/// refused only where the mutex is taken. The queue is changed only by the thread that went to it:
/// one that waits enters it, one that has the mutex gives up its place, and an unlock takes the
/// first out. A thread parks only after it entered the queue of a mutex that it saw taken.
pub proof fn law_mutex_is_taken_in_one_step(
    call: MutexCall,
    action: MutexAction,
    words: MutexWordsView,
    after: MutexWordsView,
    reply: MutexReply,
    next: MutexCall,
)
    requires
        call_ensures(MutexCall::action, (&call,), Some(action)),
        interleaving::mutex::possible(words, action, after, reply),
        call_ensures(MutexCall::advance, (call, reply), next),
        words.state <= LOCKED,
    ensures
        words.state == UNLOCKED && after.state == LOCKED <==> {
            ||| call is SpinTake && (next is OwnLook || next == MutexCall::Done(
                MutexOutcome::Acquired,
            ))
            ||| call is TryLock && next == MutexCall::Done(MutexOutcome::Acquired)
        },
        next == MutexCall::Done(MutexOutcome::Acquired) ==> call is SpinTake || call is TryLock
            || call is OwnFree,
        next is OwnLook ==> call is SpinTake || call is OwnLook || call is OwnTake,
        words.state == LOCKED && after.state == UNLOCKED ==> call is DequeueUnlock,
        call is DequeueUnlock ==> after.state == UNLOCKED,
        next == MutexCall::Done(MutexOutcome::WouldBlock) <==> call is TryLock && words.state
            == LOCKED,
        after.queue == words.queue || call is QueuePush || call is OwnRemove || call is DequeuePop,
        call is QueuePush && words.queue.contains(locker(call)->Some_0) && call->QueuePush_again
            ==> after.queue == words.queue,
        call is QueuePush && !(words.queue.contains(locker(call)->Some_0) && call->QueuePush_again)
            ==> after.queue == words.queue.push(locker(call)->Some_0),
        call is DequeuePop ==> {
            &&& next == (MutexCall::DequeueUnlock {
                first: if words.queue.len() > 0 {
                    Some(words.queue[0])
                } else {
                    None
                },
            })
            &&& words.queue.len() > 0 ==> after.queue == words.queue.skip(1)
        },
        next is QueuePush ==> call is QueueCheck && words.state == LOCKED,
        call is QueueCheck && words.state == UNLOCKED ==> next is QueueLeave,
        next is Park ==> call is QueueFree,
        next is QueueFree ==> call is QueuePush,
        call is Park ==> next is SpinLook && next->SpinLook_again,
        call matches MutexCall::SpinLook { me, counter, again } ==> {
            &&& words.state == UNLOCKED ==> next == (MutexCall::SpinPeek { me, counter, again })
            &&& words.state == LOCKED && counter + 1 < SPIN_LIMIT ==> next == (
            MutexCall::SpinLook { me, counter: (counter + 1) as u32, again })
            &&& words.state == LOCKED && counter + 1 >= SPIN_LIMIT ==> next == (
            MutexCall::QueueLook { me, again })
        },
        call is SpinTake && next is OwnLook ==> call->SpinTake_again,
        call is SpinTake && next is Done ==> !call->SpinTake_again,
{
    let me = locker(call)->Some_0;
    crate::mutex::place_is_first(words.queue, me, 0);
    if words.queue.contains(me) {
        let i = choose|i: int| 0 <= i < words.queue.len() && words.queue[i] == me;
        assert(words.queue[i] == me);
    } else if crate::mutex::place_in_queue(words.queue, me, 0) < words.queue.len() {
        assert(words.queue[crate::mutex::place_in_queue(words.queue, me, 0) as int] == me);
    }
}

/// A call that lost a race goes back to looking: at the state where it wanted the mutex, and at the
/// flag where it wanted the queue. A call that sees somebody at the queue looks again, and
/// otherwise goes there.
pub proof fn law_calls_go_by_what_they_see(
    call: MutexCall,
    seen: bool,
    looked: MutexCall,
    missed: MutexCall,
    got: MutexCall,
    left: MutexCall,
)
    requires
        call_ensures(MutexCall::advance, (call, MutexReply::Flag(seen)), looked),
        call_ensures(MutexCall::advance, (call, MutexReply::Taken(false)), missed),
        call_ensures(MutexCall::advance, (call, MutexReply::Taken(true)), got),
        call_ensures(MutexCall::advance, (call, MutexReply::Done), left),
    ensures
        call matches MutexCall::SpinPeek { me, counter, again } ==> looked == (
        MutexCall::SpinTake { me, counter, again }),
        call matches MutexCall::SpinTake { me, counter, again } ==> missed == (
        MutexCall::SpinLook { me, counter, again }),
        call matches MutexCall::QueueLook { me, again } ==> looked == if seen {
            call
        } else {
            MutexCall::QueueTake { me, again }
        },
        call matches MutexCall::QueueTake { me, again } ==> missed == (MutexCall::QueueLook {
            me,
            again,
        }) && got == (MutexCall::QueueCheck { me, again }),
        call matches MutexCall::QueueLeave { me, again } ==> left == (MutexCall::SpinLook {
            me,
            counter: 0,
            again,
        }),
        call matches MutexCall::OwnLook { me } ==> looked == if seen {
            call
        } else {
            MutexCall::OwnTake { me }
        },
        call matches MutexCall::OwnTake { me } ==> missed == (MutexCall::OwnLook { me }) && got == (
        MutexCall::OwnRemove { me }),
        call is DequeueLook ==> looked == if seen {
            call
        } else {
            MutexCall::DequeueTake
        },
        call is DequeueTake ==> missed is DequeueLook && got is DequeuePop,
        call is TryLock ==> missed == MutexCall::Done(MutexOutcome::WouldBlock) && got
            == MutexCall::Done(MutexOutcome::Acquired),
{
}

/// The flag of the queue is raised by the step that goes to the queue, only while it is down, and
/// lowered by the step that leaves it; between the two the call is at the queue. An unlock frees
/// the mutex while it is at the queue, and unparks the thread that it took out, once it has left.
pub proof fn law_queue_is_kept_by_its_flag(
    call: MutexCall,
    action: MutexAction,
    words: MutexWordsView,
    after: MutexWordsView,
    reply: MutexReply,
    next: MutexCall,
    first: Option<usize>,
)
    requires
        call_ensures(MutexCall::action, (&call,), Some(action)),
        interleaving::mutex::possible(words, action, after, reply),
        call_ensures(MutexCall::advance, (call, reply), next),
    ensures
        next is QueueCheck || next is OwnRemove || next is DequeuePop ==> !words.queue_is_accessed
            && after.queue_is_accessed,
        !words.queue_is_accessed && after.queue_is_accessed ==> next is QueueCheck
            || next is OwnRemove || next is DequeuePop,
        call is QueueLeave || call is QueueFree || call is OwnFree || call is DequeueFree
            ==> !after.queue_is_accessed,
        words.queue_is_accessed && !after.queue_is_accessed ==> call is QueueLeave
            || call is QueueFree || call is OwnFree || call is DequeueFree,
        call is OwnRemove ==> next is OwnFree,
        call is OwnFree ==> next == MutexCall::Done(MutexOutcome::Acquired),
        call == (MutexCall::DequeueUnlock { first }) ==> next == (MutexCall::DequeueFree { first }),
        call == (MutexCall::DequeueFree { first }) ==> match first {
            Some(thread) => next == (MutexCall::Unpark { thread }),
            None => next == MutexCall::Done(MutexOutcome::Released(None)),
        },
        call matches MutexCall::Unpark { thread } ==> action == MutexAction::Unpark(thread) && next
            == MutexCall::Done(MutexOutcome::Released(Some(thread))),
        action is Park <==> call is Park,
        action is Unpark <==> call is Unpark,
        call is OwnRemove ==> action == MutexAction::Remove(locker(call)->Some_0),
{
}

/// On ordinary words the actions do what they say. The state and the flag are loaded, taken only if
/// free, and freed; the queue is a queue, which a thread enters at its end, unless it is in it
/// where that is asked, and leaves from its front, or from its place.
pub proof fn law_actions_do_what_they_say(
    words: &mut MutexWords,
    action: MutexAction,
    reply: MutexReply,
    i: int,
)
    requires
        call_ensures(MutexWords::perform, (words, action), reply),
        old(words)@.queue.no_duplicates(),
        action matches MutexAction::Remove(thread) ==> old(words)@.queue.contains(thread) ==> 0
            <= i < old(words)@.queue.len() && old(words)@.queue[i] == thread,
    ensures
        action is LoadState ==> reply == MutexReply::State(old(words)@.state),
        action is LoadFlag ==> reply == MutexReply::Flag(old(words)@.queue_is_accessed),
        action is TakeState || action is TakeStateWeak ==> reply == MutexReply::Taken(
            old(words)@.state == UNLOCKED,
        ) && final(words)@.state == if old(words)@.state == UNLOCKED {
            LOCKED
        } else {
            old(words)@.state
        },
        action is FreeState ==> final(words)@.state == UNLOCKED,
        !(action is TakeState) && !(action is TakeStateWeak) && !(action is FreeState)
            ==> final(words)@.state == old(words)@.state,
        action is TakeFlag ==> reply == MutexReply::Taken(!old(words)@.queue_is_accessed)
            && final(words)@.queue_is_accessed,
        action is FreeFlag ==> !final(words)@.queue_is_accessed,
        !(action is TakeFlag) && !(action is FreeFlag) ==> final(words)@.queue_is_accessed == old(
            words,
        )@.queue_is_accessed,
        action matches MutexAction::Push(thread) ==> final(words)@.queue == old(words)@.queue.push(
            thread,
        ),
        action matches MutexAction::Enter(thread) ==> final(words)@.queue == if old(
            words,
        )@.queue.contains(thread) {
            old(words)@.queue
        } else {
            old(words)@.queue.push(thread)
        },
        action matches MutexAction::Remove(thread) ==> final(words)@.queue == if old(
            words,
        )@.queue.contains(thread) {
            old(words)@.queue.remove(i)
        } else {
            old(words)@.queue
        },
        action is Pop ==> {
            &&& old(words)@.queue.len() > 0 ==> reply == MutexReply::First(
                Some(old(words)@.queue[0]),
            ) && final(words)@.queue == old(words)@.queue.skip(1)
            &&& old(words)@.queue.len() == 0 ==> reply == MutexReply::First(None)
                && final(words)@.queue == old(words)@.queue
        },
        !(action is Push) && !(action is Enter) && !(action is Remove) && !(action is Pop)
            ==> final(words)@.queue == old(words)@.queue,
        action is Park <==> reply is Asleep,
{
    let queue = old(words)@.queue;
    let thread = match action {
        MutexAction::Enter(thread) | MutexAction::Remove(thread) => thread,
        _ => 0,
    };
    crate::mutex::place_is_first(queue, thread, 0);
    let place = crate::mutex::place_in_queue(queue, thread, 0);
    if queue.contains(thread) {
        let j = choose|j: int| 0 <= j < queue.len() && queue[j] == thread;
        assert(queue[j] == thread);
        assert(place == j);
    } else if place < queue.len() {
        assert(queue[place as int] == thread);
    }
}

/// A call that runs by itself goes through the steps of its protocol: what it comes to is what it
/// comes to after its first step. It stops where it parks, and where it is over.
pub proof fn law_run_takes_every_step(
    run: &mut MutexWords,
    start: MutexCall,
    end: MutexCall,
    action: Option<MutexAction>,
    done: MutexAction,
    step: &mut MutexWords,
    reply: MutexReply,
    next: MutexCall,
    rest: &mut MutexWords,
    rest_end: MutexCall,
)
    requires
        start.is_free_to_run(old(run)@),
        call_ensures(MutexWords::run, (run, start), end),
        call_ensures(MutexCall::action, (&start,), action),
        *old(step) == *old(run),
        call_ensures(MutexWords::perform, (step, done), reply),
        call_ensures(MutexCall::advance, (start, reply), next),
        *old(rest) == *final(step),
        action == Some(done) ==> reply is Asleep || next.is_free_to_run(old(rest)@),
        call_ensures(MutexWords::run, (rest, next), rest_end),
    ensures
        action == Some(done) && !(reply is Asleep) ==> end == rest_end && final(run)@ == final(rest)@,
        action == Some(done) && reply is Asleep ==> end == start && final(run)@ == old(run)@,
        action is None ==> end == start && final(run)@ == old(run)@,
{
}

/// On the atomics, the actions on the state and the flag answer, and those about the queue and
/// about threads do not.
pub proof fn law_atomics_answer(raw: RawMutex, action: MutexAction, reply: Option<MutexReply>)
    requires
        call_ensures(RawMutex::perform, (&raw, action), reply),
    ensures
        reply is Some <==> action is LoadState || action is TakeState || action is TakeStateWeak
            || action is FreeState || action is LoadFlag || action is TakeFlag || action is FreeFlag,
        action is LoadState ==> reply->Some_0 is State,
        action is LoadFlag ==> reply->Some_0 is Flag,
        action is TakeState || action is TakeStateWeak || action is TakeFlag
            ==> reply->Some_0 is Taken,
        action is FreeState || action is FreeFlag ==> reply == Some(MutexReply::Done),
{
}

/// Every call can be made on every mutex that no call is in the middle of, and a guard can be used
/// on its mutex.
pub proof fn law_any_mutex_can_be_asked_for<T>(
    mutex: &mut Mutex<T>,
    me: &mut HeldLocks,
    thread: usize,
    guard: MutexGuard,
    held: &mut MutexGuard,
    panicking: bool,
)
    requires
        old(mutex)@.words.state <= LOCKED,
        !old(mutex)@.words.queue_is_accessed,
        guard@ == old(mutex)@.id,
        old(held)@ == old(mutex)@.id,
    ensures
        call_requires(Mutex::<T>::lock, (mutex, me, thread)),
        call_requires(Mutex::<T>::resume, (mutex, MutexCall::Park { me: thread }, me)),
        call_requires(Mutex::<T>::try_lock, (mutex, me)),
        call_requires(Mutex::<T>::clear_poison, (mutex,)),
        call_requires(Mutex::<T>::get_mut, (mutex,)),
        call_requires(MutexGuard::deref::<T>, (&guard, &*old(mutex))),
        call_requires(MutexGuard::deref_mut::<T>, (held, mutex)),
        call_requires(MutexGuard::unlock::<T>, (guard, mutex, me, panicking)),
        SPIN_LIMIT == 100,
{
}

/// The words of a new mutex are those of a free one that nobody waits for.
pub proof fn law_new_words_are_free(words: MutexWords)
    requires
        call_ensures(MutexWords::new, (), words),
    ensures
        words@.state == UNLOCKED,
        !words@.queue_is_accessed,
        words@.queue.len() == 0,
{
}

/// Where each step leads once it is done: a thread that saw the mutex taken while it is at the
/// queue enters the queue, leaves it to others and parks.
pub proof fn law_steps_come_in_order(call: MutexCall, state: u8, seen: MutexCall, done: MutexCall)
    requires
        call_ensures(MutexCall::advance, (call, MutexReply::State(state)), seen),
        call_ensures(MutexCall::advance, (call, MutexReply::Done), done),
    ensures
        call matches MutexCall::QueueCheck { me, again } ==> seen == if state == UNLOCKED {
            MutexCall::QueueLeave { me, again }
        } else {
            MutexCall::QueuePush { me, again }
        },
        call matches MutexCall::QueuePush { me, .. } ==> done == (MutexCall::QueueFree { me }),
        call matches MutexCall::QueueFree { me } ==> done == (MutexCall::Park { me }),
        call matches MutexCall::Park { me } ==> done == (MutexCall::SpinLook {
            me,
            counter: 0,
            again: true,
        }),
        call matches MutexCall::OwnRemove { me } ==> done == (MutexCall::OwnFree { me }),
        call is Done ==> seen == call && done == call,
{
}

} // verus!
