//! What a [`spinlock`](crate::spinlock) is for.

use crate::spinlock::{
    RawSpinLock, SpinCall, SpinGuard, SpinLock, SpinLockView, SpinOutcome, UNLOCKED,
};
use crate::utils::mutex_common::Progress;
use crate::word::{Op, Order, Reply};
use vstd::prelude::*;

verus! {

/// A new lock is free, and its data is what it was made with: a thread that locks it has it, and
/// sees the data.
pub proof fn law_new_lock_is_free<T>(
    data: T,
    made: SpinLock<T>,
    lock: &mut SpinLock<T>,
    me: usize,
    guard: SpinGuard,
    seen: T,
)
    requires
        me != UNLOCKED,
        call_ensures(SpinLock::<T>::new, (data,), made),
        *old(lock) == made,
        call_ensures(
            SpinLock::<T>::lock_as,
            (lock, me),
            Progress::<SpinGuard, SpinCall>::Finished(guard),
        ),
        call_ensures(SpinGuard::deref::<T>, (&guard, &*final(lock)), &seen),
    ensures
        made@.locking_thread == UNLOCKED,
        guard@ == me,
        final(lock)@.locking_thread == me,
        seen == data,
{
}

/// A thread gets a lock that nobody has. If another thread has it, the thread looks again, and
/// nothing changes. A thread that has it already gets neither the lock nor a call that waits for
/// it, and nothing changes.
pub proof fn law_lock_is_taken_once<T>(
    lock: &mut SpinLock<T>,
    me: usize,
    res: Option<Progress<SpinGuard, SpinCall>>,
)
    requires
        me != UNLOCKED,
        call_ensures(SpinLock::<T>::lock_unless_held, (lock, me), res),
    ensures
        res is None <==> old(lock)@.locking_thread == me,
        res matches Some(progress) ==> {
            &&& progress is Finished <==> old(lock)@.locking_thread == UNLOCKED
            &&& progress matches Progress::Finished(guard) ==> guard@ == me
                && final(lock)@.locking_thread == me
            &&& progress matches Progress::Pending(call) ==> call == (SpinCall::Look { me })
                && final(lock)@ == old(lock)@
        },
        res is None ==> final(lock)@ == old(lock)@,
        final(lock)@.data == old(lock)@.data,
{
}

/// A thread that is known not to have the lock gets it as any other: where nobody has it.
pub proof fn law_locking_as_a_thread_is_locking<T>(
    as_thread: &mut SpinLock<T>,
    me: usize,
    progress: Progress<SpinGuard, SpinCall>,
    any: &mut SpinLock<T>,
    res: Option<Progress<SpinGuard, SpinCall>>,
)
    requires
        old(as_thread)@.locking_thread != me,
        *old(as_thread) == *old(any),
        call_ensures(SpinLock::<T>::lock_as, (as_thread, me), progress),
        call_ensures(SpinLock::<T>::lock_unless_held, (any, me), res),
    ensures
        final(as_thread)@ == final(any)@,
        res is Some,
        progress is Finished <==> res->Some_0 is Finished,
        progress is Finished <==> old(any)@.locking_thread == UNLOCKED,
        progress is Pending ==> Some(progress) == res,
{
}

/// The current thread locks as the thread with its number does: it gets a lock that nobody has,
/// looks again if another thread has it, and is told if it has the lock already.
pub proof fn law_current_thread_locks_with_its_number<T>(
    lock: &mut SpinLock<T>,
    res: Option<Progress<SpinGuard, SpinCall>>,
)
    requires
        call_ensures(SpinLock::<T>::lock, (lock,), res),
    ensures
        res is None ==> final(lock)@ == old(lock)@ && crate::spinlock::is_current_thread(
            old(lock)@.locking_thread,
        ),
        res matches Some(Progress::Finished(guard)) ==> {
            &&& old(lock)@.locking_thread == UNLOCKED
            &&& crate::spinlock::is_current_thread(guard@)
            &&& final(lock)@ == (SpinLockView { locking_thread: guard@, ..old(lock)@ })
        },
        res matches Some(Progress::Pending(call)) ==> {
            &&& old(lock)@.locking_thread != UNLOCKED
            &&& final(lock)@ == old(lock)@
            &&& call matches SpinCall::Look { me } && crate::spinlock::is_current_thread(me)
        },
{
}

/// A thread that releases the lock leaves it free, for any thread to take; the data stays.
pub proof fn law_released_lock_can_be_taken<T>(
    guard: SpinGuard,
    freed: &mut SpinLock<T>,
    taken: &mut SpinLock<T>,
    other: usize,
    progress: Progress<SpinGuard, SpinCall>,
)
    requires
        guard@ == old(freed)@.locking_thread,
        call_ensures(SpinGuard::unlock::<T>, (guard, freed), ()),
        other != UNLOCKED,
        *old(taken) == *final(freed),
        call_ensures(SpinLock::<T>::lock_as, (taken, other), progress),
    ensures
        final(freed)@.locking_thread == UNLOCKED,
        final(freed)@.data == old(freed)@.data,
        progress matches Progress::Finished(next) && next@ == other,
        final(taken)@.locking_thread == other,
        final(taken)@.data == old(freed)@.data,
{
}

/// A guard shows the data of its lock. What is changed through it is the data, and nothing else.
pub proof fn law_guard_shows_the_data<T>(
    lock: SpinLock<T>,
    guard: SpinGuard,
    seen: T,
    held: &mut SpinLock<T>,
    mine: &mut SpinGuard,
    data: &mut T,
)
    requires
        guard@ == lock@.locking_thread,
        call_ensures(SpinGuard::deref::<T>, (&guard, &lock), &seen),
        *old(held) == lock,
        old(mine)@ == lock@.locking_thread,
        call_ensures(SpinGuard::deref_mut::<T>, (mine, held), data),
    ensures
        seen == lock@.data,
        *old(data) == lock@.data,
        final(held)@.data == *final(data),
        final(held)@.locking_thread == lock@.locking_thread,
        final(mine)@ == old(mine)@,
{
}

/// What one step does among threads that interleave. A thread takes the lock only where nobody has
/// it, and is told that it has it already exactly where it sees its own number. In every other case
/// it looks again. Only an unlock frees the lock. Every step of a thread's call stays with the
/// thread.
pub proof fn law_lock_is_taken_in_one_step(
    call: SpinCall,
    op: Op<usize>,
    word: usize,
    after: usize,
    reply: Reply<usize>,
    next: SpinCall,
    me: usize,
)
    requires
        call_ensures(SpinCall::action, (&call,), Some(op)),
        op.possible(word, after, reply),
        call_ensures(SpinCall::advance, (call, reply), next),
        call == (SpinCall::Look { me }) || call == (SpinCall::Take { me }) || call is Unlock,
        me != UNLOCKED,
    ensures
        next == SpinCall::Done(SpinOutcome::Acquired) ==> call is Take && word == UNLOCKED && after
            == me,
        after != word ==> next == SpinCall::Done(SpinOutcome::Acquired) || call is Unlock,
        call is Unlock ==> after == UNLOCKED && next == SpinCall::Done(SpinOutcome::Released),
        next == SpinCall::Done(SpinOutcome::Released) ==> call is Unlock,
        next == SpinCall::Done(SpinOutcome::Reentrant) <==> call is Look && word == me,
        call is Look && word == UNLOCKED ==> next == (SpinCall::Take { me }),
        call is Look && word != UNLOCKED && word != me ==> next == (SpinCall::Look { me }),
        call is Take ==> next == SpinCall::Done(SpinOutcome::Acquired) || next == (
        SpinCall::Look { me }),
{
}

/// On the atomic, a step of a call leads where the protocol leads: a call of a thread stays with
/// the thread or ends, and an unlock ends.
pub proof fn law_steps_stay_with_the_thread(
    raw: RawSpinLock,
    started: SpinCall,
    call: SpinCall,
    me: usize,
    next: SpinCall,
    action: Option<Op<usize>>,
)
    requires
        call_ensures(RawSpinLock::lock, (&raw,), started),
        call_ensures(RawSpinLock::step, (&raw, call), next),
        call_ensures(SpinCall::action, (&call,), action),
    ensures
        started matches SpinCall::Look { me } && crate::spinlock::is_current_thread(me),
        action is None <==> call is Done,
        call is Done ==> next == call,
        call is Unlock ==> next == SpinCall::Done(SpinOutcome::Released),
        call == (SpinCall::Look { me }) ==> next == call || next == (SpinCall::Take { me }) || next
            == SpinCall::Done(SpinOutcome::Reentrant),
        call == (SpinCall::Take { me }) ==> next == (SpinCall::Look { me }) || next
            == SpinCall::Done(SpinOutcome::Acquired),
{
}

/// The lock is looked at before it is taken, taken with an acquiring operation and freed with a
/// releasing one, so what is done under it is seen by the thread that has it next.
pub proof fn law_lock_orders_memory(me: usize, call: SpinCall, op: Op<usize>)
    requires
        call_ensures(SpinCall::action, (&call,), Some(op)),
    ensures
        call == (SpinCall::Look { me }) ==> op is Load,
        call == (SpinCall::Take { me }) ==> op == (Op::CompareExchangeWeak {
            current: UNLOCKED,
            new: me,
            order: Order::Acquire,
        }),
        call is Unlock ==> op == Op::Store(UNLOCKED, Order::Release),
{
}

/// A call that runs by itself goes through the steps of its protocol until it is over, or looks at
/// a lock that another thread has.
pub proof fn law_run_takes_every_step(
    run: &mut usize,
    start: SpinCall,
    end: SpinCall,
    op: Op<usize>,
    step: &mut usize,
    reply: Reply<usize>,
    next: SpinCall,
    rest: &mut usize,
    rest_end: SpinCall,
)
    requires
        call_ensures(SpinCall::run, (start, run), end),
        call_ensures(SpinCall::action, (&start,), Some(op)),
        *old(step) == *old(run),
        call_ensures(Op::<usize>::apply, (op, step), reply),
        call_ensures(SpinCall::advance, (start, reply), next),
        *old(rest) == *final(step),
        call_ensures(SpinCall::run, (next, rest), rest_end),
    ensures
        end == rest_end,
        *final(run) == *final(rest),
        end is Done || end is Look && *final(run) != UNLOCKED,
{
}

/// On atomic words a step is a step of the protocol: its action is performed, and the call goes
/// where the protocol leads with the reply that came back. A call that has no such step stays where
/// it is.
pub proof fn law_raw_step_is_a_step_of_the_protocol(
    raw: RawSpinLock,
    call: SpinCall,
    next: SpinCall,
    action: Option<Op<usize>>,
)
    requires
        call_ensures(RawSpinLock::step, (&raw, call), next),
        call_ensures(SpinCall::action, (&call,), action),
    ensures
        action is None ==> next == call,
        action matches Some(act) ==> exists|reply: Reply<usize>|
            {
                &&& #[trigger] raw.performed(act, reply)
                &&& act.fits(reply)
                &&& forall|led: SpinCall| #[trigger]
                    call_ensures(SpinCall::advance, (call, reply), led) ==> led == next
            },
{
}

/// Every thread can ask for every lock, and a guard can be used on its lock.
pub proof fn law_any_lock_can_be_asked_for<T>(
    lock: &mut SpinLock<T>,
    me: usize,
    guard: SpinGuard,
    held: &mut SpinGuard,
)
    requires
        guard@ == old(lock)@.locking_thread,
        old(held)@ == old(lock)@.locking_thread,
    ensures
        call_requires(SpinLock::<T>::lock, (lock,)),
        call_requires(SpinLock::<T>::lock_unless_held, (lock, me)),
        old(lock)@.locking_thread != me ==> call_requires(SpinLock::<T>::lock_as, (lock, me)),
        call_requires(SpinGuard::deref::<T>, (&guard, &*old(lock))),
        call_requires(SpinGuard::deref_mut::<T>, (held, lock)),
        call_requires(SpinGuard::unlock::<T>, (guard, lock)),
{
}

} // verus!
