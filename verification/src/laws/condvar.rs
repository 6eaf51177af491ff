//! What a [`condvar`](crate::condvar) is for.

use crate::condvar::{
    CondAction, CondCall, CondOutcome, CondVar, CondWait, CondWord, CondWords, RawCondVar,
};
use crate::laws;
use crate::mutex::{Mutex, MutexCall, MutexGuard, LOCKED, UNLOCKED};
use crate::utils::mutex_common::{HeldLocks, Progress, Wake};
use crate::word::{Action, Op, Order, Reply};
use vstd::prelude::*;

verus! {

/// Nobody waits for a new condition variable.
pub proof fn law_nobody_waits_at_first(cond: CondVar, waiting: u32)
    requires
        call_ensures(CondVar::new, (), cond),
        call_ensures(CondVar::waiting, (&cond,), waiting),
    ensures
        waiting == 0,
{
}

/// A `wait` gives up the mutex as an unlock does: the mutex is free, the thread that was first in
/// its queue has to be unparked, and this thread does not hold it any more. The data stays. The
/// thread is counted among those that wait, and sleeps.
pub proof fn law_wait_gives_up_the_mutex<T>(
    cond: &mut CondVar,
    guard: MutexGuard,
    mutex: &mut Mutex<T>,
    me: &mut HeldLocks,
    panicking: bool,
    res: (Option<usize>, CondWait),
    same: MutexGuard,
    unlocked: &mut Mutex<T>,
    holder: &mut HeldLocks,
    first: Option<usize>,
)
    requires
        guard@ == old(mutex)@.id,
        old(mutex)@.words.at_rest(),
        call_ensures(CondVar::wait::<T>, (cond, guard, mutex, me, panicking), res),
        same@ == guard@,
        *old(unlocked) == *old(mutex),
        *old(holder) == *old(me),
        call_ensures(MutexGuard::unlock::<T>, (same, unlocked, holder, panicking), first),
    ensures
        final(mutex)@ == final(unlocked)@,
        final(me)@ == final(holder)@,
        res.0 == first,
        final(mutex)@.words.state == UNLOCKED,
        final(mutex)@.data == old(mutex)@.data,
        !final(me)@.contains(old(mutex)@.id),
        res.1 matches CondWait::Sleeping(call) && call is WaitSleep,
        final(cond)@.waiting == laws::one_more(old(cond)@.waiting),
        final(cond)@.counter == old(cond)@.counter,
{
}

/// Without a notification a `wait` does not go on: nothing changes.
pub proof fn law_wait_sleeps_without_a_notification<T>(
    cond: &mut CondVar,
    guard: MutexGuard,
    mutex: &mut Mutex<T>,
    me: &mut HeldLocks,
    panicking: bool,
    res: (Option<usize>, CondWait),
    resumed: &mut CondVar,
    locked: &mut Mutex<T>,
    waiter: &mut HeldLocks,
    thread: usize,
    progress: Progress<MutexGuard, CondWait>,
)
    requires
        guard@ == old(mutex)@.id,
        old(mutex)@.words.at_rest(),
        call_ensures(CondVar::wait::<T>, (cond, guard, mutex, me, panicking), res),
        *old(resumed) == *final(cond),
        old(locked)@.words.at_rest(),
        !old(locked)@.poisoned,
        !old(waiter)@.contains(old(locked)@.id),
        call_ensures(CondVar::resume::<T>, (resumed, res.1, locked, waiter, thread), progress),
    ensures
        progress == Progress::<MutexGuard, CondWait>::Pending(res.1),
        final(resumed)@ == old(resumed)@,
        final(locked)@ == old(locked)@,
        final(waiter)@ == old(waiter)@,
{
}

/// After a notification of either kind a `wait` goes on, whichever it is, and is no longer counted
/// among those that wait. It locks the mutex again: it has the mutex if it is free, and otherwise
/// waits for it. Somebody who waits is woken.
pub proof fn law_notified_wait_locks_the_mutex_again<T>(
    cond: &mut CondVar,
    guard: MutexGuard,
    mutex: &mut Mutex<T>,
    me: &mut HeldLocks,
    panicking: bool,
    res: (Option<usize>, CondWait),
    one: &mut CondVar,
    one_wake: Wake,
    all: &mut CondVar,
    all_wake: Wake,
    resumed: &mut CondVar,
    locked: &mut Mutex<T>,
    waiter: &mut HeldLocks,
    thread: usize,
    progress: Progress<MutexGuard, CondWait>,
)
    requires
        guard@ == old(mutex)@.id,
        old(mutex)@.words.at_rest(),
        old(cond)@.waiting < u32::MAX,
        call_ensures(CondVar::wait::<T>, (cond, guard, mutex, me, panicking), res),
        *old(one) == *final(cond),
        call_ensures(CondVar::notify_one, (one,), one_wake),
        *old(all) == *final(cond),
        call_ensures(CondVar::notify_all, (all,), all_wake),
        *old(resumed) == *final(one) || *old(resumed) == *final(all),
        old(locked)@.words.at_rest(),
        !old(locked)@.poisoned,
        !old(waiter)@.contains(old(locked)@.id),
        call_ensures(CondVar::resume::<T>, (resumed, res.1, locked, waiter, thread), progress),
    ensures
        one_wake == Wake::One,
        all_wake == Wake::All,
        final(resumed)@.waiting == old(cond)@.waiting,
        progress is Finished <==> old(locked)@.words.state == UNLOCKED,
        progress matches Progress::Finished(relocked) ==> {
            &&& relocked@ == old(locked)@.id
            &&& final(locked)@.words.state == LOCKED
            &&& final(locked)@.data == old(locked)@.data
            &&& final(waiter)@ == old(waiter)@.insert(old(locked)@.id)
        },
        progress matches Progress::Pending(waiting) ==> {
            &&& waiting == CondWait::Locking(MutexCall::Park { me: thread })
            &&& final(locked)@.words.state == old(locked)@.words.state
            &&& final(locked)@.words.queue == old(locked)@.words.queue.push(thread)
            &&& final(waiter)@ == old(waiter)@
        },
{
}

/// A `wait` that waits for the mutex has it as soon as it is free, and keeps its place in the queue
/// until then. It does not look at the condition variable again.
pub proof fn law_wait_for_the_mutex_is_a_lock<T>(
    resumed: &mut CondVar,
    wait: CondWait,
    locked: &mut Mutex<T>,
    waiter: &mut HeldLocks,
    thread: usize,
    progress: Progress<MutexGuard, CondWait>,
)
    requires
        wait == CondWait::Locking(MutexCall::Park { me: thread }),
        old(locked)@.words.at_rest(),
        !old(locked)@.poisoned,
        !old(waiter)@.contains(old(locked)@.id),
        call_ensures(CondVar::resume::<T>, (resumed, wait, locked, waiter, thread), progress),
    ensures
        final(resumed)@ == old(resumed)@,
        progress is Finished <==> old(locked)@.words.state == UNLOCKED,
        progress matches Progress::Finished(guard) ==> guard@ == old(locked)@.id
            && final(locked)@.words.state == LOCKED && final(waiter)@ == old(waiter)@.insert(
            old(locked)@.id,
        ),
        progress is Pending ==> progress->Pending_0 == wait && final(waiter)@ == old(waiter)@,
        old(locked)@.words.queue.contains(thread) && progress is Pending
            ==> final(locked)@.words.queue == old(locked)@.words.queue,
        final(locked)@.data == old(locked)@.data,
        final(locked)@.id == old(locked)@.id,
{
    crate::mutex::place_is_first(old(locked)@.words.queue, thread, 0);
}

/// A notification changes the number of notifications, so nobody that saw the old one goes to
/// sleep, and leaves the number of those that wait. `notify_one` wakes one; `notify_all` wakes all,
/// if somebody waits.
pub proof fn law_notifications_are_counted(
    one: &mut CondVar,
    one_wake: Wake,
    all: &mut CondVar,
    all_wake: Wake,
)
    requires
        call_ensures(CondVar::notify_one, (one,), one_wake),
        call_ensures(CondVar::notify_all, (all,), all_wake),
    ensures
        final(one)@.counter != old(one)@.counter,
        final(all)@.counter != old(all)@.counter,
        final(one)@.waiting == old(one)@.waiting,
        final(all)@.waiting == old(all)@.waiting,
        one_wake == Wake::One,
        all_wake == Wake::All <==> old(all)@.waiting > 0,
        all_wake == Wake::Nobody <==> old(all)@.waiting == 0,
        final(one)@.counter == laws::one_more(old(one)@.counter),
        final(all)@.counter == laws::one_more(old(all)@.counter),
{
}

/// Which call a step belongs to.
pub enum CondKind {
    Wait,
    NotifyOne,
    NotifyAll,
}

/// The steps of each call, and the ways in which it can end.
pub open spec fn is_of_kind(call: CondCall, kind: CondKind) -> bool {
    match kind {
        CondKind::Wait => call is WaitLook || call is WaitEnter || call is WaitUnlock
            || call is WaitSleep || call is WaitLeave || call is WaitLock || call == CondCall::Done(
            CondOutcome::Woken,
        ),
        CondKind::NotifyOne => call is NotifyOne || call is NotifyOneWake || call == CondCall::Done(
            CondOutcome::Notified(Wake::One),
        ),
        CondKind::NotifyAll => call is NotifyAll || call is NotifyAllLook || call is NotifyAllWake
            || call == CondCall::Done(CondOutcome::Notified(Wake::All)) || call == CondCall::Done(
            CondOutcome::Notified(Wake::Nobody),
        ),
    }
}

/// Every step leads to a step of the same call, or to one of its ends, whatever the other threads
/// do. A call that is over takes no step, and every other call does.
pub proof fn law_calls_keep_their_kind(
    call: CondCall,
    kind: CondKind,
    reply: Reply<u32>,
    next: CondCall,
    raw: RawCondVar,
    stepped: CondCall,
    action: Option<CondAction>,
)
    requires
        is_of_kind(call, kind),
        call_ensures(CondCall::advance, (call, reply), next),
        call_ensures(RawCondVar::step, (&raw, call), stepped),
        call_ensures(CondCall::action, (&call,), action),
    ensures
        is_of_kind(next, kind),
        is_of_kind(stepped, kind),
        action is None <==> call is Done,
        call is WaitUnlock || call is WaitLock ==> stepped == call,
{
}

/// The order of the steps of a `wait`: it sees the number of notifications and is counted before it
/// gives up the mutex, sleeps on the number that it saw, and locks the mutex when it is no longer
/// counted. So a notification that comes after it gave up the mutex is not missed.
pub proof fn law_wait_looks_before_it_unlocks(
    call: CondCall,
    action: CondAction,
    value: u32,
    looked: CondCall,
    next: CondCall,
)
    requires
        call_ensures(CondCall::action, (&call,), Some(action)),
        call_ensures(CondCall::advance, (call, Reply::Value(value)), looked),
        call_ensures(CondCall::advance, (call, Reply::Done), next),
    ensures
        call is WaitLook ==> action == CondAction::Word(
            Action::Word(CondWord::Counter, Op::Load(Order::Relaxed)),
        ) && looked == (CondCall::WaitEnter { seen: value }),
        call matches CondCall::WaitEnter { seen } ==> action == CondAction::Word(
            Action::Word(CondWord::Waiting, Op::FetchAdd(1, Order::Relaxed)),
        ) && looked == (CondCall::WaitUnlock { seen }),
        call matches CondCall::WaitUnlock { seen } ==> action is Unlock && next == (
        CondCall::WaitSleep { seen }),
        call matches CondCall::WaitSleep { seen } ==> action == CondAction::Word(
            Action::Wait(CondWord::Counter, seen),
        ) && next is WaitLeave,
        call is WaitLeave ==> action == CondAction::Word(
            Action::Word(CondWord::Waiting, Op::FetchSub(1, Order::Relaxed)),
        ) && looked is WaitLock,
        call is WaitLock ==> action is Lock && next == CondCall::Done(CondOutcome::Woken),
        action is Unlock ==> call is WaitUnlock,
        action is Lock ==> call is WaitLock,
{
}

/// The order of the steps of a notification: it is counted first, and then whoever sleeps on the
/// number is woken: one by `notify_one`, and all by `notify_all`, if it saw somebody wait.
pub proof fn law_notifications_are_counted_before_they_wake(
    call: CondCall,
    action: CondAction,
    value: u32,
    looked: CondCall,
    next: CondCall,
)
    requires
        call_ensures(CondCall::action, (&call,), Some(action)),
        call_ensures(CondCall::advance, (call, Reply::Value(value)), looked),
        call_ensures(CondCall::advance, (call, Reply::Done), next),
    ensures
        call is NotifyOne || call is NotifyAll ==> action == CondAction::Word(
            Action::Word(CondWord::Counter, Op::FetchAdd(1, Order::Relaxed)),
        ),
        call is NotifyOne ==> looked is NotifyOneWake,
        call is NotifyAll ==> looked is NotifyAllLook,
        call is NotifyOneWake ==> action == CondAction::Word(Action::WakeOne(CondWord::Counter))
            && next == CondCall::Done(CondOutcome::Notified(Wake::One)),
        call is NotifyAllLook ==> action == CondAction::Word(
            Action::Word(CondWord::Waiting, Op::Load(Order::Relaxed)),
        ) && (looked is NotifyAllWake <==> value > 0) && (looked == CondCall::Done(
            CondOutcome::Notified(Wake::Nobody),
        ) <==> value == 0),
        call is NotifyAllWake ==> action == CondAction::Word(Action::WakeAll(CondWord::Counter))
            && next == CondCall::Done(CondOutcome::Notified(Wake::All)),
{
}

/// A call that runs by itself goes through the steps of its protocol that are on the words. It
/// stops where the step is a wait that does not end, or is about the mutex, and where the call is
/// over.
pub proof fn law_run_takes_every_step(
    run: &mut CondWords,
    start: CondCall,
    end: CondCall,
    action: Option<CondAction>,
    on_words: Action<CondWord>,
    step: &mut CondWords,
    reply: Reply<u32>,
    next: CondCall,
    rest: &mut CondWords,
    rest_end: CondCall,
)
    requires
        call_ensures(CondWords::run, (run, start), end),
        call_ensures(CondCall::action, (&start,), action),
        *old(step) == *old(run),
        call_ensures(CondWords::perform, (step, on_words), reply),
        call_ensures(CondCall::advance, (start, reply), next),
        *old(rest) == *final(step),
        call_ensures(CondWords::run, (rest, next), rest_end),
    ensures
        action == Some(CondAction::Word(on_words)) && !(reply is Asleep) ==> end == rest_end
            && *final(run) == *final(rest),
        action == Some(CondAction::Word(on_words)) && reply is Asleep ==> end == start
            && *final(run) == *old(run),
        !(action is Some && action->Some_0 is Word) ==> end == start && *final(run) == *old(run),
{
}

/// An action changes the word that it names as the operation does, and no other one. A wait goes on
/// exactly while the word has the value, and neither waits nor wake-up calls change anything.
pub proof fn law_actions_touch_one_word(
    words: &mut CondWords,
    action: Action<CondWord>,
    reply: Reply<u32>,
    word: &mut u32,
    op: Op<u32>,
    op_reply: Reply<u32>,
)
    requires
        call_ensures(CondWords::perform, (words, action), reply),
        call_ensures(Op::<u32>::apply, (op, word), op_reply),
    ensures
        action == Action::Word(CondWord::Counter, op) && *old(word) == old(words).counter ==> {
            &&& *final(words) == (CondWords { counter: *final(word), ..*old(words) })
            &&& reply == op_reply
        },
        action == Action::Word(CondWord::Waiting, op) && *old(word) == old(words).waiting ==> {
            &&& *final(words) == (CondWords { waiting: *final(word), ..*old(words) })
            &&& reply == op_reply
        },
        !(action is Word) ==> *final(words) == *old(words),
        action matches Action::Wait(CondWord::Counter, value) ==> (reply is Asleep <==> old(
            words,
        ).counter == value),
        action matches Action::Wait(CondWord::Waiting, value) ==> (reply is Asleep <==> old(
            words,
        ).waiting == value),
        action is WakeOne || action is WakeAll ==> reply is Done,
{
}

/// On atomic words a step is a step of the protocol: its action is performed, and the call goes
/// where the protocol leads with the reply that came back. A call that has no such step stays where
/// it is.
pub proof fn law_raw_step_is_a_step_of_the_protocol(
    raw: RawCondVar,
    call: CondCall,
    next: CondCall,
    action: Option<CondAction>,
)
    requires
        call_ensures(RawCondVar::step, (&raw, call), next),
        call_ensures(CondCall::action, (&call,), action),
    ensures
        action is None ==> next == call,
        action matches Some(CondAction::Word(act)) ==> exists|reply: Reply<u32>|
            {
                &&& #[trigger] raw.performed(act, reply)
                &&& act.fits(reply)
                &&& forall|led: CondCall| #[trigger]
                    call_ensures(CondCall::advance, (call, reply), led) ==> led == next
            },
{
}

/// Every call can be made on every condition variable, with a guard of a mutex that no call is in
/// the middle of; a `wait` can go on at any time, for a thread that does not hold the mutex, unless
/// the mutex is poisoned.
pub proof fn law_any_condition_can_be_waited_for<T>(
    cond: &mut CondVar,
    guard: MutexGuard,
    mutex: &mut Mutex<T>,
    me: &mut HeldLocks,
    panicking: bool,
    seen: u32,
    thread: usize,
)
    requires
        old(mutex)@.words.state <= LOCKED,
        !old(mutex)@.words.queue_is_accessed,
        guard@ == old(mutex)@.id,
    ensures
        call_requires(CondVar::wait::<T>, (cond, guard, mutex, me, panicking)),
        !old(mutex)@.poisoned && !old(me)@.contains(old(mutex)@.id) ==> call_requires(
            CondVar::resume::<T>,
            (cond, CondWait::Sleeping(CondCall::WaitSleep { seen }), mutex, me, thread),
        ) && call_requires(
            CondVar::resume::<T>,
            (cond, CondWait::Locking(MutexCall::Park { me: thread }), mutex, me, thread),
        ),
        call_requires(CondVar::notify_one, (cond,)),
        call_requires(CondVar::notify_all, (cond,)),
{
}

/// A `wait` locks the mutex as any other thread does: after a notification as a `lock` that starts
/// then, and once it waits for the mutex as a `lock` that goes on.
pub proof fn law_wait_locks_as_any_thread_does<T>(
    cond: &mut CondVar,
    wait: CondWait,
    mutex: &mut Mutex<T>,
    waiter: &mut HeldLocks,
    thread: usize,
    progress: Progress<MutexGuard, CondWait>,
    locked: &mut Mutex<T>,
    locker: &mut HeldLocks,
    res: Progress<crate::mutex::LockResult, MutexCall>,
    seen: u32,
)
    requires
        old(mutex)@.words.at_rest(),
        !old(mutex)@.poisoned,
        !old(waiter)@.contains(old(mutex)@.id),
        call_ensures(CondVar::resume::<T>, (cond, wait, mutex, waiter, thread), progress),
        *old(locked) == *old(mutex),
        *old(locker) == *old(waiter),
        wait == CondWait::Sleeping((CondCall::WaitSleep { seen })) || wait == CondWait::Locking(
            (MutexCall::Park { me: thread }),
        ),
        wait is Sleeping ==> seen != old(cond)@.counter && call_ensures(
            Mutex::<T>::lock,
            (locked, locker, thread),
            res,
        ),
        wait is Locking ==> call_ensures(
            Mutex::<T>::resume,
            (locked, (MutexCall::Park { me: thread }), locker),
            res,
        ),
    ensures
        final(mutex)@ == final(locked)@,
        final(waiter)@ == final(locker)@,
        progress is Finished <==> res is Finished,
        res matches Progress::Pending(call) ==> progress == Progress::<
            MutexGuard,
            CondWait,
        >::Pending(CondWait::Locking(call)),
        progress matches Progress::Finished(guard) ==> guard@ == old(mutex)@.id,
{
}

/// A notified `wait` that goes on is counted no more among those that wait, however many they are.
pub proof fn law_notified_wait_is_counted_no_more<T>(
    cond: &mut CondVar,
    mutex: &mut Mutex<T>,
    waiter: &mut HeldLocks,
    thread: usize,
    progress: Progress<MutexGuard, CondWait>,
    seen: u32,
)
    requires
        old(mutex)@.words.at_rest(),
        !old(mutex)@.poisoned,
        !old(waiter)@.contains(old(mutex)@.id),
        seen != old(cond)@.counter,
        call_ensures(
            CondVar::resume::<T>,
            (cond, CondWait::Sleeping((CondCall::WaitSleep { seen })), mutex, waiter, thread),
            progress,
        ),
    ensures
        final(cond)@.waiting == laws::one_less(old(cond)@.waiting),
        final(cond)@.counter == old(cond)@.counter,
{
}

} // verus!
