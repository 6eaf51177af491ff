//! What a [`mutex`](crate::advanced_mutex) on which threads sleep is for.

use crate::advanced_mutex::{
    LockResult, Mutex, MutexCall, MutexGuard, MutexOutcome, MutexView, MutexWord, MutexWords,
    RawMutex, CONTENDED, LOCKED, SPIN_LIMIT, UNLOCKED,
};
use crate::interleaving;
use crate::mutex;
use crate::utils::mutex_common::{HeldLocks, Identities, LockError, Progress, Wake};
use crate::word::{Action, Op, Order, Reply};
use vstd::prelude::*;

verus! {

/// Somebody has the mutex.
pub open spec fn is_taken<T>(mutex: MutexView<T>) -> bool {
    mutex.state != UNLOCKED
}

/// A result hands out the mutex: a guard of it, which comes with a warning if the mutex is
/// poisoned.
pub open spec fn hands_out<T>(mutex: MutexView<T>, res: LockResult) -> bool {
    &&& res matches Ok(guard) ==> guard@ == mutex.id && !mutex.poisoned
    &&& res matches Err(error) ==> error is Poisoned && error->Poisoned_0.guard@ == mutex.id
        && mutex.poisoned
}

/// A result says that the mutex is taken.
pub open spec fn is_refusal(res: LockResult) -> bool {
    res matches Err(LockError::WouldBlock)
}

/// Nothing but the word differs.
pub open spec fn same_but_word<T>(before: MutexView<T>, after: MutexView<T>) -> bool {
    &&& after.id == before.id
    &&& after.data == before.data
    &&& after.poisoned == before.poisoned
}

/// A new mutex is free, it is not poisoned, and its data is what it was made with.
pub proof fn law_new_mutex_is_free<T>(
    ids: &mut Identities,
    data: T,
    mutex: Mutex<T>,
    tried: &mut Mutex<T>,
    me: &mut HeldLocks,
    res: LockResult,
    inner: T,
    poisoned: bool,
)
    requires
        call_ensures(Mutex::<T>::new, (ids, data), mutex),
        *old(tried) == mutex,
        !old(me)@.contains(mutex@.id),
        call_ensures(Mutex::<T>::try_lock, (tried, me), res),
        call_ensures(Mutex::<T>::into_inner, (mutex,), inner),
        call_ensures(Mutex::<T>::is_poisoned, (&mutex,), poisoned),
    ensures
        res is Ok,
        inner == data,
        !poisoned,
        mutex@.id == old(ids)@,
        final(ids)@ != old(ids)@,
        !is_taken(mutex@),
{
}

/// A thread that has the mutex is refused by `lock` and `try_lock`, and nothing changes. No other
/// thread is refused by `lock`.
pub proof fn law_only_holders_are_refused<T>(
    mutex: &mut Mutex<T>,
    me: &mut HeldLocks,
    res: Progress<LockResult, MutexCall>,
    tried: &mut Mutex<T>,
    trier: &mut HeldLocks,
    handed: LockResult,
)
    requires
        call_ensures(Mutex::<T>::lock, (mutex, me), res),
        call_ensures(Mutex::<T>::try_lock, (tried, trier), handed),
    ensures
        res is Finished && is_refusal(res->Finished_0) <==> old(me)@.contains(old(mutex)@.id),
        old(me)@.contains(old(mutex)@.id) ==> final(mutex)@ == old(mutex)@ && final(me)@ == old(
            me,
        )@,
        old(trier)@.contains(old(tried)@.id) ==> is_refusal(handed) && final(tried)@ == old(tried)@
            && final(trier)@ == old(trier)@,
{
}

/// A `lock` gets a free mutex. Otherwise it goes to sleep, and the word says that somebody sleeps;
/// the mutex stays taken.
pub proof fn law_lock_takes_a_free_mutex_or_sleeps<T>(
    mutex: &mut Mutex<T>,
    me: &mut HeldLocks,
    res: Progress<LockResult, MutexCall>,
)
    requires
        !old(me)@.contains(old(mutex)@.id),
        call_ensures(Mutex::<T>::lock, (mutex, me), res),
    ensures
        res is Finished <==> !is_taken(old(mutex)@),
        res matches Progress::Finished(handed) ==> {
            &&& hands_out(old(mutex)@, handed)
            &&& final(mutex)@.state == LOCKED
            &&& final(me)@ == old(me)@.insert(old(mutex)@.id)
        },
        res matches Progress::Pending(call) ==> {
            &&& call == MutexCall::SlowSleep
            &&& final(mutex)@.state == CONTENDED
            &&& is_taken(final(mutex)@)
            &&& final(me)@ == old(me)@
        },
        same_but_word(old(mutex)@, final(mutex)@),
{
}

/// A `try_lock` gets the mutex exactly where a `lock` gets it at once, and does the same then.
/// Otherwise it is refused, and nothing changes.
pub proof fn law_try_lock_is_lock_without_waiting<T>(
    tried: &mut Mutex<T>,
    trier: &mut HeldLocks,
    handed: LockResult,
    mutex: &mut Mutex<T>,
    me: &mut HeldLocks,
    res: Progress<LockResult, MutexCall>,
)
    requires
        *old(tried) == *old(mutex),
        *old(trier) == *old(me),
        call_ensures(Mutex::<T>::try_lock, (tried, trier), handed),
        call_ensures(Mutex::<T>::lock, (mutex, me), res),
    ensures
        hands_out(old(tried)@, handed) <==> res is Finished && hands_out(
            old(mutex)@,
            res->Finished_0,
        ),
        hands_out(old(tried)@, handed) <==> !old(trier)@.contains(old(tried)@.id) && !is_taken(
            old(tried)@,
        ),
        hands_out(old(tried)@, handed) ==> final(tried)@ == final(mutex)@ && final(trier)@
            == final(me)@,
        !hands_out(old(tried)@, handed) ==> is_refusal(handed) && final(tried)@ == old(tried)@
            && final(trier)@ == old(trier)@,
{
}

/// A `lock` that goes on gets a free mutex, and wakes the next sleeper then, if there is one, since
/// the word no longer says that somebody sleeps. Otherwise it sleeps again, on a word that says so.
pub proof fn law_resumed_lock_takes_a_free_mutex_or_sleeps<T>(
    mutex: &mut Mutex<T>,
    call: MutexCall,
    me: &mut HeldLocks,
    res: (Progress<LockResult, MutexCall>, Wake),
)
    requires
        call == MutexCall::SlowSleep,
        call_ensures(Mutex::<T>::resume, (mutex, call, me), res),
    ensures
        res.0 is Finished <==> !is_taken(old(mutex)@),
        res.0 matches Progress::Finished(handed) ==> {
            &&& hands_out(old(mutex)@, handed)
            &&& final(mutex)@.state == LOCKED
            &&& final(me)@ == old(me)@.insert(old(mutex)@.id)
            &&& res.1 == Wake::One
        },
        res.0 matches Progress::Pending(again) ==> {
            &&& again == call
            &&& final(mutex)@.state == CONTENDED
            &&& final(me)@ == old(me)@
            &&& res.1 == Wake::Nobody
        },
        same_but_word(old(mutex)@, final(mutex)@),
{
}

/// A thread that releases the mutex leaves it free, and poisoned if it was, or if the thread is
/// panicking. It wakes a sleeper exactly if the word said that somebody sleeps.
pub proof fn law_unlock_frees_the_mutex<T>(
    guard: MutexGuard,
    mutex: &mut Mutex<T>,
    me: &mut HeldLocks,
    panicking: bool,
    wake: Wake,
)
    requires
        guard@ == old(mutex)@.id,
        call_ensures(MutexGuard::unlock::<T>, (guard, mutex, me, panicking), wake),
    ensures
        !is_taken(final(mutex)@),
        wake == Wake::One <==> old(mutex)@.state == CONTENDED,
        wake == Wake::One || wake == Wake::Nobody,
        final(mutex)@.id == old(mutex)@.id,
        final(mutex)@.data == old(mutex)@.data,
        final(mutex)@.poisoned == (old(mutex)@.poisoned || panicking),
        final(me)@ == old(me)@.remove(old(mutex)@.id),
{
}

/// A thread that sleeps is woken by the release, and has the mutex then.
pub proof fn law_sleeper_gets_the_released_mutex<T>(
    asked: &mut Mutex<T>,
    me: &mut HeldLocks,
    call: MutexCall,
    guard: MutexGuard,
    freed: &mut Mutex<T>,
    holder: &mut HeldLocks,
    wake: Wake,
    resumed: &mut Mutex<T>,
    woken: &mut HeldLocks,
    res: (Progress<LockResult, MutexCall>, Wake),
)
    requires
        !old(me)@.contains(old(asked)@.id),
        call_ensures(
            Mutex::<T>::lock,
            (asked, me),
            Progress::<LockResult, MutexCall>::Pending(call),
        ),
        guard@ == old(asked)@.id,
        *old(freed) == *final(asked),
        call_ensures(MutexGuard::unlock::<T>, (guard, freed, holder, false), wake),
        *old(resumed) == *final(freed),
        *old(woken) == *final(me),
        call_ensures(Mutex::<T>::resume, (resumed, call, woken), res),
    ensures
        is_taken(old(asked)@),
        wake == Wake::One,
        res.0 is Finished && hands_out(old(asked)@, res.0->Finished_0),
        is_taken(final(resumed)@),
        final(woken)@.contains(old(asked)@.id),
{
}

/// What is changed under the mutex is what the next thread sees that has it. A guard shows the
/// data, and so do `get_mut` and `into_inner`; what is changed is the data, and nothing else.
pub proof fn law_guards_show_the_data<T>(
    mutex: Mutex<T>,
    guard: MutexGuard,
    seen: T,
    inner: T,
    owned: &mut Mutex<T>,
    data: &mut T,
    held: &mut Mutex<T>,
    mine: &mut MutexGuard,
    guarded: &mut T,
)
    requires
        guard@ == mutex@.id,
        call_ensures(MutexGuard::deref::<T>, (&guard, &mutex), &seen),
        call_ensures(Mutex::<T>::into_inner, (mutex,), inner),
        *old(owned) == mutex,
        call_ensures(Mutex::<T>::get_mut, (owned,), data),
        *old(held) == mutex,
        old(mine)@ == mutex@.id,
        call_ensures(MutexGuard::deref_mut::<T>, (mine, held), guarded),
    ensures
        seen == mutex@.data,
        inner == mutex@.data,
        *old(data) == mutex@.data,
        final(owned)@ == (MutexView { data: *final(data), ..mutex@ }),
        *old(guarded) == mutex@.data,
        final(held)@ == (MutexView { data: *final(guarded), ..mutex@ }),
        final(mine)@ == mutex@.id,
{
}

/// A mutex tells that it is poisoned from when a thread that panics releases it, until that is
/// cleared. Clearing it changes nothing else.
pub proof fn law_poison_is_told<T>(
    guard: MutexGuard,
    freed: &mut Mutex<T>,
    holder: &mut HeldLocks,
    panicking: bool,
    wake: Wake,
    told: bool,
    cleared: &mut Mutex<T>,
    told_then: bool,
)
    requires
        guard@ == old(freed)@.id,
        call_ensures(MutexGuard::unlock::<T>, (guard, freed, holder, panicking), wake),
        call_ensures(Mutex::<T>::is_poisoned, (&*final(freed),), told),
        *old(cleared) == *final(freed),
        call_ensures(Mutex::<T>::clear_poison, (cleared,), ()),
        call_ensures(Mutex::<T>::is_poisoned, (&*final(cleared),), told_then),
    ensures
        panicking ==> told,
        !panicking ==> told == old(freed)@.poisoned,
        !told_then,
        final(cleared)@ == (MutexView { poisoned: false, ..old(cleared)@ }),
{
}

/// The two kinds of mutex are used alike: where both are free or both are taken, and both belong to
/// one identity and are poisoned or not, their `try_lock` both hand out the mutex or both refuse
/// it, and their `lock` both end or both wait.
pub proof fn law_both_kinds_lock_alike<T>(
    one: &mut mutex::Mutex<T>,
    one_me: &mut HeldLocks,
    thread: usize,
    one_res: Progress<mutex::LockResult, mutex::MutexCall>,
    one_tried: &mut mutex::Mutex<T>,
    one_trier: &mut HeldLocks,
    one_handed: mutex::LockResult,
    other: &mut Mutex<T>,
    other_me: &mut HeldLocks,
    other_res: Progress<LockResult, MutexCall>,
    other_tried: &mut Mutex<T>,
    other_trier: &mut HeldLocks,
    other_handed: LockResult,
)
    requires
        old(one)@.words.at_rest(),
        old(one)@.words.state == mutex::UNLOCKED <==> !is_taken(old(other)@),
        old(one)@.id == old(other)@.id,
        old(one)@.poisoned == old(other)@.poisoned,
        *old(one_tried) == *old(one),
        *old(other_tried) == *old(other),
        old(one_me)@ == old(other_me)@,
        *old(one_trier) == *old(one_me),
        *old(other_trier) == *old(other_me),
        call_ensures(mutex::Mutex::<T>::lock, (one, one_me, thread), one_res),
        call_ensures(mutex::Mutex::<T>::try_lock, (one_tried, one_trier), one_handed),
        call_ensures(Mutex::<T>::lock, (other, other_me), other_res),
        call_ensures(Mutex::<T>::try_lock, (other_tried, other_trier), other_handed),
    ensures
        one_res is Pending <==> other_res is Pending,
        one_handed is Ok <==> other_handed is Ok,
        is_refusal(other_handed) <==> one_handed is Err && one_handed->Err_0 is WouldBlock,
        final(one_me)@ == final(other_me)@,
        final(one_trier)@ == final(other_trier)@,
        final(one)@.words.state == mutex::UNLOCKED <==> !is_taken(final(other)@),
        final(one_tried)@.words.state == mutex::UNLOCKED <==> !is_taken(final(other_tried)@),
{
}

/// Which call a step belongs to.
pub enum MutexKind {
    Lock,
    TryLock,
    Unlock,
}

/// The steps of each call, and the ways in which it can end: a `lock` ends only with the mutex.
pub open spec fn is_of_kind(call: MutexCall, kind: MutexKind) -> bool {
    match kind {
        MutexKind::Lock => call is Lock || call is Spin || call is LockAgain || call is SlowLook
            || call is SlowLock || call is SlowMark || call is SlowSleep || call is SlowWake || call
            == MutexCall::Done(MutexOutcome::Acquired),
        MutexKind::TryLock => call is TryLock || call == MutexCall::Done(MutexOutcome::Acquired)
            || call == MutexCall::Done(MutexOutcome::WouldBlock),
        MutexKind::Unlock => call is Unlock || call is UnlockWake || call is Done
            && call->Done_0 is Released,
    }
}

/// Every step leads to a step of the same call, or to one of its ends, whatever the other threads
/// do. A call that is over takes no step, and every other call does.
pub proof fn law_calls_keep_their_kind(
    call: MutexCall,
    kind: MutexKind,
    reply: Reply<u32>,
    next: MutexCall,
    raw: RawMutex,
    stepped: MutexCall,
    action: Option<Action<MutexWord>>,
)
    requires
        is_of_kind(call, kind),
        call_ensures(MutexCall::advance, (call, reply), next),
        call_ensures(RawMutex::step, (&raw, call), stepped),
        call_ensures(MutexCall::action, (&call,), action),
    ensures
        is_of_kind(next, kind),
        is_of_kind(stepped, kind),
        action is None <==> call is Done,
{
}

/// What one step does among threads that interleave. The mutex is taken exactly in the step in
/// which a call gets it, and only while it is free; only an unlock frees it. A `try_lock` is
/// refused only where the mutex is taken, or the compare-exchange failed for no reason. A call goes
/// to sleep only where it saw, or has noted, that somebody sleeps on a taken mutex.
pub proof fn law_mutex_is_taken_in_one_step(
    call: MutexCall,
    action: Action<MutexWord>,
    words: MutexWords,
    after: MutexWords,
    reply: Reply<u32>,
    next: MutexCall,
)
    requires
        call_ensures(MutexCall::action, (&call,), Some(action)),
        interleaving::advanced_mutex::possible(words, action, after, reply),
        call_ensures(MutexCall::advance, (call, reply), next),
        call matches MutexCall::SlowMark { seen, .. } ==> seen != UNLOCKED,
    ensures
        next == MutexCall::Done(MutexOutcome::Acquired) || next is SlowWake ==> words.state
            == UNLOCKED && after.state == LOCKED,
        words.state == UNLOCKED && after.state != UNLOCKED ==> next == MutexCall::Done(
            MutexOutcome::Acquired,
        ) || next is SlowWake,
        words.state != UNLOCKED && after.state == UNLOCKED ==> call is Unlock,
        call is Unlock ==> after.state == UNLOCKED && (next is UnlockWake <==> words.state
            == CONTENDED) && (next == MutexCall::Done(MutexOutcome::Released(Wake::Nobody))
            <==> words.state != CONTENDED),
        next == MutexCall::Done(MutexOutcome::WouldBlock) ==> call is TryLock && after == words,
        after != words ==> {
            ||| next == MutexCall::Done(MutexOutcome::Acquired)
            ||| next is SlowWake
            ||| call is Unlock
            ||| call is SlowMark && after.state == CONTENDED
        },
        next is SlowSleep ==> after.state == CONTENDED,
        next is SlowWake ==> call == (MutexCall::SlowLock { slept: true }),
        call matches MutexCall::SlowLock { slept } ==> next == (MutexCall::SlowLook { slept })
            || next is SlowWake || next == MutexCall::Done(MutexOutcome::Acquired) && !slept,
        call matches MutexCall::SlowMark { slept, .. } ==> next == (MutexCall::SlowLook { slept })
            || next is SlowSleep,
        next matches MutexCall::SlowMark { seen, .. } ==> seen == words.state && seen != UNLOCKED,
        call is Lock ==> next == MutexCall::Done(MutexOutcome::Acquired) || next == (
        MutexCall::Spin { counter: 0 }),
        call matches MutexCall::Spin { counter } ==> {
            &&& words.state == UNLOCKED || counter + 1 >= SPIN_LIMIT ==> next is LockAgain
            &&& words.state != UNLOCKED && counter + 1 < SPIN_LIMIT ==> next is Spin
                && next->counter == counter + 1
        },
        call is LockAgain ==> next == MutexCall::Done(MutexOutcome::Acquired) || next == (
        MutexCall::SlowLook { slept: false }),
        call matches MutexCall::SlowLook { slept } ==> {
            &&& words.state == UNLOCKED ==> next == (MutexCall::SlowLock { slept })
            &&& words.state == CONTENDED ==> next is SlowSleep
            &&& words.state != UNLOCKED && words.state != CONTENDED ==> next == (
            MutexCall::SlowMark { slept, seen: words.state })
        },
{
}

/// A thread sleeps on the word while it says that somebody sleeps, and looks again when it wakes
/// up, as one that has slept; wake-up calls wake one thread there, and end the call. The mutex is
/// taken with acquiring operations and freed with a releasing one, so what is done under it is seen
/// by the thread that has it next.
pub proof fn law_word_orders_threads(call: MutexCall, action: Action<MutexWord>, next: MutexCall)
    requires
        call_ensures(MutexCall::action, (&call,), Some(action)),
        call_ensures(MutexCall::advance, (call, Reply::Done), next),
    ensures
        action is Wait <==> call is SlowSleep,
        call is SlowSleep ==> action == Action::Wait(MutexWord::State, CONTENDED) && next == (
        MutexCall::SlowLook { slept: true }),
        action is WakeOne <==> call is SlowWake || call is UnlockWake,
        !(action is WakeAll),
        call is SlowWake ==> next == MutexCall::Done(MutexOutcome::Acquired),
        call is UnlockWake ==> next == MutexCall::Done(MutexOutcome::Released(Wake::One)),
        call is Lock || call is TryLock ==> action == Action::Word(
            MutexWord::State,
            Op::CompareExchangeWeak { current: UNLOCKED, new: LOCKED, order: Order::Acquire },
        ),
        call is LockAgain || call is SlowLock ==> action == Action::Word(
            MutexWord::State,
            Op::CompareExchange { current: UNLOCKED, new: LOCKED, order: Order::Acquire },
        ),
        call is Unlock ==> action == Action::Word(
            MutexWord::State,
            Op::Swap(UNLOCKED, Order::Release),
        ),
{
}

/// A call that runs by itself goes through the steps of its protocol: what it comes to is what it
/// comes to after its first step. It stops where the step is a wait that does not end, and where it
/// is over.
pub proof fn law_run_takes_every_step(
    run: &mut MutexWords,
    start: MutexCall,
    end: MutexCall,
    action: Option<Action<MutexWord>>,
    done: Action<MutexWord>,
    step: &mut MutexWords,
    reply: Reply<u32>,
    next: MutexCall,
    rest: &mut MutexWords,
    rest_end: MutexCall,
)
    requires
        call_ensures(MutexWords::run, (run, start), end),
        call_ensures(MutexCall::action, (&start,), action),
        *old(step) == *old(run),
        call_ensures(MutexWords::perform, (step, done), reply),
        call_ensures(MutexCall::advance, (start, reply), next),
        *old(rest) == *final(step),
        call_ensures(MutexWords::run, (rest, next), rest_end),
    ensures
        action == Some(done) && !(reply is Asleep) ==> end == rest_end && *final(run) == *final(rest),
        action == Some(done) && reply is Asleep ==> end == start && *final(run) == *old(run),
        action is None ==> end == start && *final(run) == *old(run),
{
}

/// An action changes the word as the operation does. A wait goes on exactly while the word has the
/// value, and neither waits nor wake-up calls change anything.
pub proof fn law_actions_do_what_they_say(
    words: &mut MutexWords,
    action: Action<MutexWord>,
    reply: Reply<u32>,
    word: &mut u32,
    op: Op<u32>,
    op_reply: Reply<u32>,
)
    requires
        call_ensures(MutexWords::perform, (words, action), reply),
        call_ensures(Op::<u32>::apply, (op, word), op_reply),
    ensures
        action == Action::Word(MutexWord::State, op) && *old(word) == old(words).state
            ==> final(words).state == *final(word) && reply == op_reply,
        !(action is Word) ==> *final(words) == *old(words),
        action matches Action::Wait(_, value) ==> (reply is Asleep <==> old(words).state == value),
        action is WakeOne || action is WakeAll ==> reply is Done,
{
}

/// On atomic words a step is a step of the protocol: its action is performed, and the call goes
/// where the protocol leads with the reply that came back. A call that has no such step stays where
/// it is.
pub proof fn law_raw_step_is_a_step_of_the_protocol(
    raw: RawMutex,
    call: MutexCall,
    next: MutexCall,
    action: Option<Action<MutexWord>>,
)
    requires
        call_ensures(RawMutex::step, (&raw, call), next),
        call_ensures(MutexCall::action, (&call,), action),
    ensures
        action is None ==> next == call,
        action matches Some(act) ==> exists|reply: Reply<u32>|
            {
                &&& #[trigger] raw.performed(act, reply)
                &&& act.fits(reply)
                &&& forall|led: MutexCall| #[trigger]
                    call_ensures(MutexCall::advance, (call, reply), led) ==> led == next
            },
{
}

/// Every call can be made on every mutex, and a guard can be used on its mutex.
pub proof fn law_any_mutex_can_be_asked_for<T>(
    mutex: &mut Mutex<T>,
    me: &mut HeldLocks,
    guard: MutexGuard,
    held: &mut MutexGuard,
    panicking: bool,
)
    requires
        guard@ == old(mutex)@.id,
        old(held)@ == old(mutex)@.id,
    ensures
        call_requires(Mutex::<T>::lock, (mutex, me)),
        call_requires(Mutex::<T>::resume, (mutex, MutexCall::SlowSleep, me)),
        call_requires(Mutex::<T>::try_lock, (mutex, me)),
        call_requires(Mutex::<T>::clear_poison, (mutex,)),
        call_requires(Mutex::<T>::get_mut, (mutex,)),
        call_requires(MutexGuard::deref::<T>, (&guard, &*old(mutex))),
        call_requires(MutexGuard::deref_mut::<T>, (held, mutex)),
        call_requires(MutexGuard::unlock::<T>, (guard, mutex, me, panicking)),
        SPIN_LIMIT == 100,
{
}

} // verus!
