//! What a [`semaphore`](crate::semaphore) is for.

use crate::interleaving;
use crate::laws;
use crate::semaphore::{RawSemaphore, SemCall, SemOutcome, SemWord, SemWords, Semaphore, TimedCall};
use crate::utils::mutex_common::{Progress, Wake};
use crate::word::{Action, Op, Order, Reply};
use vstd::prelude::*;

verus! {

/// A new semaphore has the permits that it was made with, and nobody waits for it.
pub proof fn law_new_semaphore_has_its_permits(
    initial_count: u32,
    sem: Semaphore,
    count: u32,
    num_waiting: u32,
)
    requires
        call_ensures(Semaphore::new, (initial_count,), sem),
        call_ensures(Semaphore::count, (&sem,), count),
        call_ensures(Semaphore::num_waiting, (&sem,), num_waiting),
    ensures
        count == initial_count,
        num_waiting == 0,
{
}

/// A `wait` takes exactly one permit if there is one. Otherwise it takes nothing, and is counted
/// among those that wait.
pub proof fn law_wait_takes_a_permit_or_waits(sem: &mut Semaphore, res: Progress<(), SemCall>)
    requires
        call_ensures(Semaphore::wait, (sem,), res),
    ensures
        res is Finished <==> old(sem)@.count > 0,
        res is Finished ==> {
            &&& final(sem)@.count == old(sem)@.count - 1
            &&& final(sem)@.num_waiting == old(sem)@.num_waiting
        },
        res is Pending ==> {
            &&& final(sem)@.count == 0
            &&& final(sem)@.num_waiting == laws::one_more(old(sem)@.num_waiting)
            &&& call_requires(Semaphore::resume, (sem, res->Pending_0))
        },
{
}

/// A `wait` that sleeps gets the permit of the next `signal`: the signal wakes a thread, the `wait`
/// that goes on is over, and the semaphore is as it was before.
pub proof fn law_sleeping_wait_gets_the_next_permit(
    asked: &mut Semaphore,
    call: SemCall,
    given: &mut Semaphore,
    wake: Wake,
    resumed: &mut Semaphore,
    res: Progress<(), SemCall>,
)
    requires
        old(asked)@.num_waiting < u32::MAX,
        call_ensures(Semaphore::wait, (asked,), Progress::<(), SemCall>::Pending(call)),
        *old(given) == *final(asked),
        call_ensures(Semaphore::signal, (given,), wake),
        *old(resumed) == *final(given),
        call_ensures(Semaphore::resume, (resumed, call), res),
    ensures
        wake == Wake::One,
        res is Finished,
        final(resumed)@ == old(asked)@,
{
}

/// A `wait` that goes on takes a permit if there is one, and is then no longer counted among those
/// that wait. Without a permit it sleeps again, and nothing changes.
pub proof fn law_resumed_wait_takes_a_permit_or_waits(
    sem: &mut Semaphore,
    call: SemCall,
    res: Progress<(), SemCall>,
)
    requires
        call_requires(Semaphore::resume, (sem, call)),
        call_ensures(Semaphore::resume, (sem, call), res),
        old(sem)@.num_waiting > 0,
        call == SemCall::WaitSleep,
    ensures
        res is Finished <==> old(sem)@.count > 0,
        res is Finished ==> {
            &&& final(sem)@.count == old(sem)@.count - 1
            &&& final(sem)@.num_waiting == old(sem)@.num_waiting - 1
        },
        res is Pending ==> res->Pending_0 == call && final(sem)@ == old(sem)@,
{
}

/// A `try_wait` does what a `wait` does, except that it does not wait: where the `wait` would, it
/// is refused and changes nothing.
pub proof fn law_try_wait_is_wait_without_waiting(
    tried: &mut Semaphore,
    taken: bool,
    waited: &mut Semaphore,
    res: Progress<(), SemCall>,
)
    requires
        *old(tried) == *old(waited),
        call_ensures(Semaphore::try_wait, (tried,), taken),
        call_ensures(Semaphore::wait, (waited,), res),
    ensures
        taken <==> res is Finished,
        taken <==> old(tried)@.count > 0,
        taken ==> final(tried)@ == final(waited)@,
        !taken ==> final(tried)@ == old(tried)@,
{
}

/// A `try_wait_duration` that reads the clock before the deadline does what `try_wait` does. One
/// that does not is refused and changes nothing.
pub proof fn law_deadline_is_kept(
    timed: &mut Semaphore,
    readings: u64,
    taken_in_time: bool,
    tried: &mut Semaphore,
    taken: bool,
)
    requires
        *old(timed) == *old(tried),
        call_ensures(Semaphore::try_wait_duration, (timed, readings), taken_in_time),
        call_ensures(Semaphore::try_wait, (tried,), taken),
    ensures
        readings > 0 ==> taken_in_time == taken && final(timed)@ == final(tried)@,
        readings == 0 ==> !taken_in_time && final(timed)@ == old(timed)@,
{
}

/// The clock decides whether there is another try, and a try decides whether there is another look
/// at the clock: the call ends with a permit exactly when a try got one, and without exactly when
/// the deadline has passed.
pub proof fn law_timed_wait_ends_with_a_permit_or_the_deadline(
    before_deadline: bool,
    started: TimedCall,
    call: SemCall,
    moved: TimedCall,
)
    requires
        call_ensures(TimedCall::clock, (before_deadline,), started),
        call_ensures(TimedCall::tried, (call,), moved),
    ensures
        started == TimedCall::Done(false) <==> !before_deadline,
        before_deadline ==> started == TimedCall::Trying(SemCall::TryLook),
        moved == TimedCall::Done(true) <==> call == SemCall::Done(SemOutcome::Acquired),
        moved != TimedCall::Done(false),
        moved is Clock <==> call is Done && call != SemCall::Done(SemOutcome::Acquired),
        moved matches TimedCall::Trying(standing) ==> standing == call,
{
}

/// A `signal` gives back exactly one permit, which the next `try_wait` gets. It wakes a thread
/// exactly if one waits.
pub proof fn law_signal_gives_one_permit(
    given: &mut Semaphore,
    wake: Wake,
    tried: &mut Semaphore,
    taken: bool,
)
    requires
        old(given)@.count < u32::MAX,
        call_ensures(Semaphore::signal, (given,), wake),
        *old(tried) == *final(given),
        call_ensures(Semaphore::try_wait, (tried,), taken),
    ensures
        final(given)@.count == old(given)@.count + 1,
        final(given)@.num_waiting == old(given)@.num_waiting,
        wake == Wake::One <==> old(given)@.num_waiting > 0,
        wake == Wake::Nobody <==> old(given)@.num_waiting == 0,
        taken,
        final(tried)@ == old(given)@,
{
}

/// Which call a step belongs to.
pub enum SemKind {
    Wait,
    TryWait,
    Signal,
}

/// The steps of each call, and the ways in which it can end: a `wait` ends only with a permit.
pub open spec fn is_of_kind(call: SemCall, kind: SemKind) -> bool {
    match kind {
        SemKind::Wait => call is WaitEnter || call is WaitLook || call is WaitSleep
            || call is WaitTake || call is WaitLeave || call == SemCall::Done(SemOutcome::Acquired),
        SemKind::TryWait => call is TryLook || call is TryTake || call == SemCall::Done(
            SemOutcome::Acquired,
        ) || call == SemCall::Done(SemOutcome::Refused),
        SemKind::Signal => call is Signal || call is SignalLook || call is SignalWake
            || call matches SemCall::Done(SemOutcome::Signaled(_)),
    }
}

/// Every step leads to a step of the same call, or to one of its ends, whatever the other threads
/// do: on ordinary words and on atomic ones.
pub proof fn law_calls_keep_their_kind(
    call: SemCall,
    kind: SemKind,
    reply: Reply<u32>,
    next: SemCall,
    raw: RawSemaphore,
    stepped: SemCall,
)
    requires
        is_of_kind(call, kind),
        call_ensures(SemCall::advance, (call, reply), next),
        call_ensures(RawSemaphore::step, (&raw, call), stepped),
    ensures
        is_of_kind(next, kind),
        is_of_kind(stepped, kind),
{
}

/// A call that is over takes no step, and every other call does.
pub proof fn law_calls_go_on_until_they_are_over(call: SemCall, action: Option<Action<SemWord>>)
    requires
        call_ensures(SemCall::action, (&call,), action),
    ensures
        action is None <==> call is Done,
{
}

/// What one step does among threads that interleave. Only the first step of a `signal` adds a
/// permit, and it adds one. A permit leaves the count exactly in the step in which a `wait` or a
/// `try_wait` gets it. A `try_wait` is refused only if it saw no permits, or if another thread was
/// faster or the compare-exchange failed for no reason. A `signal` decides not to wake anybody only
/// if it saw nobody wait.
pub proof fn law_permits_move_one_at_a_time(
    call: SemCall,
    action: Action<SemWord>,
    words: SemWords,
    after: SemWords,
    reply: Reply<u32>,
    next: SemCall,
)
    requires
        call_ensures(SemCall::action, (&call,), Some(action)),
        interleaving::semaphore::possible(words, action, after, reply),
        call_ensures(SemCall::advance, (call, reply), next),
        call matches SemCall::WaitTake { count } ==> count > 0,
        call matches SemCall::TryTake { count } ==> count > 0,
        words.count < u32::MAX,
        0 < words.num_waiting < u32::MAX,
    ensures
        after.count == words.count + 1 <==> call is Signal,
        after.count == words.count - 1 <==> call is WaitTake && next is WaitLeave
            || call is TryTake && next == SemCall::Done(SemOutcome::Acquired),
        after.count == words.count || after.count == words.count + 1 || after.count == words.count
            - 1,
        after.num_waiting == words.num_waiting + 1 <==> call is WaitEnter,
        after.num_waiting == words.num_waiting - 1 <==> call is WaitLeave,
        after.num_waiting == words.num_waiting || call is WaitEnter || call is WaitLeave,
        next matches SemCall::WaitTake { count } ==> count > 0 && count == words.count,
        next matches SemCall::TryTake { count } ==> count > 0 && count == words.count,
        next == SemCall::Done(SemOutcome::Acquired) ==> call is WaitLeave || call is TryTake,
        next == SemCall::Done(SemOutcome::Refused) && call is TryLook ==> words.count == 0,
        next is WaitSleep && call is WaitLook ==> words.count == 0,
        call is WaitTake && next !is WaitLeave ==> next is WaitLook,
{
}

/// Where a call goes with the permits that it sees: it tries to take one of them, and without any a
/// `wait` sleeps and a `try_wait` is refused. A `wait` that lost a race looks again, and a
/// `try_wait` is refused.
pub proof fn law_calls_go_by_what_they_see(
    count: u32,
    seen: u32,
    waiter: SemCall,
    late_waiter: SemCall,
    trier: SemCall,
    late_trier: SemCall,
)
    requires
        call_ensures(SemCall::advance, (SemCall::WaitLook, Reply::Value(count)), waiter),
        call_ensures(
            SemCall::advance,
            (SemCall::WaitTake { count: seen }, Reply::Changed(count)),
            late_waiter,
        ),
        call_ensures(SemCall::advance, (SemCall::TryLook, Reply::Value(count)), trier),
        call_ensures(
            SemCall::advance,
            (SemCall::TryTake { count: seen }, Reply::Changed(count)),
            late_trier,
        ),
    ensures
        count > 0 ==> waiter == (SemCall::WaitTake { count }) && trier == (SemCall::TryTake {
            count,
        }),
        count == 0 ==> waiter is WaitSleep && trier == SemCall::Done(SemOutcome::Refused),
        late_waiter is WaitLook,
        late_trier == SemCall::Done(SemOutcome::Refused),
{
}

/// A `signal` that saw somebody wait makes a wake-up call on the permits; one that saw nobody wait
/// ends without.
pub proof fn law_signal_wakes_whom_it_saw(
    waiting: u32,
    next: SemCall,
    wake: Option<Action<SemWord>>,
    end: SemCall,
)
    requires
        call_ensures(SemCall::advance, (SemCall::SignalLook, Reply::Value(waiting)), next),
        call_ensures(SemCall::action, (&next,), wake),
        call_ensures(SemCall::advance, (next, Reply::Done), end),
    ensures
        waiting > 0 ==> wake == Some(Action::<SemWord>::WakeOne(SemWord::Count)) && end
            == SemCall::Done(SemOutcome::Signaled(Wake::One)),
        waiting == 0 ==> next == SemCall::Done(SemOutcome::Signaled(Wake::Nobody)),
{
}

/// A `wait` sleeps only on a count of zero, and looks again when it wakes up. What the holder of a
/// permit did before its `signal` is seen by the one that gets the permit: the step that gets it
/// acquires, and the step that gives it releases.
pub proof fn law_permits_order_memory(call: SemCall, action: Action<SemWord>, next: SemCall)
    requires
        call_ensures(SemCall::action, (&call,), Some(action)),
        call_ensures(SemCall::advance, (call, Reply::Done), next),
    ensures
        action matches Action::Wait(word, value) ==> word == SemWord::Count && value == 0
            && next is WaitLook,
        call is WaitTake || call is TryTake ==> {
            &&& action matches Action::Word(SemWord::Count, op)
            &&& op is CompareExchangeWeak && op->CompareExchangeWeak_order == Order::Acquire
        },
        call is Signal ==> action == Action::Word(
            SemWord::Count,
            Op::FetchAdd(1u32, Order::Release),
        ),
{
}

/// A call that runs by itself goes through the steps of its protocol: what it comes to is what it
/// comes to after its first step. It stops where the step is a wait that does not end, and where
/// the call is over.
pub proof fn law_run_takes_every_step(
    run: &mut SemWords,
    start: SemCall,
    end: SemCall,
    action: Action<SemWord>,
    step: &mut SemWords,
    reply: Reply<u32>,
    next: SemCall,
    rest: &mut SemWords,
    rest_end: SemCall,
)
    requires
        call_ensures(SemWords::run, (run, start), end),
        call_ensures(SemCall::action, (&start,), Some(action)),
        *old(step) == *old(run),
        call_ensures(SemWords::perform, (step, action), reply),
        call_ensures(SemCall::advance, (start, reply), next),
        *old(rest) == *final(step),
        call_ensures(SemWords::run, (rest, next), rest_end),
    ensures
        reply is Asleep ==> end == start && *final(run) == *old(run),
        !(reply is Asleep) ==> end == rest_end && *final(run) == *final(rest),
{
}

/// A call that is over stays as it is.
pub proof fn law_run_leaves_what_is_over(run: &mut SemWords, outcome: SemOutcome, end: SemCall)
    requires
        call_ensures(SemWords::run, (run, SemCall::Done(outcome)), end),
    ensures
        end == SemCall::Done(outcome),
        *final(run) == *old(run),
{
}

/// An action changes the word that it names as the operation does, and no other one. A wait goes on
/// exactly while the word has the value, and neither waits nor wake-up calls change anything.
pub proof fn law_actions_touch_one_word(
    words: &mut SemWords,
    action: Action<SemWord>,
    reply: Reply<u32>,
    word: &mut u32,
    op: Op<u32>,
    op_reply: Reply<u32>,
)
    requires
        call_ensures(SemWords::perform, (words, action), reply),
        call_ensures(Op::<u32>::apply, (op, word), op_reply),
    ensures
        action == Action::Word(SemWord::Count, op) && *old(word) == old(words).count ==> {
            &&& final(words).count == *final(word)
            &&& final(words).num_waiting == old(words).num_waiting
            &&& reply == op_reply
        },
        action == Action::Word(SemWord::NumWaiting, op) && *old(word) == old(words).num_waiting
            ==> {
            &&& final(words).num_waiting == *final(word)
            &&& final(words).count == old(words).count
            &&& reply == op_reply
        },
        !(action is Word) ==> *final(words) == *old(words),
        action matches Action::Wait(SemWord::Count, value) ==> (reply is Asleep <==> old(
            words,
        ).count == value),
        action matches Action::Wait(SemWord::NumWaiting, value) ==> (reply is Asleep <==> old(
            words,
        ).num_waiting == value),
        action is WakeOne || action is WakeAll ==> reply is Done,
{
}

/// On atomic words a step is a step of the protocol: its action is performed, and the call goes
/// where the protocol leads with the reply that came back. A call that has no such step stays where
/// it is.
pub proof fn law_raw_step_is_a_step_of_the_protocol(
    raw: RawSemaphore,
    call: SemCall,
    next: SemCall,
    action: Option<Action<SemWord>>,
)
    requires
        call_ensures(RawSemaphore::step, (&raw, call), next),
        call_ensures(SemCall::action, (&call,), action),
    ensures
        action is None ==> next == call,
        action matches Some(act) ==> exists|reply: Reply<u32>|
            {
                &&& #[trigger] raw.performed(act, reply)
                &&& act.fits(reply)
                &&& forall|led: SemCall| #[trigger]
                    call_ensures(SemCall::advance, (call, reply), led) ==> led == next
            },
{
}

/// Every call can be made on every semaphore.
pub proof fn law_any_semaphore_can_be_asked(sem: &mut Semaphore, readings: u64)
    ensures
        call_requires(Semaphore::wait, (sem,)),
        call_requires(Semaphore::resume, (sem, SemCall::WaitSleep)),
        call_requires(Semaphore::try_wait, (sem,)),
        call_requires(Semaphore::try_wait_duration, (sem, readings)),
        call_requires(Semaphore::signal, (sem,)),
{
}

/// However many permits there are, a `signal` goes on to the next number, and after the largest
/// starts over at zero.
pub proof fn law_permits_start_over(sem: &mut Semaphore, wake: Wake)
    requires
        call_ensures(Semaphore::signal, (sem,), wake),
    ensures
        final(sem)@.count == laws::one_more(old(sem)@.count),
        final(sem)@.num_waiting == old(sem)@.num_waiting,
        wake == Wake::One <==> old(sem)@.num_waiting > 0,
        wake == Wake::Nobody <==> old(sem)@.num_waiting == 0,
{
}

/// Where each step leads that does not depend on what it sees: a `wait` is counted, looks, takes,
/// and is counted no more; a `signal` gives the permit back before it sees whether anybody waits.
pub proof fn law_steps_come_in_order(call: SemCall, count: u32, next: SemCall, taken: SemCall)
    requires
        call_ensures(SemCall::advance, (call, Reply::Value(count)), next),
        call_ensures(SemCall::advance, (call, Reply::Swapped), taken),
    ensures
        call is WaitEnter ==> next is WaitLook,
        call is WaitTake ==> taken is WaitLeave,
        call is WaitLeave ==> next == SemCall::Done(SemOutcome::Acquired),
        call is TryTake ==> taken == SemCall::Done(SemOutcome::Acquired),
        call is Signal ==> next is SignalLook,
        call is Done ==> next == call && taken == call,
{
}

} // verus!
