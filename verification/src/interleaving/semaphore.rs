//! Threads that share a [`semaphore`](crate::semaphore).
//!
//! Here a thread that sleeps is told apart from one that is about to sleep, and a wake-up call ends
//! the sleep of one thread, if any sleeps.

use crate::interleaving;
use crate::semaphore::{SemCall, SemOutcome, SemWord, SemWords};
use crate::word::{Action, Reply};
use vstd::prelude::*;

verus! {

/// Where a thread stands.
pub enum Thread {
    /// Outside of any call, without a permit.
    Idle,
    /// In `wait` or `try_wait`, awake.
    Waiting(SemCall),
    /// In `wait`, asleep.
    Sleeping,
    /// With a permit.
    Holding,
    /// In `signal`, giving back a permit.
    Returning(SemCall),
    /// In `signal`, giving a permit that it did not take.
    Giving(SemCall),
}

impl Thread {
    /// The thread has a permit: it has taken one and not yet given it back.
    pub open spec fn has_permit(self) -> bool {
        match self {
            Thread::Holding => true,
            Thread::Waiting(call) => call is WaitLeave || call == SemCall::Done(SemOutcome::Acquired),
            Thread::Returning(call) => call is Signal,
            _ => false,
        }
    }

    /// The thread is counted among those that wait.
    pub open spec fn is_counted(self) -> bool {
        match self {
            Thread::Sleeping => true,
            Thread::Waiting(call) => call is WaitLook || call is WaitSleep || call is WaitTake
                || call is WaitLeave,
            _ => false,
        }
    }

    /// The thread is in `wait`, awake, and has no permit yet.
    pub open spec fn is_on_its_way(self) -> bool {
        match self {
            Thread::Waiting(call) => call is WaitLook || call is WaitSleep || call is WaitTake,
            _ => false,
        }
    }

    /// The thread has added a permit and is about to wake somebody.
    pub open spec fn is_about_to_wake(self) -> bool {
        match self {
            Thread::Returning(call) | Thread::Giving(call) => call is SignalLook
                || call is SignalWake,
            _ => false,
        }
    }
}

/// The shared words, the number of permits at the start, the number of permits given since that
/// nobody had taken, and the threads.
pub struct System {
    pub words: SemWords,
    pub initial_count: u32,
    pub gifts: nat,
    pub threads: Map<int, Thread>,
}

/// What an atomic operation may do to the words among threads that interleave.
pub open spec fn possible(
    words: SemWords,
    action: Action<SemWord>,
    next: SemWords,
    reply: Reply<u32>,
) -> bool {
    match action {
        Action::Word(word, op) => {
            &&& op.possible(words.get(word), next.get(word), reply)
            &&& next == words.set(word, next.get(word))
        },
        _ => false,
    }
}

impl System {
    /// The semaphore is new, and no thread is in a call. There are at most as many threads as can
    /// be counted.
    pub open spec fn initial(self) -> bool {
        &&& self.words == SemWords { count: self.initial_count, num_waiting: 0 }
        &&& self.gifts == 0
        &&& self.threads.dom().finite()
        &&& self.threads.dom().len() <= u32::MAX
        &&& forall|t: int| #[trigger] self.threads.contains_key(t) ==> self.threads[t] is Idle
    }

    /// How many threads have a permit.
    pub open spec fn permits_out(self) -> nat {
        interleaving::those(self.threads, |thread: Thread| thread.has_permit()).len()
    }

    /// How many threads are counted among those that wait.
    pub open spec fn counted(self) -> nat {
        interleaving::those(self.threads, |thread: Thread| thread.is_counted()).len()
    }

    /// How many threads sleep.
    pub open spec fn sleeping(self) -> nat {
        interleaving::those(self.threads, |thread: Thread| thread is Sleeping).len()
    }

    /// How many threads are awake in `wait` and have no permit yet.
    pub open spec fn on_their_way(self) -> nat {
        interleaving::those(self.threads, |thread: Thread| thread.is_on_its_way()).len()
    }

    /// How many threads are about to wake somebody.
    pub open spec fn about_to_wake(self) -> nat {
        interleaving::those(self.threads, |thread: Thread| thread.is_about_to_wake()).len()
    }

    /// Thread `t` moves from where it stands to `to`, and nothing else changes but the words.
    pub open spec fn moves(self, next: System, t: int, to: Thread) -> bool {
        &&& next.threads == self.threads.insert(t, to)
        &&& next.gifts == self.gifts
        &&& next.initial_count == self.initial_count
    }

    /// Thread `t` makes a wake-up call and moves to `to`: one thread that sleeps wakes up, if there
    /// is one.
    pub open spec fn wakes(self, next: System, t: int, to: Thread) -> bool {
        &&& next.words == self.words
        &&& next.gifts == self.gifts
        &&& next.initial_count == self.initial_count
        &&& {
            ||| self.sleeping() == 0 && next.threads == self.threads.insert(t, to)
            ||| exists|u: int|
                {
                    &&& #[trigger] self.threads.contains_key(u)
                    &&& self.threads[u] is Sleeping
                    &&& next.threads == self.threads.insert(
                        u,
                        Thread::Waiting(SemCall::WaitSleep.spec_advance(Reply::Done)),
                    ).insert(t, to)
                }
        }
    }

    /// One step of thread `t`.
    pub open spec fn step(self, next: System, t: int) -> bool {
        &&& self.threads.contains_key(t)
        &&& match self.threads[t] {
            Thread::Idle => {
                &&& next.words == self.words
                &&& {
                    ||| self.moves(next, t, Thread::Waiting(SemCall::WaitEnter))
                    ||| self.moves(next, t, Thread::Waiting(SemCall::TryLook))
                    ||| self.moves(next, t, Thread::Giving(SemCall::Signal))
                }
            },
            Thread::Waiting(call) => match call.spec_action() {
                Some(Action::Wait(word, value)) => {
                    &&& next.words == self.words
                    &&& {
                        ||| self.words.get(word) == value && self.moves(next, t, Thread::Sleeping)
                        ||| self.moves(next, t, Thread::Waiting(call.spec_advance(Reply::Done)))
                    }
                },
                Some(action) => exists|reply: Reply<u32>|
                    {
                        &&& #[trigger] possible(self.words, action, next.words, reply)
                        &&& self.moves(next, t, Thread::Waiting(call.spec_advance(reply)))
                    },
                None => {
                    &&& next.words == self.words
                    &&& self.moves(
                        next,
                        t,
                        if call == SemCall::Done(SemOutcome::Acquired) {
                            Thread::Holding
                        } else {
                            Thread::Idle
                        },
                    )
                },
            },
            Thread::Sleeping => {
                &&& next.words == self.words
                &&& self.moves(
                    next,
                    t,
                    Thread::Waiting(SemCall::WaitSleep.spec_advance(Reply::Done)),
                )
            },
            Thread::Holding => {
                &&& next.words == self.words
                &&& self.moves(next, t, Thread::Returning(SemCall::Signal))
            },
            Thread::Returning(call) => match call.spec_action() {
                Some(Action::WakeOne(_)) => self.wakes(
                    next,
                    t,
                    Thread::Returning(call.spec_advance(Reply::Done)),
                ),
                Some(action) => exists|reply: Reply<u32>|
                    {
                        &&& #[trigger] possible(self.words, action, next.words, reply)
                        &&& self.moves(next, t, Thread::Returning(call.spec_advance(reply)))
                    },
                None => next.words == self.words && self.moves(next, t, Thread::Idle),
            },
            Thread::Giving(call) => match call.spec_action() {
                Some(Action::WakeOne(_)) => self.wakes(
                    next,
                    t,
                    Thread::Giving(call.spec_advance(Reply::Done)),
                ),
                Some(action) => exists|reply: Reply<u32>|
                    {
                        &&& #[trigger] possible(self.words, action, next.words, reply)
                        &&& next.threads == self.threads.insert(
                            t,
                            Thread::Giving(call.spec_advance(reply)),
                        )
                        &&& next.initial_count == self.initial_count
                        &&& next.gifts == self.gifts + interleaving::one_if(call is Signal)
                    },
                None => next.words == self.words && self.moves(next, t, Thread::Idle),
            },
        }
    }

    /// What a thread may be in the middle of.
    spec fn in_order(self, t: int) -> bool {
        match self.threads[t] {
            Thread::Waiting(call) => match call {
                SemCall::WaitTake { count } | SemCall::TryTake { count } => count > 0,
                SemCall::Signal | SemCall::SignalLook | SemCall::SignalWake => false,
                _ => true,
            },
            Thread::Returning(call) | Thread::Giving(call) => match call {
                SemCall::Signal | SemCall::SignalLook | SemCall::SignalWake => true,
                SemCall::Done(outcome) => outcome is Signaled,
                _ => false,
            },
            _ => true,
        }
    }

    /// What every step keeps while the permits can be counted.
    spec fn inv(self) -> bool {
        &&& self.threads.dom().finite()
        &&& self.threads.dom().len() <= u32::MAX
        &&& forall|t: int| #[trigger] self.threads.contains_key(t) ==> self.in_order(t)
        &&& self.words.count + self.permits_out() == self.initial_count + self.gifts
        &&& self.words.num_waiting == self.counted()
        &&& self.sleeping() > 0 ==> self.words.count <= self.on_their_way() + self.about_to_wake()
    }
}

/// A run of the system: `states[k + 1]` comes from `states[k]` by a step of thread `who[k]`. There
/// are never more permits than can be counted.
pub open spec fn run(states: Seq<System>, who: Seq<int>) -> bool {
    &&& states.len() == who.len() + 1
    &&& states[0].initial()
    &&& forall|k: int| 0 <= k < who.len() ==> states[k].step(states[k + 1], #[trigger] who[k])
    &&& forall|k: int|
        0 <= k < states.len() ==> (#[trigger] states[k]).initial_count + states[k].gifts <= u32::MAX
}

/// How the numbers change when thread `t` moves.
proof fn numbers_after_move(threads: Map<int, Thread>, t: int, to: Thread)
    requires
        threads.dom().finite(),
        threads.contains_key(t),
    ensures
        ({
            let from = threads[t];
            let next = threads.insert(t, to);
            let permits = |thread: Thread| thread.has_permit();
            let counted = |thread: Thread| thread.is_counted();
            let sleeping = |thread: Thread| thread is Sleeping;
            let on_their_way = |thread: Thread| thread.is_on_its_way();
            let about_to_wake = |thread: Thread| thread.is_about_to_wake();
            &&& next.dom() == threads.dom()
            &&& interleaving::those(next, permits).len() == interleaving::those(
                threads,
                permits,
            ).len() + interleaving::one_if(to.has_permit()) - interleaving::one_if(from.has_permit())
            &&& interleaving::those(next, counted).len() == interleaving::those(
                threads,
                counted,
            ).len() + interleaving::one_if(to.is_counted()) - interleaving::one_if(from.is_counted())
            &&& interleaving::those(next, counted).len() <= threads.dom().len()
            &&& interleaving::those(next, sleeping).len() == interleaving::those(
                threads,
                sleeping,
            ).len() + interleaving::one_if(to is Sleeping) - interleaving::one_if(from is Sleeping)
            &&& interleaving::those(next, on_their_way).len() == interleaving::those(
                threads,
                on_their_way,
            ).len() + interleaving::one_if(to.is_on_its_way()) - interleaving::one_if(
                from.is_on_its_way(),
            )
            &&& interleaving::those(next, about_to_wake).len() == interleaving::those(
                threads,
                about_to_wake,
            ).len() + interleaving::one_if(to.is_about_to_wake()) - interleaving::one_if(
                from.is_about_to_wake(),
            )
        }),
{
    interleaving::those_after_move(threads, t, to, |thread: Thread| thread.has_permit());
    interleaving::those_after_move(threads, t, to, |thread: Thread| thread.is_counted());
    interleaving::those_after_move(threads, t, to, |thread: Thread| thread is Sleeping);
    interleaving::those_after_move(threads, t, to, |thread: Thread| thread.is_on_its_way());
    interleaving::those_after_move(threads, t, to, |thread: Thread| thread.is_about_to_wake());
}

proof fn initial_inv(s: System)
    requires
        s.initial(),
    ensures
        s.inv(),
{
    assert(interleaving::those(s.threads, |thread: Thread| thread.has_permit()) =~= Set::empty());
    assert(interleaving::those(s.threads, |thread: Thread| thread.is_counted()) =~= Set::empty());
    assert(interleaving::those(s.threads, |thread: Thread| thread is Sleeping) =~= Set::empty());
}

proof fn step_keeps_inv(s: System, next: System, t: int)
    requires
        s.inv(),
        s.step(next, t),
        next.initial_count + next.gifts <= u32::MAX,
    ensures
        next.inv(),
{
    let to = next.threads[t];
    interleaving::those_fewer(
        s.threads,
        |thread: Thread| thread is Sleeping,
        |thread: Thread| thread.is_counted(),
    );
    let wakes = s.threads[t] == Thread::Returning(SemCall::SignalWake) || s.threads[t]
        == Thread::Giving(SemCall::SignalWake);
    if wakes && s.sleeping() > 0 {
        let woken = Thread::Waiting(SemCall::WaitLook);
        let u = choose|u: int|
            {
                &&& #[trigger] s.threads.contains_key(u)
                &&& s.threads[u] is Sleeping
                &&& next.threads == s.threads.insert(u, woken).insert(t, to)
            };
        numbers_after_move(s.threads, u, woken);
        numbers_after_move(s.threads.insert(u, woken), t, to);
    } else {
        if wakes {
            assert forall|u: int| #[trigger] s.threads.contains_key(u) implies !(
            s.threads[u] is Sleeping) by {
                if s.threads[u] is Sleeping {
                    interleaving::those_some(s.threads, u, |thread: Thread| thread is Sleeping);
                }
            }
        }
        assert(next.threads == s.threads.insert(t, to));
        numbers_after_move(s.threads, t, to);
    }
    assert forall|v: int| #[trigger] next.threads.contains_key(v) implies next.in_order(v) by {
        assert(s.threads.contains_key(v));
    }
}

proof fn run_keeps_inv(states: Seq<System>, who: Seq<int>, k: int)
    requires
        run(states, who),
        0 <= k < states.len(),
    ensures
        states[k].inv(),
    decreases k,
{
    if k > 0 {
        run_keeps_inv(states, who, k - 1);
        assert(states[k - 1].step(states[k - 1 + 1], who[k - 1]));
        step_keeps_inv(states[k - 1], states[k], who[k - 1]);
    } else {
        initial_inv(states[0]);
    }
}

/// No permit is lost and none is made up: the permits that are left and those that threads have are
/// the permits there were at the start and those given since.
pub proof fn law_permits_are_conserved(states: Seq<System>, who: Seq<int>, k: int)
    requires
        run(states, who),
        0 <= k < states.len(),
    ensures
        states[k].words.count + states[k].permits_out() == states[k].initial_count
            + states[k].gifts,
{
    run_keeps_inv(states, who, k);
}

/// Where every signal gives back a permit, no more threads have a permit than there were permits at
/// the start.
pub proof fn law_access_is_bounded(states: Seq<System>, who: Seq<int>, k: int)
    requires
        run(states, who),
        0 <= k < states.len(),
        states[k].gifts == 0,
    ensures
        states[k].permits_out() <= states[k].initial_count,
{
    run_keeps_inv(states, who, k);
}

/// Once no thread is in a call or has a permit, and every signal gave back a permit, the semaphore
/// is as it was.
pub proof fn law_quiet_semaphore_is_restored(states: Seq<System>, who: Seq<int>, k: int)
    requires
        run(states, who),
        0 <= k < states.len(),
        states[k].gifts == 0,
        forall|t: int| #[trigger]
            states[k].threads.contains_key(t) ==> states[k].threads[t] is Idle,
    ensures
        states[k].words == states[0].words,
{
    run_keeps_inv(states, who, k);
    initial_count_is_kept(states, who, k);
    let s = states[k];
    assert(interleaving::those(s.threads, |thread: Thread| thread.has_permit()) =~= Set::empty());
    assert(interleaving::those(s.threads, |thread: Thread| thread.is_counted()) =~= Set::empty());
}

proof fn initial_count_is_kept(states: Seq<System>, who: Seq<int>, k: int)
    requires
        run(states, who),
        0 <= k < states.len(),
    ensures
        states[k].initial_count == states[0].initial_count,
    decreases k,
{
    if k > 0 {
        initial_count_is_kept(states, who, k - 1);
        assert(states[k - 1].step(states[k - 1 + 1], who[k - 1]));
    }
}

/// The second word counts the threads that wait.
pub proof fn law_waiting_threads_are_counted(states: Seq<System>, who: Seq<int>, k: int)
    requires
        run(states, who),
        0 <= k < states.len(),
    ensures
        states[k].words.num_waiting == states[k].counted(),
{
    run_keeps_inv(states, who, k);
}

/// No signal is lost: while a thread sleeps and there is a permit, another thread is on its way to
/// take it or about to wake a sleeper. So nobody sleeps beside a permit for good.
pub proof fn law_no_signal_is_lost(states: Seq<System>, who: Seq<int>, k: int)
    requires
        run(states, who),
        0 <= k < states.len(),
        states[k].sleeping() > 0,
        states[k].words.count > 0,
    ensures
        exists|t: int|
            #![trigger states[k].threads[t]]
            states[k].threads.contains_key(t) && (states[k].threads[t].is_on_its_way()
                || states[k].threads[t].is_about_to_wake()),
{
    run_keeps_inv(states, who, k);
    let s = states[k];
    if s.on_their_way() > 0 {
        let t = interleaving::those_pick(s.threads, |thread: Thread| thread.is_on_its_way());
        assert(s.threads[t].is_on_its_way());
    } else {
        let t = interleaving::those_pick(s.threads, |thread: Thread| thread.is_about_to_wake());
        assert(s.threads[t].is_about_to_wake());
    }
}

} // verus!
