//! Threads that share an [`advanced_mutex`](crate::advanced_mutex).
//!
//! Here a thread that sleeps is told apart from one that is about to sleep, and a wake-up call ends
//! the sleep of one thread, if any sleeps.

use crate::advanced_mutex::{
    MutexCall, MutexOutcome, MutexWord, MutexWords, CONTENDED, UNLOCKED,
};
use crate::word::{Action, Reply};
use vstd::prelude::*;

verus! {

/// Where a thread stands.
pub enum Thread {
    /// Outside of any call, without the mutex.
    Idle,
    /// In `lock` or `try_lock`, awake.
    Locking(MutexCall),
    /// In `lock`, asleep.
    Sleeping,
    /// With the mutex, free to change the data.
    Holding,
    /// In `unlock`.
    Unlocking(MutexCall),
}

impl Thread {
    /// The thread has taken the mutex and not yet freed it.
    pub open spec fn has_mutex(self) -> bool {
        match self {
            Thread::Holding => true,
            Thread::Locking(call) => call == MutexCall::SlowWake || call == MutexCall::Done(
                MutexOutcome::Acquired,
            ),
            Thread::Unlocking(call) => call == MutexCall::Unlock,
            _ => false,
        }
    }

    /// The thread is awake and will get the mutex and wake a sleeper, or note that somebody sleeps.
    pub open spec fn is_on_its_way(self) -> bool {
        match self {
            Thread::Locking(call) => match call {
                MutexCall::SlowLook { slept }
                | MutexCall::SlowLock { slept }
                | MutexCall::SlowMark { slept, .. } => slept,
                _ => call is SlowSleep,
            },
            _ => false,
        }
    }

    /// The thread has freed the mutex, or got it after a sleep, and is about to wake a sleeper.
    pub open spec fn is_about_to_wake(self) -> bool {
        ||| self == Thread::Unlocking(MutexCall::UnlockWake)
        ||| self == Thread::Locking(MutexCall::SlowWake)
    }
}

/// The shared word, the guarded data, and the threads.
pub struct System<T> {
    pub words: MutexWords,
    pub data: T,
    pub threads: Map<int, Thread>,
}

/// What an action may do to the word among threads that interleave.
pub open spec fn possible(
    words: MutexWords,
    action: Action<MutexWord>,
    next: MutexWords,
    reply: Reply<u32>,
) -> bool {
    match action {
        Action::Word(_, op) => op.possible(words.state, next.state, reply),
        _ => false,
    }
}

impl<T> System<T> {
    /// The mutex is free, and no thread is in a call.
    pub open spec fn initial(self) -> bool {
        &&& self.words.state == UNLOCKED
        &&& forall|t: int| #[trigger] self.threads.contains_key(t) ==> self.threads[t] is Idle
    }

    /// Thread `t` has the mutex and may touch the data.
    pub open spec fn holds(self, t: int) -> bool {
        self.threads.contains_key(t) && self.threads[t] is Holding
    }

    /// Thread `t` moves from where it stands to `to`.
    pub open spec fn moves(self, next: System<T>, t: int, to: Thread) -> bool {
        next.threads == self.threads.insert(t, to)
    }

    /// Thread `t` wakes one of the threads that sleep, if there is one, and moves to `to`.
    pub open spec fn wakes(self, next: System<T>, t: int, to: Thread) -> bool {
        ||| {
            &&& forall|u: int| #[trigger]
                self.threads.contains_key(u) ==> !(self.threads[u] is Sleeping)
            &&& next.threads == self.threads.insert(t, to)
        }
        ||| exists|u: int|
            {
                &&& #[trigger] self.threads.contains_key(u)
                &&& self.threads[u] is Sleeping
                &&& next.threads == self.threads.insert(
                    u,
                    Thread::Locking(MutexCall::SlowSleep.spec_advance(Reply::Done)),
                ).insert(t, to)
            }
    }

    /// One step of thread `t`.
    pub open spec fn step(self, next: System<T>, t: int) -> bool {
        &&& self.threads.contains_key(t)
        &&& match self.threads[t] {
            Thread::Idle => {
                &&& next.words == self.words
                &&& next.data == self.data
                &&& {
                    ||| self.moves(next, t, Thread::Locking(MutexCall::Lock))
                    ||| self.moves(next, t, Thread::Locking(MutexCall::TryLock))
                }
            },
            Thread::Locking(call) => {
                &&& next.data == self.data
                &&& match call.spec_action() {
                    Some(Action::Wait(_, value)) => {
                        &&& next.words == self.words
                        &&& {
                            ||| self.words.state == value && self.moves(
                                next,
                                t,
                                Thread::Sleeping,
                            )
                            ||| self.moves(
                                next,
                                t,
                                Thread::Locking(call.spec_advance(Reply::Done)),
                            )
                        }
                    },
                    Some(Action::WakeOne(_)) => {
                        &&& next.words == self.words
                        &&& self.wakes(next, t, Thread::Locking(call.spec_advance(Reply::Done)))
                    },
                    Some(action) => exists|reply: Reply<u32>|
                        {
                            &&& #[trigger] possible(self.words, action, next.words, reply)
                            &&& self.moves(next, t, Thread::Locking(call.spec_advance(reply)))
                        },
                    None => {
                        &&& next.words == self.words
                        &&& self.moves(
                            next,
                            t,
                            if call == MutexCall::Done(MutexOutcome::Acquired) {
                                Thread::Holding
                            } else {
                                Thread::Idle
                            },
                        )
                    },
                }
            },
            Thread::Sleeping => {
                &&& next.words == self.words
                &&& next.data == self.data
                &&& self.moves(
                    next,
                    t,
                    Thread::Locking(MutexCall::SlowSleep.spec_advance(Reply::Done)),
                )
            },
            Thread::Holding => {
                &&& next.words == self.words
                &&& {
                    ||| next.threads == self.threads
                    ||| next.data == self.data && self.moves(
                        next,
                        t,
                        Thread::Unlocking(MutexCall::Unlock),
                    )
                }
            },
            Thread::Unlocking(call) => {
                &&& next.data == self.data
                &&& match call.spec_action() {
                    Some(Action::WakeOne(_)) => {
                        &&& next.words == self.words
                        &&& self.wakes(
                            next,
                            t,
                            Thread::Unlocking(call.spec_advance(Reply::Done)),
                        )
                    },
                    Some(action) => exists|reply: Reply<u32>|
                        {
                            &&& #[trigger] possible(self.words, action, next.words, reply)
                            &&& self.moves(next, t, Thread::Unlocking(call.spec_advance(reply)))
                        },
                    None => next.words == self.words && self.moves(next, t, Thread::Idle),
                }
            },
        }
    }

    /// Thread `t` has taken the mutex and not yet freed it.
    spec fn owns(self, t: int) -> bool {
        self.threads.contains_key(t) && self.threads[t].has_mutex()
    }

    /// A thread sees to it that those who sleep are not forgotten.
    spec fn is_seen_to(self) -> bool {
        exists|t: int|
            {
                &&& #[trigger] self.threads.contains_key(t)
                &&& self.threads[t].is_on_its_way() || self.threads[t].is_about_to_wake()
            }
    }

    /// What every step keeps: there is at most one owner, the word is free just when there is none,
    /// and nobody sleeps unless the word says so or somebody sees to it.
    spec fn inv(self) -> bool {
        &&& forall|t: int| #[trigger] self.owns(t) ==> self.words.state != UNLOCKED
        &&& self.words.state != UNLOCKED ==> exists|t: int| #[trigger] self.owns(t)
        &&& forall|t: int, u: int| #[trigger] self.owns(t) && #[trigger] self.owns(u) ==> t == u
        &&& forall|t: int| #[trigger]
            self.threads.contains_key(t) ==> match self.threads[t] {
                Thread::Locking(call) => match call {
                    MutexCall::Unlock | MutexCall::UnlockWake => false,
                    MutexCall::SlowMark { seen, .. } => seen != UNLOCKED,
                    _ => true,
                },
                Thread::Unlocking(call) => call is Unlock || call is UnlockWake || call is Done
                    && call != MutexCall::Done(MutexOutcome::Acquired),
                _ => true,
            }
        &&& (exists|t: int| #[trigger] self.threads.contains_key(t) && self.threads[t] is Sleeping)
            ==> self.words.state == CONTENDED || self.is_seen_to()
    }
}

/// A run of the system: `states[k + 1]` comes from `states[k]` by a step of thread `who[k]`.
pub open spec fn run<T>(states: Seq<System<T>>, who: Seq<int>) -> bool {
    &&& states.len() == who.len() + 1
    &&& states[0].initial()
    &&& forall|k: int| 0 <= k < who.len() ==> states[k].step(states[k + 1], #[trigger] who[k])
}

proof fn step_keeps_inv<T>(s: System<T>, next: System<T>, t: int)
    requires
        s.inv(),
        s.step(next, t),
    ensures
        next.inv(),
{
    let to = next.threads[t];
    let woken = Thread::Locking(MutexCall::SlowLook { slept: true });
    // The other threads stay where they are, but for the one that is woken.
    assert forall|u: int| #[trigger] s.threads.contains_key(u) && u != t implies
        next.threads.contains_key(u) && (next.threads[u] == s.threads[u] || (
        s.threads[u] is Sleeping && next.threads[u] == woken && s.threads[t].is_about_to_wake())) by {}
    assert forall|u: int| #[trigger] next.threads.contains_key(u) implies s.threads.contains_key(
        u,
    ) by {}
    assert(next.threads.contains_key(t));
    assert forall|u: int| #![trigger next.owns(u)] u != t implies next.owns(u) == s.owns(u) by {}
    assert forall|u: int| #![trigger s.owns(u)] u != t implies next.owns(u) == s.owns(u) by {}
    assert(next.owns(t) == to.has_mutex() && s.owns(t) == s.threads[t].has_mutex());
    if s.words.state != UNLOCKED {
        let u = choose|u: int| #[trigger] s.owns(u);
        assert(s.owns(u) && (u != t ==> next.owns(u)));
    }
    if s.is_seen_to() {
        let u = choose|u: int|
            {
                &&& #[trigger] s.threads.contains_key(u)
                &&& s.threads[u].is_on_its_way() || s.threads[u].is_about_to_wake()
            };
        assert(u != t ==> next.threads.contains_key(u) && next.threads[u] == s.threads[u]);
    }
    if s.threads[t].is_about_to_wake() && exists|u: int| #[trigger]
        s.threads.contains_key(u) && s.threads[u] is Sleeping {
        let u = choose|u: int|
            {
                &&& #[trigger] s.threads.contains_key(u)
                &&& s.threads[u] is Sleeping
                &&& next.threads == s.threads.insert(u, woken).insert(t, to)
            };
        assert(next.threads.contains_key(u) && next.threads[u].is_on_its_way());
    }
}

proof fn run_keeps_inv<T>(states: Seq<System<T>>, who: Seq<int>, k: int)
    requires
        run(states, who),
        0 <= k < states.len(),
    ensures
        states[k].inv(),
    decreases k,
{
    if k > 0 {
        run_keeps_inv(states, who, k - 1);
        assert(states[k - 1].step(states[k - 1 + 1], who[k - 1]));
        step_keeps_inv(states[k - 1], states[k], who[k - 1]);
    }
}

/// At most one thread has the mutex, at any time, in any run.
pub proof fn law_mutual_exclusion<T>(
    states: Seq<System<T>>,
    who: Seq<int>,
    k: int,
    t: int,
    u: int,
)
    requires
        run(states, who),
        0 <= k < states.len(),
        states[k].holds(t),
        states[k].holds(u),
    ensures
        t == u,
{
    run_keeps_inv(states, who, k);
    assert(states[k].owns(t) && states[k].owns(u));
}

/// While a thread has the mutex, no step of another thread changes the data or takes the mutex
/// away.
pub proof fn law_data_is_exclusive<T>(states: Seq<System<T>>, who: Seq<int>, k: int, t: int)
    requires
        run(states, who),
        0 <= k < who.len(),
        states[k].holds(t),
        who[k] != t,
    ensures
        states[k + 1].holds(t),
        states[k + 1].data == states[k].data,
{
    run_keeps_inv(states, who, k);
    assert(states[k].step(states[k + 1], who[k]));
    assert(states[k].owns(t));
    if states[k].holds(who[k]) {
        assert(states[k].owns(who[k]));
    }
}

/// No release is lost: while a thread sleeps, either another one has the mutex and the word tells
/// it to wake somebody when it frees it, or another one is awake to see to it: it is about to wake
/// a sleeper, or has slept and will get the mutex or note in the word that somebody sleeps. So
/// nobody sleeps beside a free mutex for good.
pub proof fn law_no_release_is_lost<T>(states: Seq<System<T>>, who: Seq<int>, k: int, t: int)
    requires
        run(states, who),
        0 <= k < states.len(),
        states[k].threads.contains_key(t),
        states[k].threads[t] is Sleeping,
    ensures
        exists|u: int|
            {
                &&& #[trigger] states[k].threads.contains_key(u)
                &&& {
                    ||| states[k].threads[u].has_mutex() && states[k].words.state == CONTENDED
                    ||| states[k].threads[u].is_on_its_way()
                    ||| states[k].threads[u].is_about_to_wake()
                }
            },
{
    run_keeps_inv(states, who, k);
    let s = states[k];
    if s.words.state == CONTENDED {
        let u = choose|u: int| #[trigger] s.owns(u);
        assert(s.threads.contains_key(u));
    }
}

/// The word tells whether somebody has the mutex.
pub proof fn law_word_tells_who_has_it<T>(states: Seq<System<T>>, who: Seq<int>, k: int)
    requires
        run(states, who),
        0 <= k < states.len(),
    ensures
        states[k].words.state == UNLOCKED <==> forall|t: int| #[trigger]
            states[k].threads.contains_key(t) ==> !states[k].threads[t].has_mutex(),
{
    run_keeps_inv(states, who, k);
    let s = states[k];
    if s.words.state != UNLOCKED {
        let u = choose|u: int| #[trigger] s.owns(u);
        assert(s.threads.contains_key(u));
    } else {
        assert forall|t: int| #[trigger] s.threads.contains_key(t) implies !s.threads[t].has_mutex() by {
            assert(!s.owns(t));
        }
    }
}

} // verus!
