//! Threads that share a [`spinlock`](crate::spinlock).

use crate::spinlock::{SpinCall, SpinOutcome, UNLOCKED};
use crate::word::Reply;
use vstd::prelude::*;

verus! {

/// Where a thread stands.
pub enum Thread {
    /// Outside of any call, without the lock.
    Idle,
    /// In `lock`.
    Locking(SpinCall),
    /// With the lock, free to change the data.
    Holding,
    /// With the lock, in a second `lock`.
    LockingAgain(SpinCall),
    /// In `unlock`.
    Unlocking(SpinCall),
    /// Ended by the error of taking the lock a second time.
    Failed,
}

/// The shared word, the guarded data, the threads, and their numbers.
pub struct System<T> {
    pub locking_thread: usize,
    pub data: T,
    pub threads: Map<int, Thread>,
    pub numbers: Map<int, usize>,
}

impl<T> System<T> {
    /// The lock is free, and no thread is in a call.
    pub open spec fn initial(self) -> bool {
        &&& self.locking_thread == UNLOCKED
        &&& forall|t: int| #[trigger] self.threads.contains_key(t) ==> self.threads[t] is Idle
    }

    /// Different threads have different numbers, and none of them says that the lock is free.
    pub open spec fn numbers_tell_apart(self) -> bool {
        &&& forall|t: int| #[trigger]
            self.threads.contains_key(t) ==> self.numbers[t] != UNLOCKED
        &&& forall|t: int, u: int| #[trigger]
            self.threads.contains_key(t) && #[trigger] self.threads.contains_key(u)
                && self.numbers[t] == self.numbers[u] ==> t == u
    }

    /// Thread `t` has the lock and may touch the data.
    pub open spec fn holds(self, t: int) -> bool {
        self.threads.contains_key(t) && (self.threads[t] is Holding
            || self.threads[t] is LockingAgain)
    }

    /// Thread `t` moves from where it stands to `to`; nothing else changes but the word and the
    /// data.
    pub open spec fn moves(self, next: System<T>, t: int, to: Thread) -> bool {
        next.threads == self.threads.insert(t, to) && next.numbers == self.numbers
    }

    /// One step of thread `t`.
    pub open spec fn step(self, next: System<T>, t: int) -> bool {
        &&& self.threads.contains_key(t)
        &&& match self.threads[t] {
            Thread::Idle => {
                &&& next.locking_thread == self.locking_thread
                &&& next.data == self.data
                &&& self.moves(next, t, Thread::Locking(SpinCall::Look { me: self.numbers[t] }))
            },
            Thread::Locking(call) => {
                &&& next.data == self.data
                &&& match call.spec_action() {
                    Some(op) => exists|reply: Reply<usize>|
                        {
                            &&& #[trigger] op.possible(
                                self.locking_thread,
                                next.locking_thread,
                                reply,
                            )
                            &&& self.moves(next, t, Thread::Locking(call.spec_advance(reply)))
                        },
                    None => {
                        &&& next.locking_thread == self.locking_thread
                        &&& self.moves(
                            next,
                            t,
                            if call == SpinCall::Done(SpinOutcome::Acquired) {
                                Thread::Holding
                            } else {
                                Thread::Failed
                            },
                        )
                    },
                }
            },
            Thread::Holding => {
                &&& next.locking_thread == self.locking_thread
                &&& {
                    ||| next.threads == self.threads && next.numbers == self.numbers
                    ||| next.data == self.data && self.moves(
                        next,
                        t,
                        Thread::Unlocking(SpinCall::Unlock),
                    )
                    ||| next.data == self.data && self.moves(
                        next,
                        t,
                        Thread::LockingAgain(SpinCall::Look { me: self.numbers[t] }),
                    )
                }
            },
            Thread::LockingAgain(call) => {
                &&& next.data == self.data
                &&& match call.spec_action() {
                    Some(op) => exists|reply: Reply<usize>|
                        {
                            &&& #[trigger] op.possible(
                                self.locking_thread,
                                next.locking_thread,
                                reply,
                            )
                            &&& self.moves(next, t, Thread::LockingAgain(call.spec_advance(reply)))
                        },
                    // The error unwinds the thread, which frees the lock on its way.
                    None => {
                        &&& next.locking_thread == self.locking_thread
                        &&& self.moves(next, t, Thread::Unlocking(SpinCall::Unlock))
                    },
                }
            },
            Thread::Unlocking(call) => {
                &&& next.data == self.data
                &&& match call.spec_action() {
                    Some(op) => exists|reply: Reply<usize>|
                        {
                            &&& #[trigger] op.possible(
                                self.locking_thread,
                                next.locking_thread,
                                reply,
                            )
                            &&& self.moves(next, t, Thread::Unlocking(call.spec_advance(reply)))
                        },
                    None => {
                        &&& next.locking_thread == self.locking_thread
                        &&& self.moves(next, t, Thread::Idle)
                    },
                }
            },
            Thread::Failed => false,
        }
    }

    /// Thread `t` has taken the lock and not yet freed it.
    spec fn owns(self, t: int) -> bool {
        self.threads.contains_key(t) && match self.threads[t] {
            Thread::Holding | Thread::LockingAgain(_) => true,
            Thread::Locking(call) => call == SpinCall::Done(SpinOutcome::Acquired),
            Thread::Unlocking(call) => call is Unlock,
            _ => false,
        }
    }

    /// What a thread may be in the middle of.
    spec fn in_order(self, t: int) -> bool {
        match self.threads[t] {
            Thread::Locking(call) => match call {
                SpinCall::Look { me } => me == self.numbers[t],
                SpinCall::Take { me } => me == self.numbers[t] && me != UNLOCKED,
                SpinCall::Unlock => false,
                SpinCall::Done(outcome) => !(outcome is Released),
            },
            Thread::LockingAgain(call) => call == (SpinCall::Look { me: self.numbers[t] }) || call
                == SpinCall::Done(SpinOutcome::Reentrant),
            Thread::Unlocking(call) => call is Unlock || call == SpinCall::Done(
                SpinOutcome::Released,
            ),
            _ => true,
        }
    }

    /// What every step keeps: there is at most one owner, and the word is its number.
    spec fn inv(self) -> bool {
        &&& forall|t: int| #[trigger] self.threads.contains_key(t) ==> self.in_order(t)
        &&& forall|t: int| #[trigger]
            self.owns(t) ==> self.locking_thread == self.numbers[t] && self.numbers[t] != UNLOCKED
        &&& forall|t: int, u: int| #[trigger] self.owns(t) && #[trigger] self.owns(u) ==> t == u
        &&& self.locking_thread != UNLOCKED ==> exists|t: int| #[trigger] self.owns(t)
    }
}

/// A run of the system: `states[k + 1]` comes from `states[k]` by a step of thread `who[k]`.
pub open spec fn run<T>(states: Seq<System<T>>, who: Seq<int>) -> bool {
    &&& states.len() == who.len() + 1
    &&& states[0].initial()
    &&& forall|k: int| 0 <= k < who.len() ==> states[k].step(states[k + 1], #[trigger] who[k])
}

proof fn step_keeps_inv<T>(s: System<T>, next: System<T>, t: int)
    requires
        s.inv(),
        s.step(next, t),
    ensures
        next.inv(),
{
    assert forall|u: int| #![trigger next.owns(u)] u != t implies next.owns(u) == s.owns(u) by {}
    assert forall|u: int| #![trigger s.owns(u)] u != t implies next.owns(u) == s.owns(u) by {}
    assert forall|u: int| #[trigger] next.threads.contains_key(u) implies next.in_order(u) by {
        assert(s.threads.contains_key(u));
        assert(s.in_order(u) && s.in_order(t));
        if s.threads[t] is LockingAgain {
            assert(s.owns(t));
        }
    }
    match s.threads[t] {
        Thread::Locking(call) => {
            assert(next.owns(t) ==> s.owns(t) || s.locking_thread == UNLOCKED);
            assert(s.owns(t) ==> next.owns(t));
        },
        Thread::Unlocking(call) => {
            assert(call is Unlock ==> s.owns(t));
            assert(!next.owns(t));
        },
        Thread::Holding | Thread::LockingAgain(_) => {
            assert(s.owns(t) && next.owns(t));
        },
        _ => {
            assert(!s.owns(t) && !next.owns(t));
        },
    }
    if next.locking_thread != UNLOCKED {
        if s.locking_thread == UNLOCKED {
            assert(next.owns(t));
        } else {
            let u = choose|u: int| #[trigger] s.owns(u);
            assert(next.owns(u));
        }
    }
    assert forall|u: int| #[trigger] next.owns(u) implies next.locking_thread == next.numbers[u]
        && next.numbers[u] != UNLOCKED by {
        assert(s.in_order(t));
    }
}

proof fn run_keeps_inv<T>(states: Seq<System<T>>, who: Seq<int>, k: int)
    requires
        run(states, who),
        0 <= k < states.len(),
    ensures
        states[k].inv(),
        states[k].numbers == states[0].numbers,
        states[k].threads.dom() =~= states[0].threads.dom(),
    decreases k,
{
    if k > 0 {
        run_keeps_inv(states, who, k - 1);
        assert(states[k - 1].step(states[k - 1 + 1], who[k - 1]));
        step_keeps_inv(states[k - 1], states[k], who[k - 1]);
    }
}

/// At most one thread has the lock, at any time, in any run.
pub proof fn law_mutual_exclusion<T>(
    states: Seq<System<T>>,
    who: Seq<int>,
    k: int,
    t: int,
    u: int,
)
    requires
        run(states, who),
        0 <= k < states.len(),
        states[k].holds(t),
        states[k].holds(u),
    ensures
        t == u,
{
    run_keeps_inv(states, who, k);
    assert(states[k].owns(t) && states[k].owns(u));
}

/// While a thread has the lock, no step of another thread changes the data or takes the lock away.
pub proof fn law_data_is_exclusive<T>(states: Seq<System<T>>, who: Seq<int>, k: int, t: int)
    requires
        run(states, who),
        0 <= k < who.len(),
        states[k].holds(t),
        who[k] != t,
    ensures
        states[k + 1].holds(t),
        states[k + 1].data == states[k].data,
{
    run_keeps_inv(states, who, k);
    assert(states[k].step(states[k + 1], who[k]));
    assert(states[k].owns(t));
    if states[k].holds(who[k]) {
        assert(states[k].owns(who[k]));
    }
}

/// A thread that has the lock and takes it again is told so at its first look: it neither waits for
/// itself nor gets the lock twice.
pub proof fn law_reentrance_is_detected<T>(states: Seq<System<T>>, who: Seq<int>, k: int, t: int)
    requires
        run(states, who),
        0 <= k < who.len(),
        who[k] == t,
        states[k].threads[t] == Thread::LockingAgain(SpinCall::Look { me: states[k].numbers[t] }),
    ensures
        states[k + 1].threads[t] == Thread::LockingAgain(SpinCall::Done(SpinOutcome::Reentrant)),
{
    run_keeps_inv(states, who, k);
    assert(states[k].step(states[k + 1], who[k]));
    assert(states[k].owns(t));
}

/// Only a thread that has the lock is told that it has it, if different threads have different
/// numbers and no number says that the lock is free.
pub proof fn law_only_reentrance_fails<T>(states: Seq<System<T>>, who: Seq<int>, k: int, t: int)
    requires
        run(states, who),
        states[0].numbers_tell_apart(),
        0 <= k < states.len(),
        states[k].threads.contains_key(t),
    ensures
        states[k].threads[t] != Thread::Locking(SpinCall::Done(SpinOutcome::Reentrant)),
    decreases k,
{
    if k > 0 {
        run_keeps_inv(states, who, k - 1);
        let s = states[k - 1];
        assert(s.step(states[k - 1 + 1], who[k - 1]));
        law_only_reentrance_fails(states, who, k - 1, t);
        assert(s.in_order(t));
        assert(states[0].threads.contains_key(t));
        assert(s.numbers[t] != UNLOCKED);
        if s.locking_thread != UNLOCKED {
            let u = choose|u: int| #[trigger] s.owns(u);
            assert(states[0].threads.contains_key(u));
        }
    }
}

} // verus!
