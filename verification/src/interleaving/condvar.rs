//! Threads that share a [`condvar`](crate::condvar).
//!
//! Here a thread that sleeps is told apart from one that is about to sleep, and a wake-up call ends
//! the sleep of one thread, if any sleeps, or of all.

use crate::condvar::{CondAction, CondCall, CondWord, CondWords};
use crate::interleaving;
use crate::word::{Action, Reply};
use vstd::prelude::*;

verus! {

/// Where a thread stands.
pub enum Thread {
    /// Outside of any call.
    Idle,
    /// In `wait`, awake.
    Waiting(CondCall),
    /// In `wait`, asleep, having seen this number of notifications.
    Sleeping { seen: u32 },
    /// In `notify_one` or `notify_all`.
    Notifying(CondCall),
}

impl Thread {
    /// The thread is counted among those that wait.
    pub open spec fn is_counted(self) -> bool {
        match self {
            Thread::Sleeping { .. } => true,
            Thread::Waiting(call) => call is WaitUnlock || call is WaitSleep || call is WaitLeave,
            _ => false,
        }
    }

    /// The thread where a wake-up call leaves it.
    pub open spec fn woken(self) -> Thread {
        match self {
            Thread::Sleeping { seen } => Thread::Waiting(
                CondCall::WaitSleep { seen }.spec_advance(Reply::Done),
            ),
            _ => self,
        }
    }
}

/// The shared words and the threads.
pub struct System {
    pub words: CondWords,
    pub threads: Map<int, Thread>,
}

/// What an atomic operation may do to the words among threads that interleave.
pub open spec fn possible(
    words: CondWords,
    action: Action<CondWord>,
    next: CondWords,
    reply: Reply<u32>,
) -> bool {
    match action {
        Action::Word(word, op) => {
            &&& op.possible(words.get(word), next.get(word), reply)
            &&& next == words.set(word, next.get(word))
        },
        _ => false,
    }
}

impl System {
    /// The condition variable is new, and no thread is in a call. There are at most as many threads
    /// as can be counted.
    pub open spec fn initial(self) -> bool {
        &&& self.words.waiting == 0
        &&& self.threads.dom().finite()
        &&& self.threads.dom().len() <= u32::MAX
        &&& forall|t: int| #[trigger] self.threads.contains_key(t) ==> self.threads[t] is Idle
    }

    /// How many threads are counted among those that wait.
    pub open spec fn counted(self) -> nat {
        interleaving::those(self.threads, |thread: Thread| thread.is_counted()).len()
    }

    /// Thread `t` sleeps although there was a notification since it last looked.
    pub open spec fn is_overdue(self, t: int) -> bool {
        self.threads.contains_key(t) && match self.threads[t] {
            Thread::Sleeping { seen } => seen != self.words.counter,
            _ => false,
        }
    }

    /// Thread `t` is about to wake all that sleep, or to see whether it has to.
    pub open spec fn is_about_to_wake_all(self, t: int) -> bool {
        self.threads.contains_key(t) && match self.threads[t] {
            Thread::Notifying(call) => call is NotifyAllLook || call is NotifyAllWake,
            _ => false,
        }
    }

    /// Thread `t` moves from where it stands to `to`.
    pub open spec fn moves(self, next: System, t: int, to: Thread) -> bool {
        next.threads == self.threads.insert(t, to)
    }

    /// One step of thread `t`.
    pub open spec fn step(self, next: System, t: int) -> bool {
        &&& self.threads.contains_key(t)
        &&& match self.threads[t] {
            Thread::Idle => {
                &&& next.words == self.words
                &&& {
                    ||| self.moves(next, t, Thread::Waiting(CondCall::WaitLook))
                    ||| self.moves(next, t, Thread::Notifying(CondCall::NotifyOne))
                    ||| self.moves(next, t, Thread::Notifying(CondCall::NotifyAll))
                }
            },
            Thread::Waiting(call) => match call.spec_action() {
                Some(CondAction::Word(Action::Wait(_, value))) => {
                    &&& next.words == self.words
                    &&& {
                        ||| self.words.counter == value && self.moves(
                            next,
                            t,
                            Thread::Sleeping { seen: value },
                        )
                        ||| self.moves(next, t, Thread::Waiting(call.spec_advance(Reply::Done)))
                    }
                },
                Some(CondAction::Word(action)) => exists|reply: Reply<u32>|
                    {
                        &&& #[trigger] possible(self.words, action, next.words, reply)
                        &&& self.moves(next, t, Thread::Waiting(call.spec_advance(reply)))
                    },
                Some(_) => {
                    &&& next.words == self.words
                    &&& self.moves(next, t, Thread::Waiting(call.spec_advance(Reply::Done)))
                },
                None => next.words == self.words && self.moves(next, t, Thread::Idle),
            },
            Thread::Sleeping { .. } => {
                next.words == self.words && self.moves(next, t, self.threads[t].woken())
            },
            Thread::Notifying(call) => match call.spec_action() {
                Some(CondAction::Word(Action::WakeOne(_))) => {
                    let to = Thread::Notifying(call.spec_advance(Reply::Done));
                    &&& next.words == self.words
                    &&& {
                        ||| {
                            &&& forall|u: int| #[trigger]
                                self.threads.contains_key(u) ==> !(self.threads[u] is Sleeping)
                            &&& self.moves(next, t, to)
                        }
                        ||| exists|u: int|
                            {
                                &&& #[trigger] self.threads.contains_key(u)
                                &&& self.threads[u] is Sleeping
                                &&& next.threads == self.threads.insert(
                                    u,
                                    self.threads[u].woken(),
                                ).insert(t, to)
                            }
                    }
                },
                Some(CondAction::Word(Action::WakeAll(_))) => {
                    &&& next.words == self.words
                    &&& next.threads == Map::new(
                        |u: int| self.threads.contains_key(u),
                        |u: int| self.threads[u].woken(),
                    ).insert(t, Thread::Notifying(call.spec_advance(Reply::Done)))
                },
                Some(CondAction::Word(action)) => exists|reply: Reply<u32>|
                    {
                        &&& #[trigger] possible(self.words, action, next.words, reply)
                        &&& self.moves(next, t, Thread::Notifying(call.spec_advance(reply)))
                    },
                _ => next.words == self.words && self.moves(next, t, Thread::Idle),
            },
        }
    }

    /// What a thread may be in the middle of.
    spec fn in_order(self, t: int) -> bool {
        match self.threads[t] {
            Thread::Waiting(call) => match call {
                CondCall::NotifyOne
                | CondCall::NotifyOneWake
                | CondCall::NotifyAll
                | CondCall::NotifyAllLook
                | CondCall::NotifyAllWake => false,
                _ => true,
            },
            Thread::Notifying(call) => match call {
                CondCall::NotifyOne
                | CondCall::NotifyOneWake
                | CondCall::NotifyAll
                | CondCall::NotifyAllLook
                | CondCall::NotifyAllWake
                | CondCall::Done(_) => true,
                _ => false,
            },
            _ => true,
        }
    }

    /// What every step keeps.
    spec fn inv(self) -> bool {
        &&& self.threads.dom().finite()
        &&& self.threads.dom().len() <= u32::MAX
        &&& forall|t: int| #[trigger] self.threads.contains_key(t) ==> self.in_order(t)
        &&& self.words.waiting == self.counted()
    }

    /// No thread is in `notify_one`.
    pub open spec fn notifies_all_only(self) -> bool {
        forall|t: int| #[trigger]
            self.threads.contains_key(t) ==> self.threads[t] != Thread::Notifying(
                CondCall::NotifyOne,
            ) && self.threads[t] != Thread::Notifying(CondCall::NotifyOneWake)
    }
}

/// A run of the system: `states[k + 1]` comes from `states[k]` by a step of thread `who[k]`.
pub open spec fn run(states: Seq<System>, who: Seq<int>) -> bool {
    &&& states.len() == who.len() + 1
    &&& states[0].initial()
    &&& forall|k: int| 0 <= k < who.len() ==> states[k].step(states[k + 1], #[trigger] who[k])
}

proof fn step_keeps_inv(s: System, next: System, t: int)
    requires
        s.inv(),
        s.step(next, t),
    ensures
        next.inv(),
{
    let counted = |thread: Thread| thread.is_counted();
    let to = next.threads[t];
    if s.threads[t] == Thread::Notifying(CondCall::NotifyAllWake) {
        assert(next.threads.dom() =~= s.threads.dom());
        assert(interleaving::those(next.threads, counted) =~= interleaving::those(
            s.threads,
            counted,
        ));
    } else if next.threads == s.threads.insert(t, to) {
        interleaving::those_after_move(s.threads, t, to, counted);
    } else {
        let u = choose|u: int|
            {
                &&& #[trigger] s.threads.contains_key(u)
                &&& s.threads[u] is Sleeping
                &&& next.threads == s.threads.insert(u, s.threads[u].woken()).insert(t, to)
            };
        interleaving::those_after_move(s.threads, u, s.threads[u].woken(), counted);
        interleaving::those_after_move(
            s.threads.insert(u, s.threads[u].woken()),
            t,
            to,
            counted,
        );
    }
    assert forall|v: int| #[trigger] next.threads.contains_key(v) implies next.in_order(v) by {
        assert(s.threads.contains_key(v));
        assert(s.in_order(v));
    }
}

proof fn run_keeps_inv(states: Seq<System>, who: Seq<int>, k: int)
    requires
        run(states, who),
        0 <= k < states.len(),
    ensures
        states[k].inv(),
    decreases k,
{
    if k > 0 {
        run_keeps_inv(states, who, k - 1);
        assert(states[k - 1].step(states[k - 1 + 1], who[k - 1]));
        step_keeps_inv(states[k - 1], states[k], who[k - 1]);
    } else {
        assert(interleaving::those(states[0].threads, |thread: Thread| thread.is_counted())
            =~= Set::empty());
    }
}

/// The second word counts the threads that wait.
pub proof fn law_waiting_threads_are_counted(states: Seq<System>, who: Seq<int>, k: int)
    requires
        run(states, who),
        0 <= k < states.len(),
    ensures
        states[k].words.waiting == states[k].counted(),
{
    run_keeps_inv(states, who, k);
}

/// A thread does not fall asleep once there was a notification since it looked.
pub proof fn law_notification_before_sleep_is_seen(
    states: Seq<System>,
    who: Seq<int>,
    k: int,
    seen: u32,
)
    requires
        run(states, who),
        0 <= k < who.len(),
        states[k].threads[who[k]] == Thread::Waiting(CondCall::WaitSleep { seen }),
        states[k].words.counter != seen,
    ensures
        states[k + 1].threads[who[k]] == Thread::Waiting(CondCall::WaitLeave),
{
    assert(states[k].step(states[k + 1], who[k]));
}

/// How many threads sleep.
pub open spec fn sleepers(s: System) -> nat {
    interleaving::those(s.threads, |thread: Thread| thread is Sleeping).len()
}

/// `notify_one` wakes one: where threads sleep, its wake-up step ends the sleep of one of them, and
/// of no other; where none sleeps, it wakes nobody.
pub proof fn law_notify_one_wakes_one(states: Seq<System>, who: Seq<int>, k: int)
    requires
        run(states, who),
        0 <= k < who.len(),
        states[k].threads[who[k]] == Thread::Notifying(CondCall::NotifyOneWake),
    ensures
        sleepers(states[k]) > 0 ==> sleepers(states[k + 1]) == sleepers(states[k]) - 1,
        sleepers(states[k]) > 0 ==> exists|u: int|
            {
                &&& #[trigger] states[k].threads.contains_key(u)
                &&& states[k].threads[u] is Sleeping
                &&& states[k + 1].threads[u] == Thread::Waiting(CondCall::WaitLeave)
                &&& forall|v: int| #[trigger]
                    states[k].threads.contains_key(v) && v != u && v != who[k]
                        ==> states[k + 1].threads[v] == states[k].threads[v]
            },
        sleepers(states[k]) == 0 ==> forall|v: int| #[trigger]
            states[k].threads.contains_key(v) && v != who[k] ==> states[k + 1].threads[v]
                == states[k].threads[v],
{
    run_keeps_inv(states, who, k);
    let s = states[k];
    let next = states[k + 1];
    let t = who[k];
    assert(s.step(next, t));
    let asleep = |thread: Thread| thread is Sleeping;
    let to = next.threads[t];
    if next.threads == s.threads.insert(t, to) && forall|u: int| #[trigger]
        s.threads.contains_key(u) ==> !(s.threads[u] is Sleeping) {
        assert(interleaving::those(s.threads, asleep) =~= Set::empty());
    } else {
        let u = choose|u: int|
            {
                &&& #[trigger] s.threads.contains_key(u)
                &&& s.threads[u] is Sleeping
                &&& next.threads == s.threads.insert(u, s.threads[u].woken()).insert(t, to)
            };
        interleaving::those_some(s.threads, u, asleep);
        interleaving::those_after_move(s.threads, u, s.threads[u].woken(), asleep);
        interleaving::those_after_move(s.threads.insert(u, s.threads[u].woken()), t, to, asleep);
        assert(s.threads.contains_key(u) && s.threads[u] is Sleeping);
    }
}

/// Where all notifications are for all, none is lost: a thread that sleeps past a notification is
/// about to be woken.
pub proof fn law_notify_all_misses_nobody(states: Seq<System>, who: Seq<int>, k: int, t: int)
    requires
        run(states, who),
        forall|j: int| 0 <= j < states.len() ==> (#[trigger] states[j]).notifies_all_only(),
        0 <= k < states.len(),
        states[k].is_overdue(t),
    ensures
        exists|u: int| #[trigger] states[k].is_about_to_wake_all(u),
    decreases k,
{
    if k > 0 {
        let s = states[k - 1];
        let next = states[k];
        let v = who[k - 1];
        assert(s.step(states[k - 1 + 1], v));
        run_keeps_inv(states, who, k - 1);
        assert(s.notifies_all_only() && next.notifies_all_only());
        if next.is_about_to_wake_all(v) {
        } else if s.is_overdue(t) {
            law_notify_all_misses_nobody(states, who, k - 1, t);
            let u = choose|u: int| #[trigger] s.is_about_to_wake_all(u);
            if u != v {
                assert(next.is_about_to_wake_all(u));
            } else {
                // The notifier saw that nobody waits; but this thread does.
                interleaving::those_some(s.threads, t, |thread: Thread| thread.is_counted());
                assert(false);
            }
        } else {
            assert(s.in_order(v));
            assert(next.words.counter == s.words.counter);
            assert(false);
        }
    }
}

} // verus!
