//! Threads that share a [`rwlock`](crate::rwlock).
//!
//! Here a thread that sleeps is told apart from one that is about to sleep. A wake-up call ends the
//! sleep of one thread, or of all, that sleep on its word.

use crate::interleaving;
use crate::rwlock::{RwCall, RwOutcome, RwWord, RwWords, MOST_READERS, WRITE_LOCKED};
use crate::word::{Action, Reply};
use vstd::prelude::*;

verus! {

/// Where a thread stands.
pub enum Thread {
    /// Outside of any call, without the lock.
    Idle,
    /// In `read`, `write`, `try_read` or `try_write`, awake.
    Locking(RwCall),
    /// In `read` or `write`, asleep.
    Sleeping(RwCall),
    /// With the lock, free to look at the data.
    Reading,
    /// With the lock, free to change the data.
    Writing,
    /// In an unlock.
    Unlocking(RwCall),
}

impl Thread {
    /// The thread is counted as a reader.
    pub open spec fn counts_as_reader(self) -> bool {
        match self {
            Thread::Reading => true,
            Thread::Locking(call) => call == RwCall::Done(RwOutcome::Reading),
            Thread::Unlocking(call) => call == RwCall::ReadUnlock,
            _ => false,
        }
    }

    /// The thread has taken the lock for writing and not yet freed it.
    pub open spec fn owns_for_writing(self) -> bool {
        match self {
            Thread::Writing => true,
            Thread::Locking(call) => call == RwCall::Done(RwOutcome::Writing),
            Thread::Unlocking(call) => call is WriteUnlock,
            _ => false,
        }
    }

    /// The thread is a writer that waits.
    pub open spec fn waits_to_write(self) -> bool {
        match self {
            Thread::Locking(call) => call is WriteCount || call is WriteCheck || call is WriteSleep
                || call is WriteLeave,
            Thread::Sleeping(call) => call is WriteSleep,
            _ => false,
        }
    }

    /// The thread sleeps in `read`.
    pub open spec fn sleeps_to_read(self) -> bool {
        self is Sleeping && !(self->Sleeping_0 is WriteSleep)
    }

    /// The thread sleeps in `write`.
    pub open spec fn sleeps_to_write(self) -> bool {
        self is Sleeping && self->Sleeping_0 is WriteSleep
    }

    /// The thread is awake in `write`, without the lock.
    pub open spec fn is_on_its_way_to_write(self) -> bool {
        match self {
            Thread::Locking(call) => call is WriteLook || call is WriteTake || call is WriteMark
                || call is WriteEnter || call is WriteCount || call is WriteCheck
                || call is WriteSleep || call is WriteLeave,
            _ => false,
        }
    }

    /// The thread has released the lock and is about to wake others.
    pub open spec fn is_about_to_wake(self) -> bool {
        self is Unlocking && !(self->Unlocking_0 is ReadUnlock) && !(
        self->Unlocking_0 is WriteUnlock) && !(self->Unlocking_0 is Done)
    }

    /// The thread has seen in `write` that it has to wait, and does not sleep yet.
    pub open spec fn is_about_to_sleep_to_write(self) -> bool {
        self is Locking && self->Locking_0 is WriteSleep
    }

    /// The thread was the last reader, and is about to wake a writer.
    pub open spec fn is_about_to_wake_as_last_reader(self) -> bool {
        self is Unlocking && self->Unlocking_0 is ReadUnlockWake
    }

    /// The thread has released the lock, and writers that are about to sleep may not know.
    pub open spec fn has_yet_to_tell(self) -> bool {
        self.is_about_to_wake_as_last_reader() || self is Unlocking
            && self->Unlocking_0 is WriteUnlockCount
    }

    /// The thread has released the lock and may yet wake a writer.
    pub open spec fn may_wake_a_writer(self) -> bool {
        self.is_about_to_wake() && !(self->Unlocking_0 is WriteUnlockWakeReaders)
    }

    /// The thread has released the lock and may yet wake the readers.
    pub open spec fn may_wake_the_readers(self) -> bool {
        self is Unlocking && (self->Unlocking_0 is WriteUnlockCount
            || self->Unlocking_0 is WriteUnlockLook
            || self->Unlocking_0 is WriteUnlockWakeReaders)
    }

    /// Where the thread stands after all that sleep in `read` were woken.
    pub open spec fn woken_to_read(self) -> Thread {
        if self.sleeps_to_read() {
            Thread::Locking(self->Sleeping_0.spec_advance(Reply::Done))
        } else {
            self
        }
    }
}

/// The shared words, the guarded data, and the threads.
pub struct System<T> {
    pub words: RwWords,
    pub data: T,
    pub threads: Map<int, Thread>,
}

/// What an action may do to the words among threads that interleave.
pub open spec fn possible(
    words: RwWords,
    action: Action<RwWord>,
    next: RwWords,
    reply: Reply<u32>,
) -> bool {
    match action {
        Action::Word(word, op) => {
            &&& op.possible(words.get(word), next.get(word), reply)
            &&& next == words.set(word, next.get(word))
        },
        _ => false,
    }
}

impl<T> System<T> {
    /// The lock is free, and no thread is in a call. There are at most as many threads as the count
    /// of waiting writers can tell.
    pub open spec fn initial(self) -> bool {
        &&& self.words == RwWords { state: 0, writers_number: 0, waiting_writers: 0 }
        &&& self.threads.dom().finite()
        &&& self.threads.dom().len() <= u32::MAX
        &&& forall|t: int| #[trigger] self.threads.contains_key(t) ==> self.threads[t] is Idle
    }

    /// Thread `t` has the lock and may look at the data.
    pub open spec fn reads(self, t: int) -> bool {
        self.threads.contains_key(t) && self.threads[t] is Reading
    }

    /// Thread `t` has the lock and may change the data.
    pub open spec fn writes(self, t: int) -> bool {
        self.threads.contains_key(t) && self.threads[t] is Writing
    }

    /// The threads that are counted as readers.
    pub open spec fn readers(self) -> Set<int> {
        self.threads.dom().filter(|t: int| self.threads[t].counts_as_reader())
    }

    /// The writers that wait.
    pub open spec fn waiting(self) -> Set<int> {
        self.threads.dom().filter(|t: int| self.threads[t].waits_to_write())
    }

    /// Thread `t` moves from where it stands to `to`.
    pub open spec fn moves(self, next: System<T>, t: int, to: Thread) -> bool {
        next.threads == self.threads.insert(t, to)
    }

    /// Thread `t` wakes one of the writers that sleep, if there is one, and moves to `to`.
    pub open spec fn wakes_a_writer(self, next: System<T>, t: int, to: Thread) -> bool {
        ||| {
            &&& forall|u: int| #[trigger]
                self.threads.contains_key(u) ==> !self.threads[u].sleeps_to_write()
            &&& next.threads == self.threads.insert(t, to)
        }
        ||| exists|u: int|
            {
                &&& #[trigger] self.threads.contains_key(u)
                &&& self.threads[u].sleeps_to_write()
                &&& next.threads == self.threads.insert(
                    u,
                    Thread::Locking(RwCall::WriteLeave),
                ).insert(t, to)
            }
    }

    /// Thread `t` wakes all the readers that sleep, and moves to `to`.
    pub open spec fn wakes_the_readers(self, next: System<T>, t: int, to: Thread) -> bool {
        next.threads == Map::new(
            |u: int| self.threads.contains_key(u),
            |u: int|
                if u == t {
                    to
                } else {
                    self.threads[u].woken_to_read()
                },
        )
    }

    /// One step of thread `t`.
    pub open spec fn step(self, next: System<T>, t: int) -> bool {
        &&& self.threads.contains_key(t)
        &&& match self.threads[t] {
            Thread::Idle => {
                &&& next.words == self.words
                &&& next.data == self.data
                &&& {
                    ||| self.moves(next, t, Thread::Locking(RwCall::ReadLook))
                    ||| self.moves(next, t, Thread::Locking(RwCall::WriteLook))
                    ||| self.moves(next, t, Thread::Locking(RwCall::TryReadLook))
                    ||| self.moves(next, t, Thread::Locking(RwCall::TryWriteLook))
                }
            },
            Thread::Locking(call) => {
                &&& next.data == self.data
                &&& match call.spec_action() {
                    Some(Action::Wait(word, value)) => {
                        &&& next.words == self.words
                        &&& {
                            ||| self.words.get(word) == value && self.moves(
                                next,
                                t,
                                Thread::Sleeping(call),
                            )
                            ||| self.moves(
                                next,
                                t,
                                Thread::Locking(call.spec_advance(Reply::Done)),
                            )
                        }
                    },
                    Some(action) => exists|reply: Reply<u32>|
                        {
                            &&& #[trigger] possible(self.words, action, next.words, reply)
                            &&& self.moves(next, t, Thread::Locking(call.spec_advance(reply)))
                        },
                    None => {
                        &&& next.words == self.words
                        &&& self.moves(
                            next,
                            t,
                            if call == RwCall::Done(RwOutcome::Reading) {
                                Thread::Reading
                            } else if call == RwCall::Done(RwOutcome::Writing) {
                                Thread::Writing
                            } else {
                                Thread::Idle
                            },
                        )
                    },
                }
            },
            Thread::Sleeping(call) => {
                &&& next.words == self.words
                &&& next.data == self.data
                &&& self.moves(next, t, Thread::Locking(call.spec_advance(Reply::Done)))
            },
            Thread::Reading => {
                &&& next.words == self.words
                &&& next.data == self.data
                &&& self.moves(next, t, Thread::Unlocking(RwCall::ReadUnlock))
            },
            Thread::Writing => {
                &&& next.words == self.words
                &&& {
                    ||| next.threads == self.threads
                    ||| next.data == self.data && self.moves(
                        next,
                        t,
                        Thread::Unlocking(RwCall::WriteUnlock),
                    )
                }
            },
            Thread::Unlocking(call) => {
                &&& next.data == self.data
                &&& match call.spec_action() {
                    Some(Action::WakeOne(_)) => {
                        &&& next.words == self.words
                        &&& self.wakes_a_writer(
                            next,
                            t,
                            Thread::Unlocking(call.spec_advance(Reply::Done)),
                        )
                    },
                    Some(Action::WakeAll(_)) => {
                        &&& next.words == self.words
                        &&& self.wakes_the_readers(
                            next,
                            t,
                            Thread::Unlocking(call.spec_advance(Reply::Done)),
                        )
                    },
                    Some(action) => exists|reply: Reply<u32>|
                        {
                            &&& #[trigger] possible(self.words, action, next.words, reply)
                            &&& self.moves(next, t, Thread::Unlocking(call.spec_advance(reply)))
                        },
                    None => next.words == self.words && self.moves(next, t, Thread::Idle),
                }
            },
        }
    }

    /// The writers that are overtaken after a step of thread `t`.
    pub open spec fn overtaken_next(
        self,
        next: System<T>,
        t: int,
        overtaken: Set<int>,
    ) -> Set<int> {
        Set::new(
            |u: int|
                {
                    &&& self.threads[u].is_about_to_sleep_to_write()
                    &&& next.threads[u].is_about_to_sleep_to_write()
                    &&& overtaken.contains(u)
                        || self.threads[t].is_about_to_wake_as_last_reader()
                },
        )
    }

    /// Thread `t` has taken the lock for writing and not yet freed it.
    spec fn owns(self, t: int) -> bool {
        self.threads.contains_key(t) && self.threads[t].owns_for_writing()
    }

    /// What a thread may be in the middle of.
    spec fn in_order(self, t: int) -> bool {
        match self.threads[t] {
            Thread::Locking(call) => match call {
                RwCall::ReadSleep { state } => state % 2 == 1,
                RwCall::ReadTake { state } | RwCall::TryReadTake { state } => state % 2 == 0
                    && state != MOST_READERS,
                RwCall::WriteTake { state } | RwCall::TryWriteTake { state } => state <= 1,
                RwCall::WriteMark { state } => state % 2 == 0,
                RwCall::ReadUnlock
                | RwCall::ReadUnlockWake
                | RwCall::WriteUnlock
                | RwCall::WriteUnlockCount
                | RwCall::WriteUnlockLook
                | RwCall::WriteUnlockWakeWriter
                | RwCall::WriteUnlockWakeReaders => false,
                _ => true,
            },
            Thread::Sleeping(call) => call is ReadSleep || call is ReadAwaitWriter
                || call is WriteSleep,
            Thread::Unlocking(call) => match call {
                RwCall::ReadUnlock
                | RwCall::ReadUnlockWake
                | RwCall::WriteUnlock
                | RwCall::WriteUnlockCount
                | RwCall::WriteUnlockLook
                | RwCall::WriteUnlockWakeWriter
                | RwCall::WriteUnlockWakeReaders => true,
                RwCall::Done(outcome) => outcome is Released,
                _ => false,
            },
            _ => true,
        }
    }

    /// What every step keeps. A writer that has the lock is alone with it, and the state says so;
    /// without such a writer the state counts the readers.
    pub closed spec fn inv(self) -> bool {
        &&& self.threads.dom().finite()
        &&& self.threads.dom().len() <= u32::MAX
        &&& forall|t: int| #[trigger] self.threads.contains_key(t) ==> self.in_order(t)
        &&& forall|t: int, u: int| #[trigger] self.owns(t) && #[trigger] self.owns(u) ==> t == u
        &&& forall|t: int| #[trigger]
            self.owns(t) ==> self.words.state == WRITE_LOCKED && self.readers().len() == 0
        &&& (forall|t: int| !#[trigger] self.owns(t)) ==> {
            ||| self.words.state == 2 * self.readers().len()
            ||| self.words.state == 2 * self.readers().len() + 1
        }
        &&& self.words.waiting_writers == self.waiting().len()
    }

    /// A writer is awake in `write`.
    spec fn has_writer_on_its_way(self) -> bool {
        exists|t: int| #[trigger]
            self.threads.contains_key(t) && self.threads[t].is_on_its_way_to_write()
    }

    /// A writer sleeps.
    spec fn has_sleeping_writer(self) -> bool {
        exists|t: int| #[trigger]
            self.threads.contains_key(t) && self.threads[t].sleeps_to_write()
    }

    /// A reader sleeps.
    spec fn has_sleeping_reader(self) -> bool {
        exists|t: int| #[trigger] self.threads.contains_key(t) && self.threads[t].sleeps_to_read()
    }

    /// A release is about to be told of.
    spec fn has_release_to_tell(self) -> bool {
        exists|t: int| #[trigger]
            self.threads.contains_key(t) && self.threads[t].has_yet_to_tell()
    }

    /// A thread may yet wake a writer.
    spec fn has_waker_of_writers(self) -> bool {
        exists|t: int| #[trigger]
            self.threads.contains_key(t) && self.threads[t].may_wake_a_writer()
    }

    /// A thread may yet wake the readers.
    spec fn has_waker_of_readers(self) -> bool {
        exists|t: int| #[trigger]
            self.threads.contains_key(t) && self.threads[t].may_wake_the_readers()
    }

    /// A writer that is about to sleep has not missed a release.
    spec fn misses_nothing(self, t: int) -> bool {
        match self.threads[t] {
            Thread::Locking(RwCall::WriteCheck { count }) => count <= self.words.writers_number,
            Thread::Locking(RwCall::WriteSleep { count }) => {
                &&& count <= self.words.writers_number
                &&& count == self.words.writers_number ==> self.words.keeps_writers_out()
                    || self.has_release_to_tell()
            },
            _ => true,
        }
    }

    /// What every step keeps besides, while the releases can be counted and no writer that was
    /// overtaken falls asleep: nobody sleeps unless the state keeps others out, or somebody will
    /// see to it.
    spec fn goes_on(self, overtaken: Set<int>) -> bool {
        &&& forall|t: int| #[trigger]
            self.threads.contains_key(t) ==> self.misses_nothing(t) || overtaken.contains(t)
                && self.threads[t].is_about_to_sleep_to_write()
        &&& self.words.state % 2 == 1 && (forall|t: int| !#[trigger] self.owns(t))
            ==> self.has_writer_on_its_way() || self.has_sleeping_writer()
        &&& self.has_sleeping_writer() ==> self.words.keeps_writers_out()
            || self.has_writer_on_its_way() || self.has_waker_of_writers()
        &&& self.has_sleeping_reader() ==> self.words.keeps_writers_out()
            || self.has_writer_on_its_way() || self.has_sleeping_writer()
            || self.has_waker_of_readers()
    }
}

/// A run of the system: `states[k + 1]` comes from `states[k]` by a step of thread `who[k]`.
pub open spec fn run<T>(states: Seq<System<T>>, who: Seq<int>) -> bool {
    &&& states.len() == who.len() + 1
    &&& states[0].initial()
    &&& forall|k: int| 0 <= k < who.len() ==> states[k].step(states[k + 1], #[trigger] who[k])
}

/// The writers that are about to sleep, and that the wake-up call of a last reader has overtaken:
/// it came after they saw that they have to wait.
pub open spec fn overtaken<T>(states: Seq<System<T>>, who: Seq<int>, k: int) -> Set<int>
    decreases k,
{
    if k <= 0 {
        Set::empty()
    } else {
        states[k - 1].overtaken_next(states[k], who[k - 1], overtaken(states, who, k - 1))
    }
}

/// No writer that was overtaken falls asleep in the run.
pub open spec fn sleeps_in_time<T>(states: Seq<System<T>>, who: Seq<int>) -> bool {
    forall|j: int|
        #![trigger who[j]]
        0 <= j < who.len() && states[j].threads[who[j]].is_about_to_sleep_to_write()
            && states[j + 1].threads[who[j]].sleeps_to_write() ==> !overtaken(
            states,
            who,
            j,
        ).contains(who[j])
}

proof fn initial_inv<T>(s: System<T>)
    requires
        s.initial(),
    ensures
        s.inv(),
{
    assert(s.readers() =~= Set::<int>::empty());
    assert(s.waiting() =~= Set::<int>::empty());
}

/// How the counted sets change when thread `t` moves.
proof fn counts_after_move<T>(s: System<T>, next: System<T>, t: int, to: Thread)
    requires
        s.threads.dom().finite(),
        s.threads.contains_key(t),
        s.moves(next, t, to),
    ensures
        next.threads.dom() == s.threads.dom(),
        s.readers().finite(),
        s.waiting().finite(),
        next.readers().len() == s.readers().len() + (if to.counts_as_reader() {
            1int
        } else {
            0
        }) - (if s.threads[t].counts_as_reader() {
            1int
        } else {
            0
        }),
        next.waiting().len() == s.waiting().len() + (if to.waits_to_write() {
            1int
        } else {
            0
        }) - (if s.threads[t].waits_to_write() {
            1int
        } else {
            0
        }),
        next.waiting().len() <= s.threads.dom().len(),
{
    assert(next.threads.dom() =~= s.threads.dom());
    s.threads.dom().lemma_len_filter(|u: int| s.threads[u].counts_as_reader());
    s.threads.dom().lemma_len_filter(|u: int| s.threads[u].waits_to_write());
    next.threads.dom().lemma_len_filter(|u: int| next.threads[u].waits_to_write());
    assert(next.readers() =~= if to.counts_as_reader() {
        s.readers().insert(t)
    } else {
        s.readers().remove(t)
    });
    assert(next.waiting() =~= if to.waits_to_write() {
        s.waiting().insert(t)
    } else {
        s.waiting().remove(t)
    });
}

/// How the counted sets stay when all readers that sleep are woken.
proof fn counts_after_wake<T>(s: System<T>, next: System<T>, t: int, to: Thread)
    requires
        s.threads.contains_key(t),
        s.wakes_the_readers(next, t, to),
        to.counts_as_reader() == s.threads[t].counts_as_reader(),
        to.waits_to_write() == s.threads[t].waits_to_write(),
        forall|u: int| #[trigger] s.threads.contains_key(u) ==> s.in_order(u),
    ensures
        next.threads.dom() == s.threads.dom(),
        next.readers() == s.readers(),
        next.waiting() == s.waiting(),
{
    assert(next.threads.dom() =~= s.threads.dom());
    assert(next.readers() =~= s.readers());
    assert(next.waiting() =~= s.waiting());
}

/// The writer that thread `t` wakes, if it wakes one.
spec fn woken_writer<T>(s: System<T>, next: System<T>, t: int) -> int {
    choose|u: int|
        {
            &&& #[trigger] s.threads.contains_key(u)
            &&& s.threads[u].sleeps_to_write()
            &&& next.threads == s.threads.insert(u, Thread::Locking(RwCall::WriteLeave)).insert(
                t,
                next.threads[t],
            )
        }
}

/// Thread `t` is about to wake a writer.
spec fn wakes<T>(s: System<T>, t: int) -> bool {
    s.threads[t] == Thread::Unlocking(RwCall::ReadUnlockWake) || s.threads[t] == Thread::Unlocking(
        RwCall::WriteUnlockWakeWriter,
    )
}

/// How the threads other than `t` change in a step of thread `t`.
proof fn others_after_step<T>(s: System<T>, next: System<T>, t: int)
    requires
        s.threads.dom().finite(),
        s.step(next, t),
        forall|u: int| #[trigger] s.threads.contains_key(u) ==> s.in_order(u),
    ensures
        next.threads.dom() == s.threads.dom(),
        forall|u: int| #[trigger]
            s.threads.contains_key(u) && u != t ==> next.threads[u] == s.threads[u] || {
                &&& s.threads[t] == Thread::Unlocking(RwCall::WriteUnlockWakeReaders)
                &&& next.threads[u] == s.threads[u].woken_to_read()
            } || {
                &&& wakes(s, t)
                &&& s.threads[u].sleeps_to_write()
                &&& next.threads[u] == Thread::Locking(RwCall::WriteLeave)
            },
        wakes(s, t) ==> (forall|u: int| #[trigger]
            s.threads.contains_key(u) ==> !s.threads[u].sleeps_to_write()) || (exists|u: int| #[trigger]
            next.threads.contains_key(u) && next.threads[u].is_on_its_way_to_write()),
        s.threads[t] == Thread::Unlocking(RwCall::WriteUnlockWakeReaders) ==> forall|u: int|
            #[trigger] next.threads.contains_key(u) ==> !next.threads[u].sleeps_to_read(),
        next.readers().len() == s.readers().len() + interleaving::one_if(
            next.threads[t].counts_as_reader(),
        ) - interleaving::one_if(s.threads[t].counts_as_reader()),
        next.waiting().len() == s.waiting().len() + interleaving::one_if(
            next.threads[t].waits_to_write(),
        ) - interleaving::one_if(s.threads[t].waits_to_write()),
        next.waiting().len() <= s.threads.dom().len(),
{
    let to = next.threads[t];
    assert(s.in_order(t));
    if s.threads[t] == Thread::Unlocking(RwCall::WriteUnlockWakeReaders) {
        counts_after_wake(s, next, t, to);
        s.threads.dom().lemma_len_filter(|u: int| s.threads[u].waits_to_write());
    } else if wakes(s, t) && exists|u: int|
        #[trigger] s.threads.contains_key(u) && s.threads[u].sleeps_to_write() {
        let u = woken_writer(s, next, t);
        let middle = System {
            threads: s.threads.insert(u, Thread::Locking(RwCall::WriteLeave)),
            ..s
        };
        counts_after_move(s, middle, u, Thread::Locking(RwCall::WriteLeave));
        counts_after_move(middle, next, t, to);
        assert(next.threads.contains_key(u) && next.threads[u].is_on_its_way_to_write());
    } else if s.threads[t] is Writing && next.threads == s.threads {
        s.threads.dom().lemma_len_filter(|u: int| s.threads[u].waits_to_write());
    } else {
        counts_after_move(s, next, t, to);
    }
}

proof fn step_keeps_inv<T>(s: System<T>, next: System<T>, t: int)
    requires
        s.inv(),
        s.step(next, t),
    ensures
        next.inv(),
{
    let to = next.threads[t];
    assert(s.in_order(t));
    others_after_step(s, next, t);
    assert forall|u: int| #![trigger next.owns(u)] u != t implies next.owns(u) == s.owns(u) by {
        if s.threads.contains_key(u) {
            assert(s.in_order(u));
        }
    }
    assert forall|u: int| #![trigger s.owns(u)] u != t implies next.owns(u) == s.owns(u) by {
        if s.threads.contains_key(u) {
            assert(s.in_order(u));
        }
    }
    assert(s.owns(t) == s.threads[t].owns_for_writing());
    assert(next.owns(t) == to.owns_for_writing());
    assert forall|u: int| #[trigger] next.threads.contains_key(u) implies next.in_order(u) by {
        assert(s.threads.contains_key(u));
        assert(s.in_order(u));
    }
}

proof fn run_keeps_inv<T>(states: Seq<System<T>>, who: Seq<int>, k: int)
    requires
        run(states, who),
        0 <= k < states.len(),
    ensures
        states[k].inv(),
    decreases k,
{
    if k > 0 {
        run_keeps_inv(states, who, k - 1);
        assert(states[k - 1].step(states[k - 1 + 1], who[k - 1]));
        step_keeps_inv(states[k - 1], states[k], who[k - 1]);
    } else {
        initial_inv(states[0]);
    }
}

#[verifier::rlimit(60)]
proof fn step_goes_on<T>(s: System<T>, next: System<T>, t: int, overtaken: Set<int>)
    requires
        s.inv(),
        s.goes_on(overtaken),
        s.step(next, t),
        s.words.writers_number <= next.words.writers_number,
        s.threads[t].is_about_to_sleep_to_write() && next.threads[t].sleeps_to_write()
            ==> !overtaken.contains(t),
    ensures
        next.goes_on(s.overtaken_next(next, t, overtaken)),
{
    step_keeps_inv(s, next, t);
    others_after_step(s, next, t);
    assert(s.in_order(t));
    assert(s.misses_nothing(t) || overtaken.contains(t));
    assert(next.threads.contains_key(t));
    s.threads.dom().lemma_len_filter(|u: int| s.threads[u].waits_to_write());
    s.threads.dom().lemma_len_filter(|u: int| s.threads[u].counts_as_reader());
    if s.has_sleeping_writer() {
        let u = choose|u: int| #[trigger]
            s.threads.contains_key(u) && s.threads[u].sleeps_to_write();
        assert(s.waiting().contains(u));
    }
    if s.waiting().len() > 0 {
        assert(!(s.waiting() =~= Set::<int>::empty()));
        let u = s.waiting().choose();
        assert(s.waiting().contains(u));
        assert(s.threads.contains_key(u));
        assert(s.threads[u].is_on_its_way_to_write() || s.threads[u].sleeps_to_write());
    }
    if s.threads[t].counts_as_reader() {
        assert(s.readers().contains(t));
        assert(forall|u: int| !#[trigger] s.owns(u));
    }
    // Those who will see to it are still there, but for the thread that takes the step.
    witnesses_stay(s, next, t);
    assert forall|u: int| #[trigger] next.threads.contains_key(u) implies next.misses_nothing(u)
        || s.overtaken_next(next, t, overtaken).contains(u) by {
        assert(s.in_order(u));
        assert(s.misses_nothing(u) || overtaken.contains(u));
    }
}

/// A thread that somebody relies on is still there after a step of another one.
proof fn witnesses_stay<T>(s: System<T>, next: System<T>, t: int)
    requires
        s.inv(),
        s.step(next, t),
    ensures
        s.has_writer_on_its_way() ==> next.has_writer_on_its_way()
            || s.threads[t].is_on_its_way_to_write(),
        s.has_release_to_tell() ==> next.has_release_to_tell()
            || s.threads[t].has_yet_to_tell(),
        s.has_waker_of_writers() ==> next.has_waker_of_writers()
            || s.threads[t].may_wake_a_writer(),
        s.has_waker_of_readers() ==> next.has_waker_of_readers()
            || s.threads[t].may_wake_the_readers(),
        s.has_sleeping_writer() ==> next.has_sleeping_writer() || next.has_writer_on_its_way(),
        next.has_sleeping_writer() ==> s.has_sleeping_writer()
            || next.threads[t].sleeps_to_write(),
        next.has_sleeping_reader() ==> s.has_sleeping_reader()
            || next.threads[t].sleeps_to_read(),
        next.threads[t].is_on_its_way_to_write() ==> next.has_writer_on_its_way(),
        next.threads[t].has_yet_to_tell() ==> next.has_release_to_tell(),
        next.threads[t].may_wake_a_writer() ==> next.has_waker_of_writers(),
        next.threads[t].may_wake_the_readers() ==> next.has_waker_of_readers(),
        next.threads[t].sleeps_to_write() ==> next.has_sleeping_writer(),
        s.threads[t].sleeps_to_write() ==> s.has_sleeping_writer(),
        (forall|u: int| !#[trigger] next.owns(u)) && !s.owns(t) ==> forall|u: int|
            !#[trigger] s.owns(u),
{
    others_after_step(s, next, t);
    assert(s.in_order(t));
    assert(next.threads.contains_key(t));
    if s.has_writer_on_its_way() {
        let u = choose|u: int| #[trigger]
            s.threads.contains_key(u) && s.threads[u].is_on_its_way_to_write();
        assert(next.threads.contains_key(u));
    }
    if s.has_release_to_tell() {
        let u = choose|u: int| #[trigger]
            s.threads.contains_key(u) && s.threads[u].has_yet_to_tell();
        assert(next.threads.contains_key(u));
    }
    if s.has_waker_of_writers() {
        let u = choose|u: int| #[trigger]
            s.threads.contains_key(u) && s.threads[u].may_wake_a_writer();
        assert(next.threads.contains_key(u));
    }
    if s.has_waker_of_readers() {
        let u = choose|u: int| #[trigger]
            s.threads.contains_key(u) && s.threads[u].may_wake_the_readers();
        assert(next.threads.contains_key(u));
    }
    if s.has_sleeping_writer() {
        let u = choose|u: int| #[trigger]
            s.threads.contains_key(u) && s.threads[u].sleeps_to_write();
        assert(next.threads.contains_key(u));
    }
    if next.has_sleeping_writer() {
        let u = choose|u: int| #[trigger]
            next.threads.contains_key(u) && next.threads[u].sleeps_to_write();
        assert(s.threads.contains_key(u));
        assert(s.in_order(u));
    }
    if next.has_sleeping_reader() {
        let u = choose|u: int| #[trigger]
            next.threads.contains_key(u) && next.threads[u].sleeps_to_read();
        assert(s.threads.contains_key(u));
        assert(s.in_order(u));
    }
    if (forall|u: int| !#[trigger] next.owns(u)) && !s.owns(t) {
        assert forall|u: int| !#[trigger] s.owns(u) by {
            if s.owns(u) {
                assert(s.in_order(u));
                assert(next.owns(u));
            }
        }
    }
}

proof fn run_goes_on<T>(states: Seq<System<T>>, who: Seq<int>, k: int)
    requires
        run(states, who),
        forall|j: int|
            0 <= j < who.len() ==> (#[trigger] states[j]).words.writers_number
                <= states[j + 1].words.writers_number,
        sleeps_in_time(states, who),
        0 <= k < states.len(),
    ensures
        states[k].inv(),
        states[k].goes_on(overtaken(states, who, k)),
    decreases k,
{
    run_keeps_inv(states, who, k);
    if k > 0 {
        run_goes_on(states, who, k - 1);
        assert(states[k - 1].step(states[k - 1 + 1], who[k - 1]));
        step_goes_on(states[k - 1], states[k], who[k - 1], overtaken(states, who, k - 1));
    }
}

/// No release is lost: while a thread sleeps, another one has the lock, is on its way to take it
/// for writing, or has released it and is about to wake somebody. So nobody sleeps beside a free
/// lock for good. The releases are no more than can be counted, and no writer falls asleep that the
/// wake-up call of a last reader has overtaken: that release leaves no trace in the word on which
/// the writer sleeps.
pub proof fn law_no_release_is_lost<T>(states: Seq<System<T>>, who: Seq<int>, k: int, t: int)
    requires
        run(states, who),
        forall|j: int|
            0 <= j < who.len() ==> (#[trigger] states[j]).words.writers_number
                <= states[j + 1].words.writers_number,
        sleeps_in_time(states, who),
        0 <= k < states.len(),
        states[k].threads.contains_key(t),
        states[k].threads[t] is Sleeping,
    ensures
        exists|u: int|
            {
                &&& #[trigger] states[k].threads.contains_key(u)
                &&& {
                    ||| states[k].threads[u].counts_as_reader()
                    ||| states[k].threads[u].owns_for_writing()
                    ||| states[k].threads[u].is_on_its_way_to_write()
                    ||| states[k].threads[u].is_about_to_wake()
                }
            },
{
    run_goes_on(states, who, k);
    let s = states[k];
    assert(s.threads[t].sleeps_to_read() || s.threads[t].sleeps_to_write());
    if s.words.keeps_writers_out() {
        if exists|u: int| #[trigger] s.owns(u) {
            let u = choose|u: int| #[trigger] s.owns(u);
            assert(s.threads.contains_key(u));
        } else {
            s.threads.dom().lemma_len_filter(|v: int| s.threads[v].counts_as_reader());
            assert(s.readers().len() > 0);
            let u = s.readers().choose();
            assert(s.readers().contains(u));
            assert(s.threads.contains_key(u));
        }
    }
}

/// While a thread has the lock for writing, no other thread has it, for reading or for writing.
pub proof fn law_writer_excludes_all<T>(
    states: Seq<System<T>>,
    who: Seq<int>,
    k: int,
    t: int,
    u: int,
)
    requires
        run(states, who),
        0 <= k < states.len(),
        states[k].writes(t),
        states[k].writes(u) || states[k].reads(u),
    ensures
        t == u,
{
    run_keeps_inv(states, who, k);
    let s = states[k];
    assert(s.owns(t));
    if s.writes(u) {
        assert(s.owns(u));
    } else {
        s.threads.dom().lemma_len_filter(|v: int| s.threads[v].counts_as_reader());
        assert(s.readers().contains(u));
        assert(s.readers().len() == 0);
        assert(false);
    }
}

/// While a thread has the lock, for reading or for writing, no step of another thread changes the
/// data or takes the lock away.
pub proof fn law_data_is_stable<T>(states: Seq<System<T>>, who: Seq<int>, k: int, t: int)
    requires
        run(states, who),
        0 <= k < who.len(),
        states[k].reads(t) || states[k].writes(t),
        who[k] != t,
    ensures
        states[k].reads(t) ==> states[k + 1].reads(t),
        states[k].writes(t) ==> states[k + 1].writes(t),
        states[k + 1].data == states[k].data,
{
    assert(states[k].step(states[k + 1], who[k]));
    if states[k].writes(who[k]) {
        law_writer_excludes_all(states, who, k, who[k], t);
    }
}

/// The state word tells who has the lock: [`WRITE_LOCKED`] if a writer does, and otherwise twice
/// the number of readers, plus one at most.
pub proof fn law_state_counts_readers<T>(states: Seq<System<T>>, who: Seq<int>, k: int)
    requires
        run(states, who),
        0 <= k < states.len(),
    ensures
        ({
            let s = states[k];
            if exists|t: int| s.threads.contains_key(t) && #[trigger] s.threads[t].owns_for_writing() {
                s.words.state == WRITE_LOCKED && s.readers().len() == 0
            } else {
                s.words.state / 2 == s.readers().len()
            }
        }),
{
    run_keeps_inv(states, who, k);
    let s = states[k];
    if exists|t: int| s.threads.contains_key(t) && #[trigger] s.threads[t].owns_for_writing() {
        let t = choose|t: int|
            s.threads.contains_key(t) && #[trigger] s.threads[t].owns_for_writing();
        assert(s.owns(t));
    } else {
        assert forall|t: int| !#[trigger] s.owns(t) by {
            assert(s.threads[t].owns_for_writing() || !s.owns(t));
        }
    }
}

/// The third word counts the writers that wait.
pub proof fn law_waiting_writers_are_counted<T>(states: Seq<System<T>>, who: Seq<int>, k: int)
    requires
        run(states, who),
        0 <= k < states.len(),
    ensures
        states[k].words.waiting_writers == states[k].waiting().len(),
{
    run_keeps_inv(states, who, k);
}

/// Writers come first: a reader gets in only while the state says that no writer has the lock or
/// waits for it.
pub proof fn law_readers_yield<T>(states: Seq<System<T>>, who: Seq<int>, k: int, t: int)
    requires
        run(states, who),
        0 <= k < who.len(),
        states[k].threads.contains_key(t),
        !states[k].threads[t].counts_as_reader(),
        states[k + 1].threads[t].counts_as_reader(),
    ensures
        states[k].words.state % 2 == 0,
        states[k + 1].words.state == states[k].words.state + 2,
{
    run_keeps_inv(states, who, k);
    assert(states[k].step(states[k + 1], who[k]));
    assert(states[k].in_order(t));
}

} // verus!
