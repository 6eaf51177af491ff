//! Threads that share a [`mutex`](crate::mutex).

use crate::mutex;
use crate::mutex::{MutexAction, MutexCall, MutexOutcome, MutexReply, MutexWordsView, UNLOCKED};
use vstd::prelude::*;

verus! {

/// Where a thread stands.
pub enum Thread {
    /// Outside of any call, without the mutex.
    Idle,
    /// In `lock` or `try_lock`.
    Locking(MutexCall),
    /// With the mutex, free to change the data.
    Holding,
    /// In `unlock`.
    Unlocking(MutexCall),
}

impl Thread {
    /// The thread raised the flag of the queue and has not yet lowered it.
    pub open spec fn is_at_queue(self) -> bool {
        match self {
            Thread::Locking(call) => call is QueueCheck || call is QueueLeave || call is QueuePush
                || call is QueueFree || call is OwnRemove || call is OwnFree,
            Thread::Unlocking(call) => call is DequeuePop || call is DequeueUnlock
                || call is DequeueFree,
            _ => false,
        }
    }
}

impl Thread {
    /// The thread has taken the mutex and not yet freed it.
    pub open spec fn has_mutex(self) -> bool {
        match self {
            Thread::Holding => true,
            Thread::Locking(call) => call is OwnLook || call is OwnTake || call is OwnRemove
                || call is OwnFree || call == MutexCall::Done(MutexOutcome::Acquired),
            Thread::Unlocking(call) => call is DequeueLook || call is DequeueTake
                || call is DequeuePop || call is DequeueUnlock,
            Thread::Idle => false,
        }
    }

    /// The thread entered the queue and is parked, or about to park.
    pub open spec fn is_waiting(self) -> bool {
        match self {
            Thread::Locking(call) => call is QueueFree || call is Park,
            _ => false,
        }
    }

    /// The thread is awake in `lock`, and neither has the mutex nor is about to enter the queue.
    pub open spec fn is_on_its_way(self) -> bool {
        match self {
            Thread::Locking(call) => call is SpinLook || call is SpinPeek || call is SpinTake
                || call is QueueLook || call is QueueTake || call is QueueCheck
                || call is QueueLeave,
            _ => false,
        }
    }

    /// The thread is parked, or awake in `lock` and not at the queue.
    pub open spec fn is_away(self) -> bool {
        match self {
            Thread::Locking(call) => call is Park || call is SpinLook || call is SpinPeek
                || call is SpinTake || call is QueueLook || call is QueueTake,
            _ => false,
        }
    }

    /// The thread may have a place in the queue.
    pub open spec fn is_in_line(self) -> bool {
        match self {
            Thread::Locking(call) => match call {
                MutexCall::SpinLook { again, .. }
                | MutexCall::SpinPeek { again, .. }
                | MutexCall::SpinTake { again, .. }
                | MutexCall::QueueLook { again, .. }
                | MutexCall::QueueTake { again, .. }
                | MutexCall::QueueCheck { again, .. }
                | MutexCall::QueueLeave { again, .. }
                | MutexCall::QueuePush { again, .. } => again,
                MutexCall::QueueFree { .. }
                | MutexCall::Park { .. }
                | MutexCall::OwnLook { .. }
                | MutexCall::OwnTake { .. }
                | MutexCall::OwnRemove { .. } => true,
                _ => false,
            },
            _ => false,
        }
    }

    /// The thread that this one took out of the queue and has yet to unpark.
    pub open spec fn in_hand(self) -> Option<usize> {
        match self {
            Thread::Unlocking(call) => match call {
                MutexCall::DequeueUnlock { first } | MutexCall::DequeueFree { first } => first,
                MutexCall::Unpark { thread } => Some(thread),
                _ => None,
            },
            _ => None,
        }
    }

    /// The thread has freed the mutex and is about to unpark another one.
    pub open spec fn is_about_to_unpark(self) -> bool {
        self.in_hand() is Some && !(self->Unlocking_0 is DequeueUnlock)
    }
}

/// The shared words and the queue, the guarded data, the threads and their numbers, the numbers of
/// the threads that entered the queue so far, but for those that gave up their place, and of those
/// that were taken out of it, and the numbers of the threads that were unparked since their last
/// park was over.
pub struct System<T> {
    pub words: MutexWordsView,
    pub data: T,
    pub threads: Map<int, Thread>,
    pub numbers: Map<int, usize>,
    pub entered: Seq<usize>,
    pub left: Seq<usize>,
    pub unparked: Set<usize>,
}

/// What an action may do to the words and the queue among threads that interleave.
pub open spec fn possible(
    words: MutexWordsView,
    action: MutexAction,
    next: MutexWordsView,
    reply: MutexReply,
) -> bool {
    if action is Park {
        next == words && reply is Done
    } else {
        ||| (next, reply) == words.effect(action)
        ||| {
            &&& action is TakeStateWeak || action is TakeFlag
            &&& next == words
            &&& reply == MutexReply::Taken(false)
        }
    }
}

impl<T> System<T> {
    /// The mutex is free, the queue is empty, and no thread is in a call.
    pub open spec fn initial(self) -> bool {
        &&& self.words.state == UNLOCKED
        &&& !self.words.queue_is_accessed
        &&& self.words.queue.len() == 0
        &&& self.entered.len() == 0
        &&& self.left.len() == 0
        &&& self.unparked == Set::<usize>::empty()
        &&& forall|t: int| #[trigger] self.threads.contains_key(t) ==> self.threads[t] is Idle
    }

    /// Thread `t` has the mutex and may touch the data.
    pub open spec fn holds(self, t: int) -> bool {
        self.threads.contains_key(t) && self.threads[t] is Holding
    }

    /// Thread `t` may touch the queue.
    pub open spec fn is_at_queue(self, t: int) -> bool {
        self.threads.contains_key(t) && self.threads[t].is_at_queue()
    }

    /// Thread `t` moves from where it stands to `to`; the queue stays as it is.
    pub open spec fn moves(self, next: System<T>, t: int, to: Thread) -> bool {
        &&& next.threads == self.threads.insert(t, to)
        &&& next.numbers == self.numbers
        &&& next.entered == self.entered
        &&& next.left == self.left
        &&& next.unparked == self.unparked
    }

    /// The threads that entered the queue after an action: one that enters it is noted, and one
    /// that gives up its place is struck out.
    pub open spec fn entered_after(self, action: MutexAction) -> Seq<usize> {
        match action {
            MutexAction::Push(thread) => self.entered.push(thread),
            MutexAction::Enter(thread) => {
                if mutex::place_in_queue(self.words.queue, thread, 0) < self.words.queue.len() {
                    self.entered
                } else {
                    self.entered.push(thread)
                }
            },
            MutexAction::Remove(thread) => {
                let place = mutex::place_in_queue(self.words.queue, thread, 0);
                if place < self.words.queue.len() {
                    self.entered.remove((self.left.len() + place) as int)
                } else {
                    self.entered
                }
            },
            _ => self.entered,
        }
    }

    /// Thread `t` performs an action and moves to `to`; who enters or leaves the queue is noted.
    pub open spec fn acts(
        self,
        next: System<T>,
        t: int,
        action: MutexAction,
        reply: MutexReply,
        to: Thread,
    ) -> bool {
        &&& possible(self.words, action, next.words, reply)
        &&& next.threads == self.threads.insert(t, to)
        &&& next.numbers == self.numbers
        &&& next.entered == self.entered_after(action)
        &&& next.left == if reply is First && reply->First_0 is Some {
            self.left.push(reply->First_0->Some_0)
        } else {
            self.left
        }
        &&& next.unparked == match action {
            MutexAction::Unpark(thread) => self.unparked.insert(thread),
            MutexAction::Park => self.unparked.remove(self.numbers[t]),
            _ => self.unparked,
        }
    }

    /// One step of thread `t`.
    pub open spec fn step(self, next: System<T>, t: int) -> bool {
        &&& self.threads.contains_key(t)
        &&& match self.threads[t] {
            Thread::Idle => {
                &&& next.words == self.words
                &&& next.data == self.data
                &&& {
                    ||| self.moves(
                        next,
                        t,
                        Thread::Locking(
                            MutexCall::SpinLook { me: self.numbers[t], counter: 0, again: false },
                        ),
                    )
                    ||| self.moves(next, t, Thread::Locking(MutexCall::TryLock))
                }
            },
            Thread::Locking(call) => {
                &&& next.data == self.data
                &&& match call.spec_action() {
                    Some(action) => exists|reply: MutexReply| #[trigger]
                        self.acts(
                            next,
                            t,
                            action,
                            reply,
                            Thread::Locking(call.spec_advance(reply)),
                        ),
                    None => {
                        &&& next.words == self.words
                        &&& self.moves(
                            next,
                            t,
                            if call == MutexCall::Done(MutexOutcome::Acquired) {
                                Thread::Holding
                            } else {
                                Thread::Idle
                            },
                        )
                    },
                }
            },
            Thread::Holding => {
                &&& next.words == self.words
                &&& {
                    ||| {
                        &&& next.threads == self.threads
                        &&& next.numbers == self.numbers
                        &&& next.entered == self.entered
                        &&& next.left == self.left
                        &&& next.unparked == self.unparked
                    }
                    ||| next.data == self.data && self.moves(
                        next,
                        t,
                        Thread::Unlocking(MutexCall::DequeueLook),
                    )
                }
            },
            Thread::Unlocking(call) => {
                &&& next.data == self.data
                &&& match call.spec_action() {
                    Some(action) => exists|reply: MutexReply| #[trigger]
                        self.acts(
                            next,
                            t,
                            action,
                            reply,
                            Thread::Unlocking(call.spec_advance(reply)),
                        ),
                    None => next.words == self.words && self.moves(next, t, Thread::Idle),
                }
            },
        }
    }

    /// Thread `t` has taken the mutex and not yet freed it.
    spec fn owns(self, t: int) -> bool {
        self.threads.contains_key(t) && self.threads[t].has_mutex()
    }

    /// No two threads have the same number.
    pub open spec fn has_distinct_numbers(self) -> bool {
        forall|t: int, u: int| #[trigger]
            self.threads.contains_key(t) && #[trigger] self.threads.contains_key(u)
                && self.numbers[t] == self.numbers[u] ==> t == u
    }

    /// Thread `t` is parked, or about to park, and nobody unparked it.
    pub open spec fn is_parked(self, t: int) -> bool {
        &&& self.threads.contains_key(t)
        &&& self.threads[t].is_waiting()
        &&& !self.unparked.contains(self.numbers[t])
    }

    /// A thread with this number is parked, or about to park.
    pub open spec fn waits(self, number: usize) -> bool {
        exists|t: int|
            {
                &&& #[trigger] self.threads.contains_key(t)
                &&& self.numbers[t] == number
                &&& self.threads[t].is_waiting()
            }
    }

    /// Thread `t` will get on without anybody's help, or is about to unpark one that waits.
    pub open spec fn goes_on(self, t: int) -> bool {
        &&& self.threads.contains_key(t)
        &&& {
            ||| self.threads[t].is_on_its_way()
            ||| self.threads[t].is_waiting() && self.unparked.contains(self.numbers[t])
            ||| self.threads[t].is_about_to_unpark() && self.waits(
                self.threads[t].in_hand()->Some_0,
            )
        }
    }

    /// A thread with this number may have a place in the queue.
    spec fn is_in_line(self, number: usize) -> bool {
        exists|t: int|
            {
                &&& #[trigger] self.threads.contains_key(t)
                &&& self.numbers[t] == number
                &&& self.threads[t].is_in_line()
            }
    }

    /// A thread with this number is parked, or awake and not at the queue.
    spec fn is_away(self, number: usize) -> bool {
        exists|t: int|
            {
                &&& #[trigger] self.threads.contains_key(t)
                &&& self.numbers[t] == number
                &&& self.threads[t].is_away()
            }
    }

    /// A thread took this number out of the queue and has yet to unpark it.
    spec fn is_in_hand(self, number: usize) -> bool {
        exists|t: int| #[trigger]
            self.threads.contains_key(t) && self.threads[t].in_hand() == Some(number)
    }

    /// A thread in a call goes by its number, and does not miss the mutex being freed.
    spec fn is_attentive(self, t: int) -> bool {
        match self.threads[t] {
            Thread::Locking(call) => match call {
                MutexCall::SpinLook { me, .. }
                | MutexCall::SpinPeek { me, .. }
                | MutexCall::SpinTake { me, .. }
                | MutexCall::QueueLook { me, .. }
                | MutexCall::QueueTake { me, .. }
                | MutexCall::QueueCheck { me, .. }
                | MutexCall::QueueLeave { me, .. }
                | MutexCall::QueueFree { me }
                | MutexCall::Park { me }
                | MutexCall::OwnLook { me }
                | MutexCall::OwnTake { me }
                | MutexCall::OwnRemove { me }
                | MutexCall::OwnFree { me } => me == self.numbers[t],
                MutexCall::QueuePush { me, .. } => me == self.numbers[t] && self.words.state
                    != UNLOCKED,
                _ => true,
            },
            Thread::Unlocking(call) => match call {
                MutexCall::DequeueUnlock { first } => match first {
                    Some(number) => self.is_away(number),
                    None => self.words.queue.len() == 0,
                },
                _ => true,
            },
            _ => true,
        }
    }

    /// What every step keeps besides, if threads have distinct numbers: whoever is in the queue is
    /// in line for it, once; a thread that is parked is in the queue or in the hand of the thread
    /// that took it out, unless it was unparked; and the queue is not left alone with a free mutex.
    spec fn orderly(self) -> bool {
        &&& self.has_distinct_numbers()
        &&& forall|t: int| #[trigger] self.threads.contains_key(t) ==> self.is_attentive(t)
        &&& self.words.queue.no_duplicates()
        &&& forall|i: int|
            0 <= i < self.words.queue.len() ==> self.is_in_line(#[trigger] self.words.queue[i])
        &&& forall|t: int| #[trigger]
            self.is_parked(t) ==> self.words.queue.contains(self.numbers[t]) || self.is_in_hand(
                self.numbers[t],
            )
        &&& self.words.state == UNLOCKED && self.words.queue.len() > 0 ==> exists|t: int| #[trigger]
            self.goes_on(t)
        &&& self.words.state != UNLOCKED ==> exists|t: int| #[trigger] self.owns(t)
    }

    /// What a thread may be in the middle of.
    spec fn in_order(self, t: int) -> bool {
        match self.threads[t] {
            Thread::Locking(call) => match call {
                MutexCall::DequeueLook
                | MutexCall::DequeueTake
                | MutexCall::DequeuePop
                | MutexCall::DequeueFree { .. }
                | MutexCall::DequeueUnlock { .. }
                | MutexCall::Unpark { .. } => false,
                _ => true,
            },
            Thread::Unlocking(call) => match call {
                MutexCall::DequeueLook
                | MutexCall::DequeueTake
                | MutexCall::DequeuePop
                | MutexCall::DequeueFree { .. }
                | MutexCall::DequeueUnlock { .. }
                | MutexCall::Unpark { .. } => true,
                MutexCall::Done(outcome) => outcome is Released,
                _ => false,
            },
            _ => true,
        }
    }

    /// What every step keeps: at most one thread owns the mutex, and the state is not free then; at
    /// most one thread is at the queue, and the flag is up then; and the queue holds those that
    /// entered and did not leave, in order.
    spec fn inv(self) -> bool {
        &&& forall|t: int| #[trigger] self.threads.contains_key(t) ==> self.in_order(t)
        &&& forall|t: int| #[trigger] self.owns(t) ==> self.words.state != UNLOCKED
        &&& forall|t: int, u: int| #[trigger] self.owns(t) && #[trigger] self.owns(u) ==> t == u
        &&& forall|t: int| #[trigger] self.is_at_queue(t) ==> self.words.queue_is_accessed
        &&& forall|t: int, u: int| #[trigger]
            self.is_at_queue(t) && #[trigger] self.is_at_queue(u) ==> t == u
        &&& self.entered =~= self.left + self.words.queue
    }
}

/// A run of the system: `states[k + 1]` comes from `states[k]` by a step of thread `who[k]`.
pub open spec fn run<T>(states: Seq<System<T>>, who: Seq<int>) -> bool {
    &&& states.len() == who.len() + 1
    &&& states[0].initial()
    &&& forall|k: int| 0 <= k < who.len() ==> states[k].step(states[k + 1], #[trigger] who[k])
}

proof fn step_keeps_inv<T>(s: System<T>, next: System<T>, t: int)
    requires
        s.inv(),
        s.step(next, t),
    ensures
        next.inv(),
{
    assert forall|u: int| #![trigger next.owns(u)] u != t && next.owns(u) implies s.owns(u) by {}
    assert forall|u: int|
        #![trigger next.is_at_queue(u)]
        u != t && next.is_at_queue(u) implies s.is_at_queue(u) by {}
    assert forall|u: int| #[trigger] next.threads.contains_key(u) implies next.in_order(u) by {
        assert(s.threads.contains_key(u));
    }
    assert(s.owns(t) ==> s.words.state != UNLOCKED);
    assert(s.is_at_queue(t) ==> s.words.queue_is_accessed);
    assert(next.owns(t) ==> s.owns(t) || s.words.state == UNLOCKED);
    assert(next.words.state == UNLOCKED && s.words.state != UNLOCKED ==> s.owns(t));
    assert(next.is_at_queue(t) ==> s.is_at_queue(t) || !s.words.queue_is_accessed);
    assert(!next.words.queue_is_accessed && s.words.queue_is_accessed ==> s.is_at_queue(t));
    assert(next.entered =~= next.left + next.words.queue);
    assert(next.owns(t) ==> next.words.state != UNLOCKED);
    assert(next.is_at_queue(t) ==> next.words.queue_is_accessed);
}

proof fn run_keeps_inv<T>(states: Seq<System<T>>, who: Seq<int>, k: int)
    requires
        run(states, who),
        0 <= k < states.len(),
    ensures
        states[k].inv(),
    decreases k,
{
    if k > 0 {
        run_keeps_inv(states, who, k - 1);
        assert(states[k - 1].step(states[k - 1 + 1], who[k - 1]));
        step_keeps_inv(states[k - 1], states[k], who[k - 1]);
    }
}

/// Where the other threads stand after a step of thread `t`.
proof fn others_after_step<T>(s: System<T>, next: System<T>, t: int)
    requires
        s.step(next, t),
    ensures
        next.threads.contains_key(t),
        next.numbers == s.numbers,
        forall|u: int| #[trigger] next.threads.contains_key(u) <==> s.threads.contains_key(u),
        forall|u: int| #[trigger]
            s.threads.contains_key(u) && u != t ==> next.threads[u] == s.threads[u],
        forall|number: usize| #[trigger]
            s.is_in_line(number) ==> next.is_in_line(number) || (s.threads[t].is_in_line()
                && s.numbers[t] == number),
        forall|number: usize| #[trigger]
            s.is_away(number) ==> next.is_away(number) || (s.threads[t].is_away() && s.numbers[t]
                == number),
        forall|number: usize| #[trigger]
            s.waits(number) ==> next.waits(number) || (s.threads[t].is_waiting() && s.numbers[t]
                == number),
        forall|number: usize| #[trigger]
            s.is_in_hand(number) ==> next.is_in_hand(number) || s.threads[t].in_hand() == Some(
                number,
            ),
        next.threads[t].is_in_line() ==> next.is_in_line(s.numbers[t]),
        next.threads[t].is_away() ==> next.is_away(s.numbers[t]),
        next.threads[t].is_waiting() ==> next.waits(s.numbers[t]),
        next.threads[t].in_hand() is Some ==> next.is_in_hand(next.threads[t].in_hand()->Some_0),
{
    assert forall|number: usize| #[trigger] s.is_in_line(number) implies next.is_in_line(number)
        || (s.threads[t].is_in_line() && s.numbers[t] == number) by {
        let u = choose|u: int|
            {
                &&& #[trigger] s.threads.contains_key(u)
                &&& s.numbers[u] == number
                &&& s.threads[u].is_in_line()
            };
        assert(next.threads.contains_key(u));
    }
    assert forall|number: usize| #[trigger] s.is_away(number) implies next.is_away(number) || (
    s.threads[t].is_away() && s.numbers[t] == number) by {
        let u = choose|u: int|
            {
                &&& #[trigger] s.threads.contains_key(u)
                &&& s.numbers[u] == number
                &&& s.threads[u].is_away()
            };
        assert(next.threads.contains_key(u));
    }
    assert forall|number: usize| #[trigger] s.waits(number) implies next.waits(number) || (
    s.threads[t].is_waiting() && s.numbers[t] == number) by {
        let u = choose|u: int|
            {
                &&& #[trigger] s.threads.contains_key(u)
                &&& s.numbers[u] == number
                &&& s.threads[u].is_waiting()
            };
        assert(next.threads.contains_key(u));
    }
    assert forall|number: usize| #[trigger] s.is_in_hand(number) implies next.is_in_hand(number)
        || s.threads[t].in_hand() == Some(number) by {
        let u = choose|u: int| #[trigger]
            s.threads.contains_key(u) && s.threads[u].in_hand() == Some(number);
        assert(next.threads.contains_key(u));
    }
    assert(next.threads.contains_key(t));
}

/// What a step does to the queue: who is in it afterwards was in it before, or entered it.
proof fn queue_after_step<T>(s: System<T>, next: System<T>, t: int)
    requires
        s.inv(),
        s.orderly(),
        s.step(next, t),
    ensures
        next.words.queue.no_duplicates(),
        forall|i: int|
            0 <= i < next.words.queue.len() ==> next.is_in_line(#[trigger] next.words.queue[i]),
        next.words.queue.len() > s.words.queue.len() ==> s.words.state != UNLOCKED,
        next.words.queue != s.words.queue ==> s.is_at_queue(t),
        forall|number: usize|
            s.words.queue.contains(number) && number != s.numbers[t] ==> #[trigger]
                next.words.queue.contains(number) || next.threads[t].in_hand() == Some(number),
{
    others_after_step(s, next, t);
    assert(s.is_attentive(t));
    assert(s.in_order(t));
    let me = s.numbers[t];
    let queue = s.words.queue;
    let after = next.words.queue;
    assert(!s.threads[t].is_in_line() ==> !s.is_in_line(me));
    let at_push = s.threads[t] is Locking && s.threads[t]->Locking_0 is QueuePush;
    let removes = s.threads[t] is Locking && s.threads[t]->Locking_0 is OwnRemove;
    let pops = s.threads[t] is Unlocking && s.threads[t]->Unlocking_0 is DequeuePop;
    let place = mutex::place_in_queue(queue, me, 0);
    mutex::place_is_first(queue, me, 0);
    let pushes = at_push && (!s.threads[t].is_in_line() || place == queue.len());
    if pushes {
        assert(after == queue.push(me));
        assert forall|i: int| 0 <= i < queue.len() implies #[trigger] queue[i] != me by {
            assert(s.is_in_line(queue[i]));
        }
        assert forall|i: int| 0 <= i < after.len() implies next.is_in_line(#[trigger] after[i]) by {
            if i < queue.len() {
                assert(s.is_in_line(queue[i]));
            }
        }
    } else if removes && place < queue.len() {
        assert(after == queue.remove(place as int));
        assert forall|i: int| 0 <= i < after.len() implies next.is_in_line(#[trigger] after[i]) by {
            let j = if i < place {
                i
            } else {
                i + 1
            };
            assert(after[i] == queue[j] && j != place);
            assert(s.is_in_line(queue[j]));
        }
    } else if removes {
        assert(after == queue);
        assert forall|i: int| 0 <= i < after.len() implies next.is_in_line(#[trigger] after[i]) by {
            assert(s.is_in_line(queue[i]) && queue[i] != me);
        }
    } else if pops && queue.len() > 0 {
        assert(after == queue.drop_first());
        assert forall|i: int| 0 <= i < after.len() implies next.is_in_line(#[trigger] after[i]) by {
            assert(after[i] == queue[i + 1]);
            assert(s.is_in_line(queue[i + 1]));
        }
    } else {
        assert(after == queue);
        assert forall|i: int| 0 <= i < after.len() implies next.is_in_line(#[trigger] after[i]) by {
            assert(s.is_in_line(queue[i]));
        }
    }
    assert forall|number: usize|
        s.words.queue.contains(number) && number != s.numbers[t] implies #[trigger]
        next.words.queue.contains(number) || next.threads[t].in_hand() == Some(number) by {
        let i = choose|i: int| 0 <= i < queue.len() && queue[i] == number;
        if pops {
            if i > 0 {
                assert(after[i - 1] == number);
            }
        } else if removes && place < queue.len() {
            if i < place {
                assert(after[i] == number);
            } else {
                assert(i != place);
                assert(after[i - 1] == number);
            }
        } else {
            assert(after[i] == number);
        }
    }
}

/// A step keeps it that threads go by their numbers, and that a release knows of a thread that it
/// took out of the queue.
proof fn step_keeps_attention<T>(s: System<T>, next: System<T>, t: int, u: int)
    requires
        s.inv(),
        s.orderly(),
        s.step(next, t),
        s.threads.contains_key(u),
    ensures
        next.is_attentive(u),
{
    others_after_step(s, next, t);
    queue_after_step(s, next, t);
    assert(s.is_attentive(t) && s.is_attentive(u));
    assert(s.in_order(t));
    assert(s.is_at_queue(t) && s.is_at_queue(u) ==> u == t);
    assert(s.is_at_queue(u) ==> s.words.queue_is_accessed);
    if u == t && s.threads[t] is Unlocking && s.threads[t]->Unlocking_0 is DequeuePop
        && s.words.queue.len() > 0 {
        let number = s.words.queue[0];
        assert(s.is_in_line(number));
        let v = choose|v: int|
            {
                &&& #[trigger] s.threads.contains_key(v)
                &&& s.numbers[v] == number
                &&& s.threads[v].is_in_line()
            };
        assert(s.is_at_queue(t) && s.owns(t));
        assert(s.is_at_queue(v) ==> v == t);
        assert(s.owns(v) ==> v == t);
        assert(s.threads[v].is_away());
        assert(next.threads.contains_key(v));
        assert(next.is_away(number));
    }
    if u != t && s.threads[u] is Unlocking && s.threads[u]->Unlocking_0 is DequeueUnlock
        && s.threads[t].is_away() {
        assert(s.is_at_queue(u) && s.owns(u));
        assert(next.threads[t].is_away());
    }
}

/// A step keeps it that nobody is left in line with nobody to go on.
proof fn step_keeps_order<T>(s: System<T>, next: System<T>, t: int)
    requires
        s.inv(),
        s.orderly(),
        s.step(next, t),
    ensures
        next.orderly(),
{
    others_after_step(s, next, t);
    queue_after_step(s, next, t);
    assert(s.is_attentive(t));
    assert(s.in_order(t));
    assert forall|u: int| #[trigger] next.threads.contains_key(u) implies next.is_attentive(u) by {
        step_keeps_attention(s, next, t, u);
    }
    assert forall|u: int| #[trigger] next.is_parked(u) implies next.words.queue.contains(
        next.numbers[u],
    ) || next.is_in_hand(next.numbers[u]) by {
        let number = next.numbers[u];
        assert(s.threads.contains_key(u));
        if u == t && s.threads[t]->Locking_0 is QueuePush {
            let place = mutex::place_in_queue(s.words.queue, number, 0);
            mutex::place_is_first(s.words.queue, number, 0);
            if next.words.queue.len() > s.words.queue.len() {
                assert(next.words.queue[s.words.queue.len() as int] == number);
            } else {
                assert(next.words.queue[place as int] == number);
            }
        } else {
            assert(s.is_parked(u));
            if u == t {
                assert(next.words.queue == s.words.queue);
            }
        }
    }
    if next.words.state == UNLOCKED && next.words.queue.len() > 0 {
        next_goes_on(s, next, t);
    }
    if next.words.state != UNLOCKED {
        if s.words.state == UNLOCKED {
            assert(next.owns(t));
        } else {
            let u = choose|u: int| #[trigger] s.owns(u);
            assert(next.owns(u));
        }
    }
}

/// A free mutex is not left alone with the queue.
proof fn next_goes_on<T>(s: System<T>, next: System<T>, t: int)
    requires
        s.inv(),
        s.orderly(),
        s.step(next, t),
        next.words.state == UNLOCKED,
        next.words.queue.len() > 0,
    ensures
        exists|u: int| #[trigger] next.goes_on(u),
{
    others_after_step(s, next, t);
    queue_after_step(s, next, t);
    assert(s.is_attentive(t));
    assert(s.in_order(t));
    if s.words.state != UNLOCKED {
        let number = s.threads[t].in_hand()->Some_0;
        assert(s.is_away(number));
        let v = choose|v: int|
            {
                &&& #[trigger] s.threads.contains_key(v)
                &&& s.numbers[v] == number
                &&& s.threads[v].is_away()
            };
        assert(next.threads.contains_key(v) && next.threads[v] == s.threads[v]);
        if s.threads[v].is_waiting() {
            assert(next.waits(number));
            assert(next.goes_on(t));
        } else {
            assert(next.goes_on(v));
        }
    } else {
        assert(s.words.queue.len() > 0);
        let u = choose|u: int| #[trigger] s.goes_on(u);
        assert(s.threads.contains_key(u));
        if u != t {
            if s.threads[u].is_about_to_unpark() {
                assert(next.goes_on(u) || next.goes_on(t));
            } else {
                assert(next.goes_on(u));
            }
        } else if s.threads[t].is_about_to_unpark() {
            let number = s.threads[t].in_hand()->Some_0;
            let v = choose|v: int|
                {
                    &&& #[trigger] s.threads.contains_key(v)
                    &&& s.numbers[v] == number
                    &&& s.threads[v].is_waiting()
                };
            assert(next.threads.contains_key(v) && next.threads[v] == s.threads[v]);
            assert(next.waits(number));
            assert(next.goes_on(t) || next.goes_on(v));
        } else {
            assert(next.goes_on(t));
        }
    }
}

proof fn run_keeps_order<T>(states: Seq<System<T>>, who: Seq<int>, k: int)
    requires
        run(states, who),
        states[0].has_distinct_numbers(),
        0 <= k < states.len(),
    ensures
        states[k].orderly(),
    decreases k,
{
    if k > 0 {
        run_keeps_order(states, who, k - 1);
        run_keeps_inv(states, who, k - 1);
        assert(states[k - 1].step(states[k - 1 + 1], who[k - 1]));
        step_keeps_order(states[k - 1], states[k], who[k - 1]);
    }
}

/// At most one thread has the mutex, at any time, in any run.
pub proof fn law_mutual_exclusion<T>(
    states: Seq<System<T>>,
    who: Seq<int>,
    k: int,
    t: int,
    u: int,
)
    requires
        run(states, who),
        0 <= k < states.len(),
        states[k].holds(t),
        states[k].holds(u),
    ensures
        t == u,
{
    run_keeps_inv(states, who, k);
    assert(states[k].owns(t) && states[k].owns(u));
}

/// While a thread has the mutex, no step of another thread changes the data or takes the mutex
/// away.
pub proof fn law_data_is_exclusive<T>(states: Seq<System<T>>, who: Seq<int>, k: int, t: int)
    requires
        run(states, who),
        0 <= k < who.len(),
        states[k].holds(t),
        who[k] != t,
    ensures
        states[k + 1].holds(t),
        states[k + 1].data == states[k].data,
{
    run_keeps_inv(states, who, k);
    assert(states[k].step(states[k + 1], who[k]));
    assert(states[k].owns(t));
    if states[k].holds(who[k]) {
        assert(states[k].owns(who[k]));
    }
}

/// At most one thread touches the queue, at any time, in any run.
pub proof fn law_queue_is_exclusive<T>(
    states: Seq<System<T>>,
    who: Seq<int>,
    k: int,
    t: int,
    u: int,
)
    requires
        run(states, who),
        0 <= k < states.len(),
        states[k].is_at_queue(t),
        states[k].is_at_queue(u),
    ensures
        t == u,
{
    run_keeps_inv(states, who, k);
}

/// The queue is first in, first out: but for those that gave up their place, the threads are taken
/// out of it in the order in which they entered it, and the others are in it, in that order.
pub proof fn law_queue_is_fair<T>(states: Seq<System<T>>, who: Seq<int>, k: int)
    requires
        run(states, who),
        0 <= k < states.len(),
    ensures
        states[k].entered == states[k].left + states[k].words.queue,
{
    run_keeps_inv(states, who, k);
}

/// No release is lost: whenever a thread is parked and nobody unparked it, some thread has the
/// mutex, and will look at the queue when it frees it, or is on its way to the mutex, or is about
/// to unpark one that waits. Threads have distinct numbers.
pub proof fn law_no_release_is_lost<T>(
    states: Seq<System<T>>,
    who: Seq<int>,
    k: int,
    t: int,
) -> (u: int)
    requires
        run(states, who),
        states[0].has_distinct_numbers(),
        0 <= k < states.len(),
        states[k].is_parked(t),
    ensures
        states[k].threads.contains_key(u),
        states[k].threads[u].has_mutex() || states[k].goes_on(u),
{
    run_keeps_order(states, who, k);
    run_keeps_inv(states, who, k);
    let s = states[k];
    let number = s.numbers[t];
    if s.words.state != UNLOCKED {
        choose|u: int| #[trigger] s.owns(u)
    } else if s.words.queue.contains(number) {
        assert(s.words.queue.len() > 0);
        choose|u: int| #[trigger] s.goes_on(u)
    } else {
        let u = choose|u: int| #[trigger]
            s.threads.contains_key(u) && s.threads[u].in_hand() == Some(number);
        assert(s.waits(number));
        assert(s.owns(u) || s.goes_on(u));
        u
    }
}

} // verus!
