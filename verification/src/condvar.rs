//! A condition variable for the [`mutex`](crate::mutex).
//!
//! One word counts the notifications; threads sleep on it while it has the value that they saw with
//! the mutex in hand, so a notification that comes after that is not slept through. A second word
//! counts the threads that wait. The protocol of the words is [`CondCall`]. It runs on ordinary
//! words ([`CondWords`]), one call at a time, as [`CondVar`] does; [`RawCondVar`] performs the
//! actions on the words where they are atomics.

use crate::mutex::{Mutex, MutexCall, MutexGuard, MutexView, MutexWordsView, LOCKED, UNLOCKED};
use crate::utils::mutex_common::{HeldLocks, Progress, Wake};
use crate::word::{Action, Op, Order, Reply};
use std::sync::atomic::AtomicU32;
use vstd::prelude::*;

verus! {

/// The words of the condition variable.
#[derive(Clone, Copy, Debug, PartialEq, Eq)]
pub enum CondWord {
    Counter,
    Waiting,
}

/// An action of a call.
#[derive(Debug, PartialEq, Eq)]
pub enum CondAction {
    /// An action on a word.
    Word(Action<CondWord>),
    /// Unlock the mutex.
    Unlock,
    /// Lock the mutex again.
    Lock,
}

impl CondAction {
    /// The orderings of the operation are legal.
    pub open spec fn legal(self) -> bool {
        self matches CondAction::Word(action) ==> action.legal()
    }
}

/// How a call ends.
#[derive(Clone, Copy, Debug, PartialEq, Eq)]
pub enum CondOutcome {
    /// The wait is over, and the mutex locked again.
    Woken,
    Notified(Wake),
}

/// Where a call stands: the step that it takes next, or how it ended.
#[derive(Clone, Copy, Debug, PartialEq, Eq)]
pub enum CondCall {
    /// `wait`: look at the number of notifications.
    WaitLook,
    /// `wait`: count one more thread that waits.
    WaitEnter { seen: u32 },
    /// `wait`: unlock the mutex.
    WaitUnlock { seen: u32 },
    /// `wait`: sleep while there is no further notification.
    WaitSleep { seen: u32 },
    /// `wait`: count one thread less that waits.
    WaitLeave,
    /// `wait`: lock the mutex again.
    WaitLock,
    /// `notify_one`: count a notification.
    NotifyOne,
    /// `notify_one`: wake a thread.
    NotifyOneWake,
    /// `notify_all`: count a notification.
    NotifyAll,
    /// `notify_all`: see whether threads wait.
    NotifyAllLook,
    /// `notify_all`: wake the threads.
    NotifyAllWake,
    /// The call is over.
    Done(CondOutcome),
}

impl CondCall {
    /// The action of the step; `None` when the call is over.
    pub open spec fn spec_action(self) -> Option<CondAction> {
        match self {
            CondCall::WaitLook => Some(
                CondAction::Word(Action::Word(CondWord::Counter, Op::Load(Order::Relaxed))),
            ),
            CondCall::WaitEnter { .. } => Some(
                CondAction::Word(Action::Word(CondWord::Waiting, Op::FetchAdd(1, Order::Relaxed))),
            ),
            CondCall::WaitUnlock { .. } => Some(CondAction::Unlock),
            CondCall::WaitSleep { seen } => Some(
                CondAction::Word(Action::Wait(CondWord::Counter, seen)),
            ),
            CondCall::WaitLeave => Some(
                CondAction::Word(Action::Word(CondWord::Waiting, Op::FetchSub(1, Order::Relaxed))),
            ),
            CondCall::WaitLock => Some(CondAction::Lock),
            CondCall::NotifyOne | CondCall::NotifyAll => Some(
                CondAction::Word(Action::Word(CondWord::Counter, Op::FetchAdd(1, Order::Relaxed))),
            ),
            CondCall::NotifyOneWake => Some(CondAction::Word(Action::WakeOne(CondWord::Counter))),
            CondCall::NotifyAllLook => Some(
                CondAction::Word(Action::Word(CondWord::Waiting, Op::Load(Order::Relaxed))),
            ),
            CondCall::NotifyAllWake => Some(CondAction::Word(Action::WakeAll(CondWord::Counter))),
            CondCall::Done(_) => None,
        }
    }

    /// Where the call stands after the reply to its action.
    pub open spec fn spec_advance(self, reply: Reply<u32>) -> CondCall {
        match (self, reply) {
            (CondCall::WaitLook, Reply::Value(seen)) => CondCall::WaitEnter { seen },
            (CondCall::WaitEnter { seen }, _) => CondCall::WaitUnlock { seen },
            (CondCall::WaitUnlock { seen }, _) => CondCall::WaitSleep { seen },
            (CondCall::WaitSleep { .. }, Reply::Done) => CondCall::WaitLeave,
            (CondCall::WaitLeave, _) => CondCall::WaitLock,
            (CondCall::WaitLock, _) => CondCall::Done(CondOutcome::Woken),
            (CondCall::NotifyOne, _) => CondCall::NotifyOneWake,
            (CondCall::NotifyOneWake, _) => CondCall::Done(CondOutcome::Notified(Wake::One)),
            (CondCall::NotifyAll, _) => CondCall::NotifyAllLook,
            (CondCall::NotifyAllLook, Reply::Value(waiting)) => {
                if waiting != 0 {
                    CondCall::NotifyAllWake
                } else {
                    CondCall::Done(CondOutcome::Notified(Wake::Nobody))
                }
            },
            (CondCall::NotifyAllWake, _) => CondCall::Done(CondOutcome::Notified(Wake::All)),
            (_, _) => self,
        }
    }

    /// The action of the step.
    pub fn action(&self) -> (action: Option<CondAction>)
        ensures
            action == self.spec_action(),
            action matches Some(act) ==> act.legal(),
    {
        match *self {
            CondCall::WaitLook => Some(
                CondAction::Word(Action::Word(CondWord::Counter, Op::Load(Order::Relaxed))),
            ),
            CondCall::WaitEnter { .. } => Some(
                CondAction::Word(Action::Word(CondWord::Waiting, Op::FetchAdd(1, Order::Relaxed))),
            ),
            CondCall::WaitUnlock { .. } => Some(CondAction::Unlock),
            CondCall::WaitSleep { seen } => Some(
                CondAction::Word(Action::Wait(CondWord::Counter, seen)),
            ),
            CondCall::WaitLeave => Some(
                CondAction::Word(Action::Word(CondWord::Waiting, Op::FetchSub(1, Order::Relaxed))),
            ),
            CondCall::WaitLock => Some(CondAction::Lock),
            CondCall::NotifyOne | CondCall::NotifyAll => Some(
                CondAction::Word(Action::Word(CondWord::Counter, Op::FetchAdd(1, Order::Relaxed))),
            ),
            CondCall::NotifyOneWake => Some(CondAction::Word(Action::WakeOne(CondWord::Counter))),
            CondCall::NotifyAllLook => Some(
                CondAction::Word(Action::Word(CondWord::Waiting, Op::Load(Order::Relaxed))),
            ),
            CondCall::NotifyAllWake => Some(CondAction::Word(Action::WakeAll(CondWord::Counter))),
            CondCall::Done(_) => None,
        }
    }

    /// Takes the reply to the action and moves on.
    pub fn advance(self, reply: Reply<u32>) -> (next: CondCall)
        ensures
            next == self.spec_advance(reply),
    {
        match (self, reply) {
            (CondCall::WaitLook, Reply::Value(seen)) => CondCall::WaitEnter { seen },
            (CondCall::WaitEnter { seen }, _) => CondCall::WaitUnlock { seen },
            (CondCall::WaitUnlock { seen }, _) => CondCall::WaitSleep { seen },
            (CondCall::WaitSleep { .. }, Reply::Done) => CondCall::WaitLeave,
            (CondCall::WaitLeave, _) => CondCall::WaitLock,
            (CondCall::WaitLock, _) => CondCall::Done(CondOutcome::Woken),
            (CondCall::NotifyOne, _) => CondCall::NotifyOneWake,
            (CondCall::NotifyOneWake, _) => CondCall::Done(CondOutcome::Notified(Wake::One)),
            (CondCall::NotifyAll, _) => CondCall::NotifyAllLook,
            (CondCall::NotifyAllLook, Reply::Value(waiting)) => {
                if waiting != 0 {
                    CondCall::NotifyAllWake
                } else {
                    CondCall::Done(CondOutcome::Notified(Wake::Nobody))
                }
            },
            (CondCall::NotifyAllWake, _) => CondCall::Done(CondOutcome::Notified(Wake::All)),
            (_, _) => self,
        }
    }

    /// The words and the call after all the steps that the call can take alone: it is over then, or
    /// asleep, or about to unlock or lock the mutex.
    pub open spec fn alone(self, words: CondWords) -> (CondWords, CondCall) {
        let one_more = CondWords { waiting: words.waiting.wrapping_add(1), ..words };
        let one_less = CondWords { waiting: words.waiting.wrapping_sub(1), ..words };
        let notified = CondWords { counter: words.counter.wrapping_add(1), ..words };
        match self {
            CondCall::WaitLook => (one_more, CondCall::WaitUnlock { seen: words.counter }),
            CondCall::WaitEnter { seen } => (one_more, CondCall::WaitUnlock { seen }),
            CondCall::WaitUnlock { .. } | CondCall::WaitLock => (words, self),
            CondCall::WaitSleep { seen } =>
                if words.counter == seen {
                    (words, self)
                } else {
                    (one_less, CondCall::WaitLock)
                },
            CondCall::WaitLeave => (one_less, CondCall::WaitLock),
            CondCall::NotifyOne => (notified, CondCall::Done(CondOutcome::Notified(Wake::One))),
            CondCall::NotifyOneWake => (words, CondCall::Done(CondOutcome::Notified(Wake::One))),
            CondCall::NotifyAll => (
                notified,
                CondCall::Done(CondOutcome::Notified(words.whom_to_wake())),
            ),
            CondCall::NotifyAllLook => (
                words,
                CondCall::Done(CondOutcome::Notified(words.whom_to_wake())),
            ),
            CondCall::NotifyAllWake => (words, CondCall::Done(CondOutcome::Notified(Wake::All))),
            CondCall::Done(_) => (words, self),
        }
    }

    /// A bound on the steps that the call can take alone.
    spec fn steps_left(self, words: CondWords) -> int {
        match self {
            CondCall::WaitLook => 2,
            CondCall::WaitEnter { .. } => 1,
            CondCall::WaitSleep { seen } => if words.counter == seen {
                0
            } else {
                2
            },
            CondCall::WaitLeave => 1,
            CondCall::NotifyOne | CondCall::NotifyAllLook => 2,
            CondCall::NotifyOneWake | CondCall::NotifyAllWake => 1,
            CondCall::NotifyAll => 3,
            CondCall::WaitUnlock { .. } | CondCall::WaitLock | CondCall::Done(_) => 0,
        }
    }
}

/// The words of a condition variable that one call at a time uses.
#[derive(Clone, Copy, Debug, PartialEq, Eq)]
pub struct CondWords {
    pub counter: u32,
    pub waiting: u32,
}

impl CondWords {
    /// The value of a word.
    pub open spec fn get(self, word: CondWord) -> u32 {
        match word {
            CondWord::Counter => self.counter,
            CondWord::Waiting => self.waiting,
        }
    }

    /// The words with another value of one of them.
    pub open spec fn set(self, word: CondWord, value: u32) -> CondWords {
        match word {
            CondWord::Counter => CondWords { counter: value, ..self },
            CondWord::Waiting => CondWords { waiting: value, ..self },
        }
    }

    /// Whom a notification of all wakes: everybody, if somebody waits.
    pub open spec fn whom_to_wake(self) -> Wake {
        if self.waiting != 0 {
            Wake::All
        } else {
            Wake::Nobody
        }
    }

    /// The words after an action, and its reply.
    pub open spec fn effect(self, action: Action<CondWord>) -> (CondWords, Reply<u32>) {
        match action {
            Action::Word(word, op) => (
                self.set(word, op.effect(self.get(word)).0),
                op.effect(self.get(word)).1,
            ),
            Action::Wait(word, value) => (
                self,
                if self.get(word) == value {
                    Reply::Asleep
                } else {
                    Reply::Done
                },
            ),
            Action::WakeOne(_) | Action::WakeAll(_) => (self, Reply::Done),
        }
    }

    /// Performs an action.
    pub fn perform(&mut self, action: Action<CondWord>) -> (reply: Reply<u32>)
        ensures
            (*final(self), reply) == old(self).effect(action),
    {
        match action {
            Action::Word(CondWord::Counter, op) => op.apply(&mut self.counter),
            Action::Word(CondWord::Waiting, op) => op.apply(&mut self.waiting),
            Action::Wait(word, value) => {
                let found: u32 = match word {
                    CondWord::Counter => self.counter,
                    CondWord::Waiting => self.waiting,
                };
                if found == value {
                    Reply::Asleep
                } else {
                    Reply::Done
                }
            },
            Action::WakeOne(_) | Action::WakeAll(_) => Reply::Done,
        }
    }

    /// Lets a call take steps until it is over, asleep, or about to unlock or lock the mutex.
    pub fn run(&mut self, start: CondCall) -> (end: CondCall)
        ensures
            (*final(self), end) == start.alone(*old(self)),
    {
        let mut call = start;
        loop
            invariant
                call.alone(*self) == start.alone(*old(self)),
            decreases call.steps_left(*self),
        {
            match call.action() {
                Some(CondAction::Word(action)) => {
                    let reply = self.perform(action);
                    if matches!(reply, Reply::Asleep) {
                        return call;
                    }
                    call = call.advance(reply);
                },
                _ => {
                    return call;
                },
            }
        }
    }
}

/// The words of a condition variable that many threads use at the same time.
pub struct RawCondVar {
    counter: AtomicU32,
    waiting: AtomicU32,
}

impl RawCondVar {
    /// The atomics are what the standard library's `new` returns for these values. What they hold
    /// later is up to the threads.
    pub closed spec fn made_with(self, words: CondWords) -> bool {
        &&& call_ensures(AtomicU32::new, (words.counter,), self.counter)
        &&& call_ensures(AtomicU32::new, (words.waiting,), self.waiting)
    }

    /// A condition variable that nobody waits for.
    pub fn new() -> (raw: RawCondVar)
        ensures
            raw.made_with((CondWords { counter: 0, waiting: 0 })),
    {
        RawCondVar { counter: AtomicU32::new(0), waiting: AtomicU32::new(0) }
    }

    /// The atomic behind a word.
    spec fn atomic(self, word: CondWord) -> AtomicU32 {
        match word {
            CondWord::Counter => self.counter,
            CondWord::Waiting => self.waiting,
        }
    }

    /// The action was performed on the atomic behind its word, with this reply.
    pub closed spec fn performed(self, action: Action<CondWord>, reply: Reply<u32>) -> bool {
        action.performed(self.atomic(action.word()), reply)
    }

    /// The atomic behind a word.
    fn word(&self, word: CondWord) -> (atomic: &AtomicU32)
        ensures
            *atomic == self.atomic(word),
    {
        match word {
            CondWord::Counter => &self.counter,
            CondWord::Waiting => &self.waiting,
        }
    }

    /// Performs an action on the atomic words. A wait comes back once the thread is awake again.
    fn perform(&self, action: Action<CondWord>) -> (reply: Reply<u32>)
        requires
            action.legal(),
        ensures
            self.performed(action, reply),
            action.fits(reply),
            !(reply is Asleep),
    {
        let word = match action {
            Action::Word(word, _)
            | Action::Wait(word, _)
            | Action::WakeOne(word)
            | Action::WakeAll(word) => word,
        };
        action.apply_atomic(self.word(word))
    }

    /// Takes the next step of a call, if it is one on the words: performs its action and moves on
    /// with the reply. Which reply comes depends on the other threads; the call moves as the
    /// protocol says for that reply. A call that is about to unlock or lock the mutex stays where
    /// it is.
    pub fn step(&self, call: CondCall) -> (next: CondCall)
        ensures
            !(call.spec_action() matches Some(CondAction::Word(_))) ==> next == call,
            call.spec_action() matches Some(CondAction::Word(action)) ==> exists|reply: Reply<u32>|
                {
                    &&& #[trigger] self.performed(action, reply)
                    &&& action.fits(reply) && !(reply is Asleep)
                    &&& next == call.spec_advance(reply)
                },
    {
        match call.action() {
            Some(CondAction::Word(action)) => {
                let reply = self.perform(action);
                call.advance(reply)
            },
            _ => call,
        }
    }
}

/// A condition variable.
///
/// The value is the state that the threads share. Calls of different threads follow each other, and
/// a call that has to wait comes back pending, to be resumed once it is woken.
pub struct CondVar {
    words: CondWords,
}

impl View for CondVar {
    type V = CondWords;

    closed spec fn view(&self) -> CondWords {
        self.words
    }
}

/// A `wait` that is not over: it sleeps, or waits for the mutex.
#[derive(Clone, Copy, Debug, PartialEq, Eq)]
pub enum CondWait {
    Sleeping(CondCall),
    Locking(MutexCall),
}

impl CondVar {
    /// A condition variable that nobody waits for.
    pub fn new() -> (cond: CondVar)
        ensures
            cond@ == (CondWords { counter: 0, waiting: 0 }),
    {
        CondVar { words: CondWords { counter: 0, waiting: 0 } }
    }

    /// The threads that wait.
    pub fn waiting(&self) -> (waiting: u32)
        ensures
            waiting == self@.waiting,
    {
        self.words.waiting
    }

    /// Gives up the mutex and goes to sleep until there is a notification. The result is the thread
    /// that has to be unparked because the mutex was released, and the call to be resumed.
    pub fn wait<T>(
        &mut self,
        guard: MutexGuard,
        mutex: &mut Mutex<T>,
        me: &mut HeldLocks,
        panicking: bool,
    ) -> (res: (Option<usize>, CondWait))
        requires
            guard@ == old(mutex)@.id,
            old(mutex)@.words.at_rest(),
        ensures
            final(self)@ == (CondWords {
                waiting: old(self)@.waiting.wrapping_add(1),
                ..old(self)@
            }),
            final(mutex)@.words.at_rest(),
            final(mutex)@ == (MutexView {
                words: MutexWordsView {
                    state: UNLOCKED,
                    queue: old(mutex)@.words.rest_of_queue(),
                    ..old(mutex)@.words
                },
                poisoned: old(mutex)@.poisoned || panicking,
                ..old(mutex)@
            }),
            final(me)@ == old(me)@.remove(guard@),
            res.0 == old(mutex)@.words.first_in_queue(),
            res.1 == CondWait::Sleeping(CondCall::WaitSleep { seen: old(self)@.counter }),
    {
        let call = self.words.run(CondCall::WaitLook);
        let first = guard.unlock(mutex, me, panicking);
        let call = self.words.run(call.advance(Reply::Done));
        (first, CondWait::Sleeping(call))
    }

    /// Goes on with a `wait`: if there was a notification, locks the mutex again for the thread
    /// with this number, which does not hold it. The mutex is not poisoned.
    pub fn resume<T>(
        &mut self,
        wait: CondWait,
        mutex: &mut Mutex<T>,
        me: &mut HeldLocks,
        thread: usize,
    ) -> (res: Progress<MutexGuard, CondWait>)
        requires
            wait matches CondWait::Sleeping(call) ==> call is WaitSleep,
            wait matches CondWait::Locking(call) ==> call == (MutexCall::Park { me: thread }),
            old(mutex)@.words.at_rest(),
            !old(mutex)@.poisoned,
            !old(me)@.contains(old(mutex)@.id),
        ensures
            final(mutex)@.words.at_rest(),
            if wait matches CondWait::Sleeping(CondCall::WaitSleep { seen }) && seen == old(
                self,
            )@.counter {
                // No notification yet.
                &&& res == Progress::<MutexGuard, CondWait>::Pending(wait)
                &&& final(self)@ == old(self)@
                &&& final(mutex)@ == old(mutex)@
                &&& final(me)@ == old(me)@
            } else {
                &&& final(self)@ == if wait is Sleeping {
                    CondWords { waiting: old(self)@.waiting.wrapping_sub(1), ..old(self)@ }
                } else {
                    old(self)@
                }
                &&& relocks(
                    old(mutex)@,
                    final(mutex)@,
                    old(me)@,
                    final(me)@,
                    thread,
                    wait is Locking,
                    res,
                )
            },
    {
        let locked = match wait {
            CondWait::Sleeping(call) => {
                let end = self.words.run(call);
                if let CondCall::WaitSleep { .. } = end {
                    return Progress::Pending(wait);
                }
                mutex.lock(me, thread)
            },
            CondWait::Locking(call) => mutex.resume(call, me),
        };
        match locked {
            Progress::Finished(Ok(guard)) => Progress::Finished(guard),
            Progress::Finished(Err(_)) => {
                // The mutex is not poisoned, and this thread does not hold it.
                assert(false);
                Progress::Pending(wait)
            },
            Progress::Pending(call) => Progress::Pending(CondWait::Locking(call)),
        }
    }

    /// Notifies one thread. The result says who has to be woken.
    pub fn notify_one(&mut self) -> (wake: Wake)
        ensures
            final(self)@ == (CondWords {
                counter: old(self)@.counter.wrapping_add(1),
                ..old(self)@
            }),
            wake == Wake::One,
    {
        match self.words.run(CondCall::NotifyOne) {
            CondCall::Done(CondOutcome::Notified(wake)) => wake,
            _ => Wake::Nobody,
        }
    }

    /// Notifies all threads. The result says who has to be woken.
    pub fn notify_all(&mut self) -> (wake: Wake)
        ensures
            final(self)@ == (CondWords {
                counter: old(self)@.counter.wrapping_add(1),
                ..old(self)@
            }),
            wake == old(self)@.whom_to_wake(),
    {
        match self.words.run(CondCall::NotifyAll) {
            CondCall::Done(CondOutcome::Notified(wake)) => wake,
            _ => Wake::Nobody,
        }
    }
}

/// What a thread gets that locks the mutex again after a `wait`: the mutex if it is free, and
/// otherwise a place in its queue, which it keeps if it has parked there before.
pub open spec fn relocks<T>(
    before: MutexView<T>,
    after: MutexView<T>,
    me_before: Set<u64>,
    me_after: Set<u64>,
    thread: usize,
    again: bool,
    res: Progress<MutexGuard, CondWait>,
) -> bool {
    let (words, end) = before.words.locks(thread, again);
    &&& after == (MutexView { words, ..before })
    &&& if before.words.state == UNLOCKED {
        &&& me_after == me_before.insert(before.id)
        &&& res matches Progress::Finished(guard) && guard@ == before.id
    } else {
        &&& me_after == me_before
        &&& res == Progress::<MutexGuard, CondWait>::Pending(CondWait::Locking(end))
    }
}

impl RawCondVar {
    /// The atomic that holds the number of notifications.
    pub closed spec fn counter_atomic(self) -> AtomicU32 {
        self.counter
    }

    /// The atomic that holds the number of threads that wait.
    pub closed spec fn waiting_atomic(self) -> AtomicU32 {
        self.waiting
    }
}

/// Each word is held by its own atomic, which starts with the value of a new condition
/// variable; an action on a
/// word is performed on that atomic and on no other.
pub proof fn law_every_word_has_its_atomic(
    made: RawCondVar,
    raw: RawCondVar,
    action: Action<CondWord>,
    reply: Reply<u32>,
)
    requires
        call_ensures(RawCondVar::new, (), made),
        raw.performed(action, reply),
    ensures
        made.made_with((CondWords { counter: 0, waiting: 0 })),
        call_ensures(AtomicU32::new, (0u32,), made.counter_atomic()),
        call_ensures(AtomicU32::new, (0u32,), made.waiting_atomic()),
        action.word() is Counter ==> action.performed(raw.counter_atomic(), reply),
        action.word() is Waiting ==> action.performed(raw.waiting_atomic(), reply),
{
}

} // verus!
