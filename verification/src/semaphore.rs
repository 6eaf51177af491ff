//! A counting semaphore.
//!
//! One word counts the permits and another one the threads that wait for a permit; the threads
//! sleep on the first. The protocol of the words is [`SemCall`]. It runs on ordinary words
//! ([`SemWords`]), one call at a time, as [`Semaphore`] does, and on atomic words, step by step, as
//! [`RawSemaphore`] does.

use crate::utils::mutex_common::{Progress, Wake};
use crate::word::{Action, Op, Order, Reply};
use std::sync::atomic::AtomicU32;
use vstd::prelude::*;

verus! {

/// The words of the semaphore.
#[derive(Clone, Copy, Debug, PartialEq, Eq)]
pub enum SemWord {
    Count,
    NumWaiting,
}

/// How a call ends.
#[derive(Clone, Copy, Debug, PartialEq, Eq)]
pub enum SemOutcome {
    Acquired,
    Refused,
    Signaled(Wake),
}

/// Where a call stands: the step that it takes next, or how it ended.
#[derive(Clone, Copy, Debug, PartialEq, Eq)]
pub enum SemCall {
    /// `wait`: count one more thread that waits.
    WaitEnter,
    /// `wait`: look at the permits.
    WaitLook,
    /// `wait`: sleep while there is no permit.
    WaitSleep,
    /// `wait`: take one of the permits.
    WaitTake { count: u32 },
    /// `wait`: count one thread less that waits.
    WaitLeave,
    /// `try_wait`: look at the permits.
    TryLook,
    /// `try_wait`: take one of the permits.
    TryTake { count: u32 },
    /// `signal`: add a permit.
    Signal,
    /// `signal`: see whether threads wait.
    SignalLook,
    /// `signal`: wake a thread.
    SignalWake,
    /// The call is over.
    Done(SemOutcome),
}

impl SemCall {
    /// The action of the step; `None` when the call is over.
    pub open spec fn spec_action(self) -> Option<Action<SemWord>> {
        match self {
            SemCall::WaitEnter => Some(
                Action::Word(SemWord::NumWaiting, Op::FetchAdd(1, Order::Relaxed)),
            ),
            SemCall::WaitLook | SemCall::TryLook => Some(
                Action::Word(SemWord::Count, Op::Load(Order::Relaxed)),
            ),
            SemCall::WaitSleep => Some(Action::Wait(SemWord::Count, 0)),
            SemCall::WaitTake { count } | SemCall::TryTake { count } => Some(
                Action::Word(
                    SemWord::Count,
                    Op::CompareExchangeWeak {
                        current: count,
                        new: count.wrapping_sub(1),
                        order: Order::Acquire,
                    },
                ),
            ),
            SemCall::WaitLeave => Some(
                Action::Word(SemWord::NumWaiting, Op::FetchSub(1, Order::Relaxed)),
            ),
            SemCall::Signal => Some(Action::Word(SemWord::Count, Op::FetchAdd(1, Order::Release))),
            SemCall::SignalLook => Some(
                Action::Word(SemWord::NumWaiting, Op::Load(Order::Relaxed)),
            ),
            SemCall::SignalWake => Some(Action::WakeOne(SemWord::Count)),
            SemCall::Done(_) => None,
        }
    }

    /// Where the call stands after the reply to its action.
    pub open spec fn spec_advance(self, reply: Reply<u32>) -> SemCall {
        match (self, reply) {
            (SemCall::WaitEnter, _) => SemCall::WaitLook,
            (SemCall::WaitLook, Reply::Value(count)) => {
                if count == 0 {
                    SemCall::WaitSleep
                } else {
                    SemCall::WaitTake { count }
                }
            },
            (SemCall::WaitSleep, Reply::Done) => SemCall::WaitLook,
            (SemCall::WaitTake { .. }, Reply::Swapped) => SemCall::WaitLeave,
            (SemCall::WaitTake { .. }, _) => SemCall::WaitLook,
            (SemCall::WaitLeave, _) => SemCall::Done(SemOutcome::Acquired),
            (SemCall::TryLook, Reply::Value(count)) => {
                if count == 0 {
                    SemCall::Done(SemOutcome::Refused)
                } else {
                    SemCall::TryTake { count }
                }
            },
            (SemCall::TryTake { .. }, Reply::Swapped) => SemCall::Done(SemOutcome::Acquired),
            (SemCall::TryTake { .. }, _) => SemCall::Done(SemOutcome::Refused),
            (SemCall::Signal, _) => SemCall::SignalLook,
            (SemCall::SignalLook, Reply::Value(waiting)) => {
                if waiting > 0 {
                    SemCall::SignalWake
                } else {
                    SemCall::Done(SemOutcome::Signaled(Wake::Nobody))
                }
            },
            (SemCall::SignalWake, _) => SemCall::Done(SemOutcome::Signaled(Wake::One)),
            (_, _) => self,
        }
    }

    /// The action of the step.
    pub fn action(&self) -> (action: Option<Action<SemWord>>)
        ensures
            action == self.spec_action(),
            action matches Some(act) ==> act.legal(),
    {
        match *self {
            SemCall::WaitEnter => Some(
                Action::Word(SemWord::NumWaiting, Op::FetchAdd(1, Order::Relaxed)),
            ),
            SemCall::WaitLook | SemCall::TryLook => Some(
                Action::Word(SemWord::Count, Op::Load(Order::Relaxed)),
            ),
            SemCall::WaitSleep => Some(Action::Wait(SemWord::Count, 0)),
            SemCall::WaitTake { count } | SemCall::TryTake { count } => Some(
                Action::Word(
                    SemWord::Count,
                    Op::CompareExchangeWeak {
                        current: count,
                        new: count.wrapping_sub(1),
                        order: Order::Acquire,
                    },
                ),
            ),
            SemCall::WaitLeave => Some(
                Action::Word(SemWord::NumWaiting, Op::FetchSub(1, Order::Relaxed)),
            ),
            SemCall::Signal => Some(Action::Word(SemWord::Count, Op::FetchAdd(1, Order::Release))),
            SemCall::SignalLook => Some(
                Action::Word(SemWord::NumWaiting, Op::Load(Order::Relaxed)),
            ),
            SemCall::SignalWake => Some(Action::WakeOne(SemWord::Count)),
            SemCall::Done(_) => None,
        }
    }

    /// Takes the reply to the action and moves on.
    pub fn advance(self, reply: Reply<u32>) -> (next: SemCall)
        ensures
            next == self.spec_advance(reply),
    {
        match (self, reply) {
            (SemCall::WaitEnter, _) => SemCall::WaitLook,
            (SemCall::WaitLook, Reply::Value(count)) => {
                if count == 0 {
                    SemCall::WaitSleep
                } else {
                    SemCall::WaitTake { count }
                }
            },
            (SemCall::WaitSleep, Reply::Done) => SemCall::WaitLook,
            (SemCall::WaitTake { .. }, Reply::Swapped) => SemCall::WaitLeave,
            (SemCall::WaitTake { .. }, _) => SemCall::WaitLook,
            (SemCall::WaitLeave, _) => SemCall::Done(SemOutcome::Acquired),
            (SemCall::TryLook, Reply::Value(count)) => {
                if count == 0 {
                    SemCall::Done(SemOutcome::Refused)
                } else {
                    SemCall::TryTake { count }
                }
            },
            (SemCall::TryTake { .. }, Reply::Swapped) => SemCall::Done(SemOutcome::Acquired),
            (SemCall::TryTake { .. }, _) => SemCall::Done(SemOutcome::Refused),
            (SemCall::Signal, _) => SemCall::SignalLook,
            (SemCall::SignalLook, Reply::Value(waiting)) => {
                if waiting > 0 {
                    SemCall::SignalWake
                } else {
                    SemCall::Done(SemOutcome::Signaled(Wake::Nobody))
                }
            },
            (SemCall::SignalWake, _) => SemCall::Done(SemOutcome::Signaled(Wake::One)),
            (_, _) => self,
        }
    }

    /// The words and the call after all the steps that the call can take alone: it is over then, or
    /// asleep.
    pub open spec fn alone(self, words: SemWords) -> (SemWords, SemCall) {
        let one_less = SemWords { num_waiting: words.num_waiting.wrapping_sub(1), ..words };
        match self {
            SemCall::WaitEnter =>
                if words.count == 0 {
                    (
                        SemWords { num_waiting: words.num_waiting.wrapping_add(1), ..words },
                        SemCall::WaitSleep,
                    )
                } else {
                    (
                        SemWords { count: (words.count - 1) as u32, ..words },
                        SemCall::Done(SemOutcome::Acquired),
                    )
                },
            SemCall::WaitLook | SemCall::WaitSleep =>
                if words.count == 0 {
                    (words, SemCall::WaitSleep)
                } else {
                    (
                        SemWords { count: (words.count - 1) as u32, ..one_less },
                        SemCall::Done(SemOutcome::Acquired),
                    )
                },
            SemCall::WaitTake { count } =>
                if words.count == count {
                    (
                        SemWords { count: count.wrapping_sub(1), ..one_less },
                        SemCall::Done(SemOutcome::Acquired),
                    )
                } else if words.count == 0 {
                    (words, SemCall::WaitSleep)
                } else {
                    (
                        SemWords { count: (words.count - 1) as u32, ..one_less },
                        SemCall::Done(SemOutcome::Acquired),
                    )
                },
            SemCall::WaitLeave => (one_less, SemCall::Done(SemOutcome::Acquired)),
            SemCall::TryLook =>
                if words.count == 0 {
                    (words, SemCall::Done(SemOutcome::Refused))
                } else {
                    (
                        SemWords { count: (words.count - 1) as u32, ..words },
                        SemCall::Done(SemOutcome::Acquired),
                    )
                },
            SemCall::TryTake { count } =>
                if words.count == count {
                    (
                        SemWords { count: count.wrapping_sub(1), ..words },
                        SemCall::Done(SemOutcome::Acquired),
                    )
                } else {
                    (words, SemCall::Done(SemOutcome::Refused))
                },
            SemCall::Signal => (
                SemWords { count: words.count.wrapping_add(1), ..words },
                SemCall::Done(SemOutcome::Signaled(words.whom_to_wake())),
            ),
            SemCall::SignalLook => (
                words,
                SemCall::Done(SemOutcome::Signaled(words.whom_to_wake())),
            ),
            SemCall::SignalWake => (words, SemCall::Done(SemOutcome::Signaled(Wake::One))),
            SemCall::Done(_) => (words, self),
        }
    }

    /// A bound on the steps that the call can take alone.
    spec fn steps_left(self, words: SemWords) -> int {
        match self {
            SemCall::WaitEnter => 10,
            SemCall::WaitLook => 6,
            SemCall::WaitSleep => if words.count == 0 {
                0
            } else {
                7
            },
            SemCall::WaitTake { count } => if words.count == count {
                2
            } else {
                7
            },
            SemCall::WaitLeave => 1,
            SemCall::TryLook => 2,
            SemCall::TryTake { .. } => 1,
            SemCall::Signal => 3,
            SemCall::SignalLook => 2,
            SemCall::SignalWake => 1,
            SemCall::Done(_) => 0,
        }
    }
}

/// The words of a semaphore that one call at a time uses.
#[derive(Clone, Copy, Debug, PartialEq, Eq)]
pub struct SemWords {
    pub count: u32,
    pub num_waiting: u32,
}

impl SemWords {
    /// The value of a word.
    pub open spec fn get(self, word: SemWord) -> u32 {
        match word {
            SemWord::Count => self.count,
            SemWord::NumWaiting => self.num_waiting,
        }
    }

    /// The words with another value of one of them.
    pub open spec fn set(self, word: SemWord, value: u32) -> SemWords {
        match word {
            SemWord::Count => SemWords { count: value, ..self },
            SemWord::NumWaiting => SemWords { num_waiting: value, ..self },
        }
    }

    /// Whom a signal wakes: a thread if one waits.
    pub open spec fn whom_to_wake(self) -> Wake {
        if self.num_waiting > 0 {
            Wake::One
        } else {
            Wake::Nobody
        }
    }

    /// The words after an action, and its reply.
    pub open spec fn effect(self, action: Action<SemWord>) -> (SemWords, Reply<u32>) {
        match action {
            Action::Word(word, op) => (
                self.set(word, op.effect(self.get(word)).0),
                op.effect(self.get(word)).1,
            ),
            Action::Wait(word, value) => (
                self,
                if self.get(word) == value {
                    Reply::Asleep
                } else {
                    Reply::Done
                },
            ),
            Action::WakeOne(_) | Action::WakeAll(_) => (self, Reply::Done),
        }
    }

    /// Performs an action.
    pub fn perform(&mut self, action: Action<SemWord>) -> (reply: Reply<u32>)
        ensures
            (*final(self), reply) == old(self).effect(action),
    {
        match action {
            Action::Word(SemWord::Count, op) => op.apply(&mut self.count),
            Action::Word(SemWord::NumWaiting, op) => op.apply(&mut self.num_waiting),
            Action::Wait(word, value) => {
                let found: u32 = match word {
                    SemWord::Count => self.count,
                    SemWord::NumWaiting => self.num_waiting,
                };
                if found == value {
                    Reply::Asleep
                } else {
                    Reply::Done
                }
            },
            Action::WakeOne(_) | Action::WakeAll(_) => Reply::Done,
        }
    }

    /// Lets a call take steps until it is over or asleep.
    pub fn run(&mut self, start: SemCall) -> (end: SemCall)
        ensures
            (*final(self), end) == start.alone(*old(self)),
    {
        let mut call = start;
        loop
            invariant
                call.alone(*self) == start.alone(*old(self)),
            decreases call.steps_left(*self),
        {
            match call.action() {
                None => {
                    return call;
                },
                Some(action) => {
                    let reply = self.perform(action);
                    if matches!(reply, Reply::Asleep) {
                        return call;
                    }
                    call = call.advance(reply);
                },
            }
        }
    }
}

/// The words of a semaphore that many threads use at the same time.
pub struct RawSemaphore {
    count: AtomicU32,
    num_waiting: AtomicU32,
}

impl RawSemaphore {
    /// The atomics are what the standard library's `new` returns for these values. What they hold
    /// later is up to the threads.
    pub closed spec fn made_with(self, words: SemWords) -> bool {
        &&& call_ensures(AtomicU32::new, (words.count,), self.count)
        &&& call_ensures(AtomicU32::new, (words.num_waiting,), self.num_waiting)
    }

    /// A semaphore with this many permits.
    pub fn new(initial_count: u32) -> (raw: RawSemaphore)
        ensures
            raw.made_with((SemWords { count: initial_count, num_waiting: 0 })),
    {
        RawSemaphore { count: AtomicU32::new(initial_count), num_waiting: AtomicU32::new(0) }
    }

    /// The atomic behind a word.
    spec fn atomic(self, word: SemWord) -> AtomicU32 {
        match word {
            SemWord::Count => self.count,
            SemWord::NumWaiting => self.num_waiting,
        }
    }

    /// The action was performed on the atomic behind its word, with this reply.
    pub closed spec fn performed(self, action: Action<SemWord>, reply: Reply<u32>) -> bool {
        action.performed(self.atomic(action.word()), reply)
    }

    /// The atomic behind a word.
    fn word(&self, word: SemWord) -> (atomic: &AtomicU32)
        ensures
            *atomic == self.atomic(word),
    {
        match word {
            SemWord::Count => &self.count,
            SemWord::NumWaiting => &self.num_waiting,
        }
    }

    /// Performs an action on the atomic words. A wait comes back once the thread is awake again.
    fn perform(&self, action: Action<SemWord>) -> (reply: Reply<u32>)
        requires
            action.legal(),
        ensures
            self.performed(action, reply),
            action.fits(reply),
            !(reply is Asleep),
    {
        let word = match action {
            Action::Word(word, _)
            | Action::Wait(word, _)
            | Action::WakeOne(word)
            | Action::WakeAll(word) => word,
        };
        action.apply_atomic(self.word(word))
    }

    /// Takes the next step of a call: performs its action and moves on with the reply. Which reply
    /// comes depends on the other threads; the call moves as the protocol says for that reply.
    pub fn step(&self, call: SemCall) -> (next: SemCall)
        ensures
            call.spec_action() is None ==> next == call,
            call.spec_action() matches Some(action) ==> exists|reply: Reply<u32>|
                {
                    &&& #[trigger] self.performed(action, reply)
                    &&& action.fits(reply) && !(reply is Asleep)
                    &&& next == call.spec_advance(reply)
                },
    {
        match call.action() {
            None => call,
            Some(action) => {
                let reply = self.perform(action);
                call.advance(reply)
            },
        }
    }
}

/// Where a wait with a deadline stands.
#[derive(Clone, Copy, Debug, PartialEq, Eq)]
pub enum TimedCall {
    /// Look at the clock.
    Clock,
    /// Try to take a permit.
    Trying(SemCall),
    /// The call is over, with or without a permit.
    Done(bool),
}

impl TimedCall {
    /// Takes what the clock said and moves on: another try before the deadline, and the end after
    /// it.
    pub fn clock(before_deadline: bool) -> (next: TimedCall)
        ensures
            next == if before_deadline {
                TimedCall::Trying(SemCall::TryLook)
            } else {
                TimedCall::Done(false)
            },
    {
        if before_deadline {
            TimedCall::Trying(SemCall::TryLook)
        } else {
            TimedCall::Done(false)
        }
    }

    /// Takes where a try stands and moves on: a permit ends the call, a refusal leads back to the
    /// clock.
    pub fn tried(call: SemCall) -> (next: TimedCall)
        ensures
            next == match call {
                SemCall::Done(SemOutcome::Acquired) => TimedCall::Done(true),
                SemCall::Done(_) => TimedCall::Clock,
                _ => TimedCall::Trying(call),
            },
    {
        match call {
            SemCall::Done(SemOutcome::Acquired) => TimedCall::Done(true),
            SemCall::Done(_) => TimedCall::Clock,
            _ => TimedCall::Trying(call),
        }
    }
}

/// A semaphore.
///
/// The value is the state that the threads share. Calls of different threads follow each other, and
/// a call that has to wait comes back asleep, to be resumed once it is woken.
pub struct Semaphore {
    words: SemWords,
}

impl View for Semaphore {
    type V = SemWords;

    closed spec fn view(&self) -> SemWords {
        self.words
    }
}

impl Semaphore {
    /// A semaphore with this many permits.
    pub fn new(initial_count: u32) -> (sem: Semaphore)
        ensures
            sem@ == (SemWords { count: initial_count, num_waiting: 0 }),
    {
        Semaphore { words: SemWords { count: initial_count, num_waiting: 0 } }
    }

    /// The permits that are left.
    pub fn count(&self) -> (count: u32)
        ensures
            count == self@.count,
    {
        self.words.count
    }

    /// The threads that wait for a permit.
    pub fn num_waiting(&self) -> (num_waiting: u32)
        ensures
            num_waiting == self@.num_waiting,
    {
        self.words.num_waiting
    }

    /// Takes a permit, or goes to sleep until there is one.
    pub fn wait(&mut self) -> (res: Progress<(), SemCall>)
        ensures
            old(self)@.count > 0 ==> {
                &&& res == Progress::<(), SemCall>::Finished(())
                &&& final(self)@ == (SemWords {
                    count: (old(self)@.count - 1) as u32,
                    ..old(self)@
                })
            },
            old(self)@.count == 0 ==> {
                &&& res == Progress::<(), SemCall>::Pending(SemCall::WaitSleep)
                &&& final(self)@ == (SemWords {
                    num_waiting: old(self)@.num_waiting.wrapping_add(1),
                    ..old(self)@
                })
            },
    {
        match self.words.run(SemCall::WaitEnter) {
            SemCall::Done(_) => Progress::Finished(()),
            call => Progress::Pending(call),
        }
    }

    /// Goes on with a `wait` that was asleep.
    pub fn resume(&mut self, call: SemCall) -> (res: Progress<(), SemCall>)
        requires
            call == SemCall::WaitSleep,
        ensures
            old(self)@.count > 0 ==> {
                &&& res == Progress::<(), SemCall>::Finished(())
                &&& final(self)@ == (SemWords {
                    count: (old(self)@.count - 1) as u32,
                    num_waiting: old(self)@.num_waiting.wrapping_sub(1),
                })
            },
            old(self)@.count == 0 ==> {
                &&& res == Progress::<(), SemCall>::Pending(SemCall::WaitSleep)
                &&& final(self)@ == old(self)@
            },
    {
        match self.words.run(call) {
            SemCall::Done(_) => Progress::Finished(()),
            call => Progress::Pending(call),
        }
    }

    /// Takes a permit if there is one.
    pub fn try_wait(&mut self) -> (taken: bool)
        ensures
            taken == (old(self)@.count > 0),
            final(self)@ == if old(self)@.count > 0 {
                SemWords { count: (old(self)@.count - 1) as u32, ..old(self)@ }
            } else {
                old(self)@
            },
    {
        matches!(self.words.run(SemCall::TryLook), SemCall::Done(SemOutcome::Acquired))
    }

    /// Tries to take a permit again and again until the deadline. The deadline is given as the
    /// number of times that the clock is read before it is reached.
    pub fn try_wait_duration(&mut self, readings: u64) -> (taken: bool)
        ensures
            taken == (readings > 0 && old(self)@.count > 0),
            final(self)@ == if readings > 0 && old(self)@.count > 0 {
                SemWords { count: (old(self)@.count - 1) as u32, ..old(self)@ }
            } else {
                old(self)@
            },
    {
        let mut left: u64 = readings;
        let mut call = TimedCall::Clock;
        loop
            invariant
                left <= readings,
                match call {
                    TimedCall::Clock => {
                        &&& self@ == old(self)@
                        &&& left < readings ==> self@.count == 0
                    },
                    TimedCall::Trying(_) => false,
                    TimedCall::Done(taken) => {
                        &&& taken == (readings > 0 && old(self)@.count > 0)
                        &&& self@ == if taken {
                            SemWords { count: (old(self)@.count - 1) as u32, ..old(self)@ }
                        } else {
                            old(self)@
                        }
                    },
                },
            decreases left, if call is Clock { 1int } else { 0 },
        {
            match call {
                TimedCall::Done(taken) => {
                    return taken;
                },
                _ => {
                    call = TimedCall::clock(left > 0);
                    if let TimedCall::Trying(start) = call {
                        left = left - 1;
                        call = TimedCall::tried(self.words.run(start));
                    }
                },
            }
        }
    }

    /// Adds a permit. The count starts over at zero after its largest value. The result says who
    /// has to be woken.
    pub fn signal(&mut self) -> (wake: Wake)
        ensures
            final(self)@ == (SemWords { count: old(self)@.count.wrapping_add(1), ..old(self)@ }),
            wake == old(self)@.whom_to_wake(),
    {
        match self.words.run(SemCall::Signal) {
            SemCall::Done(SemOutcome::Signaled(wake)) => wake,
            _ => Wake::Nobody,
        }
    }
}

impl RawSemaphore {
    /// The atomic that holds the permits.
    pub closed spec fn count_atomic(self) -> AtomicU32 {
        self.count
    }

    /// The atomic that holds the number of threads that wait.
    pub closed spec fn num_waiting_atomic(self) -> AtomicU32 {
        self.num_waiting
    }
}

/// Each word is held by its own atomic, which starts with the value of a new semaphore; an action
/// on a word is performed on that atomic and on no other.
pub proof fn law_every_word_has_its_atomic(
    made: RawSemaphore,
    initial_count: u32,
    raw: RawSemaphore,
    action: Action<SemWord>,
    reply: Reply<u32>,
)
    requires
        call_ensures(RawSemaphore::new, (initial_count,), made),
        raw.performed(action, reply),
    ensures
        made.made_with((SemWords { count: initial_count, num_waiting: 0 })),
        call_ensures(AtomicU32::new, (initial_count,), made.count_atomic()),
        call_ensures(AtomicU32::new, (0u32,), made.num_waiting_atomic()),
        action.word() is Count ==> action.performed(raw.count_atomic(), reply),
        action.word() is NumWaiting ==> action.performed(raw.num_waiting_atomic(), reply),
{
}

} // verus!
