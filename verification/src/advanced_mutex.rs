//! A mutex whose waiting threads sleep on its state word.
//!
//! The word is [`UNLOCKED`], [`LOCKED`] or [`CONTENDED`]: locked, and somebody may sleep on it. The
//! protocol of the word is [`MutexCall`]. It runs on an ordinary word ([`MutexWords`]), one call at
//! a time, as [`Mutex`] does, and on an atomic word, step by step, as [`RawMutex`] does.

use crate::mutex;
use crate::utils::mutex_common;
use crate::utils::mutex_common::{
    hand_out, HeldLocks, Identities, LockError, LockEvent, Progress, Wake,
};
use crate::word::{Action, Op, Order, Reply};
use std::sync::atomic::AtomicU32;
use vstd::prelude::*;

verus! {

/// Nobody holds the mutex.
pub const UNLOCKED: u32 = 0;

/// Somebody holds the mutex.
pub const LOCKED: u32 = 1;

/// Somebody holds the mutex, and somebody may sleep on the word.
pub const CONTENDED: u32 = 2;

/// How many times a thread looks at a locked mutex before it prepares to sleep.
pub const SPIN_LIMIT: u32 = 100;

/// The words of the mutex.
#[derive(Clone, Copy, Debug, PartialEq, Eq)]
pub enum MutexWord {
    State,
}

/// How a call ends.
#[derive(Clone, Copy, Debug, PartialEq, Eq)]
pub enum MutexOutcome {
    Acquired,
    WouldBlock,
    Released(Wake),
}

/// Where a call stands: the step that it takes next, or how it ended. A call of `lock` carries
/// `slept` from when it may have to sleep on.
#[derive(Clone, Copy, Debug, PartialEq, Eq)]
pub enum MutexCall {
    /// `lock`: take the mutex if it is free.
    Lock,
    /// `lock`: look at the mutex for the `counter`-th time.
    Spin { counter: u32 },
    /// `lock`: take the mutex if it is free by now.
    LockAgain,
    /// `lock`: see whether to take the mutex or to sleep.
    SlowLook { slept: bool },
    /// `lock`: take the mutex, which was free.
    SlowLock { slept: bool },
    /// `lock`: note that somebody sleeps, unless the word has changed.
    SlowMark { slept: bool, seen: u32 },
    /// `lock`: sleep until the mutex is released.
    SlowSleep,
    /// `lock`, with the mutex: wake the next sleeper, who will note that somebody sleeps.
    SlowWake,
    /// `try_lock`: take the mutex if it is free.
    TryLock,
    /// `unlock`: free the mutex.
    Unlock,
    /// `unlock`: wake a sleeper.
    UnlockWake,
    /// The call is over.
    Done(MutexOutcome),
}

impl MutexCall {
    /// The action of the step; `None` when the call is over.
    pub open spec fn spec_action(self) -> Option<Action<MutexWord>> {
        let take = Op::CompareExchange { current: UNLOCKED, new: LOCKED, order: Order::Acquire };
        let take_weak = Op::CompareExchangeWeak {
            current: UNLOCKED,
            new: LOCKED,
            order: Order::Acquire,
        };
        match self {
            MutexCall::Lock | MutexCall::TryLock => Some(Action::Word(MutexWord::State, take_weak)),
            MutexCall::Spin { .. } | MutexCall::SlowLook { .. } => Some(
                Action::Word(MutexWord::State, Op::Load(Order::Relaxed)),
            ),
            MutexCall::LockAgain | MutexCall::SlowLock { .. } => Some(
                Action::Word(MutexWord::State, take),
            ),
            MutexCall::SlowMark { seen, .. } => Some(
                Action::Word(
                    MutexWord::State,
                    Op::CompareExchange {
                        current: seen,
                        new: CONTENDED,
                        order: Order::Relaxed,
                    },
                ),
            ),
            MutexCall::SlowSleep => Some(Action::Wait(MutexWord::State, CONTENDED)),
            MutexCall::Unlock => Some(
                Action::Word(MutexWord::State, Op::Swap(UNLOCKED, Order::Release)),
            ),
            MutexCall::SlowWake | MutexCall::UnlockWake => {
                Some(Action::WakeOne(MutexWord::State))
            },
            MutexCall::Done(_) => None,
        }
    }

    /// Where the call stands after the reply to its action.
    pub open spec fn spec_advance(self, reply: Reply<u32>) -> MutexCall {
        match (self, reply) {
            (MutexCall::Lock, Reply::Swapped) => MutexCall::Done(MutexOutcome::Acquired),
            (MutexCall::Lock, _) => MutexCall::Spin { counter: 0 },
            (MutexCall::Spin { counter }, Reply::Value(state)) =>
                if state != UNLOCKED && counter + 1 < SPIN_LIMIT {
                    MutexCall::Spin { counter: (counter + 1) as u32 }
                } else {
                    MutexCall::LockAgain
                },
            (MutexCall::LockAgain, Reply::Swapped) => MutexCall::Done(MutexOutcome::Acquired),
            (MutexCall::LockAgain, _) => MutexCall::SlowLook { slept: false },
            (MutexCall::SlowLook { slept }, Reply::Value(state)) =>
                if state == UNLOCKED {
                    MutexCall::SlowLock { slept }
                } else if state != CONTENDED {
                    MutexCall::SlowMark { slept, seen: state }
                } else {
                    MutexCall::SlowSleep
                },
            (MutexCall::SlowLock { slept }, Reply::Swapped) =>
                if slept {
                    MutexCall::SlowWake
                } else {
                    MutexCall::Done(MutexOutcome::Acquired)
                },
            (MutexCall::SlowLock { slept }, _) => MutexCall::SlowLook { slept },
            (MutexCall::SlowMark { .. }, Reply::Swapped) => MutexCall::SlowSleep,
            (MutexCall::SlowMark { slept, .. }, _) => MutexCall::SlowLook { slept },
            (MutexCall::SlowSleep, Reply::Done) => MutexCall::SlowLook { slept: true },
            (MutexCall::SlowWake, _) => MutexCall::Done(MutexOutcome::Acquired),
            (MutexCall::TryLock, Reply::Swapped) => MutexCall::Done(MutexOutcome::Acquired),
            (MutexCall::TryLock, _) => MutexCall::Done(MutexOutcome::WouldBlock),
            (MutexCall::Unlock, Reply::Value(state)) =>
                if state == CONTENDED {
                    MutexCall::UnlockWake
                } else {
                    MutexCall::Done(MutexOutcome::Released(Wake::Nobody))
                },
            (MutexCall::UnlockWake, _) => MutexCall::Done(MutexOutcome::Released(Wake::One)),
            (_, _) => self,
        }
    }

    /// The action of the step.
    pub fn action(&self) -> (action: Option<Action<MutexWord>>)
        ensures
            action == self.spec_action(),
            action matches Some(act) ==> act.legal(),
    {
        match *self {
            MutexCall::Lock | MutexCall::TryLock => Some(
                Action::Word(
                    MutexWord::State,
                    Op::CompareExchangeWeak {
                        current: UNLOCKED,
                        new: LOCKED,
                        order: Order::Acquire,
                    },
                ),
            ),
            MutexCall::Spin { .. } | MutexCall::SlowLook { .. } => Some(
                Action::Word(MutexWord::State, Op::Load(Order::Relaxed)),
            ),
            MutexCall::LockAgain | MutexCall::SlowLock { .. } => Some(
                Action::Word(
                    MutexWord::State,
                    Op::CompareExchange { current: UNLOCKED, new: LOCKED, order: Order::Acquire },
                ),
            ),
            MutexCall::SlowMark { seen, .. } => Some(
                Action::Word(
                    MutexWord::State,
                    Op::CompareExchange {
                        current: seen,
                        new: CONTENDED,
                        order: Order::Relaxed,
                    },
                ),
            ),
            MutexCall::SlowSleep => Some(Action::Wait(MutexWord::State, CONTENDED)),
            MutexCall::Unlock => Some(
                Action::Word(MutexWord::State, Op::Swap(UNLOCKED, Order::Release)),
            ),
            MutexCall::SlowWake | MutexCall::UnlockWake => {
                Some(Action::WakeOne(MutexWord::State))
            },
            MutexCall::Done(_) => None,
        }
    }

    /// Takes the reply to the action and moves on.
    pub fn advance(self, reply: Reply<u32>) -> (next: MutexCall)
        ensures
            next == self.spec_advance(reply),
    {
        match (self, reply) {
            (MutexCall::Lock, Reply::Swapped) => MutexCall::Done(MutexOutcome::Acquired),
            (MutexCall::Lock, _) => MutexCall::Spin { counter: 0 },
            (MutexCall::Spin { counter }, Reply::Value(state)) => {
                if state != UNLOCKED && counter < SPIN_LIMIT - 1 {
                    MutexCall::Spin { counter: counter + 1 }
                } else {
                    MutexCall::LockAgain
                }
            },
            (MutexCall::LockAgain, Reply::Swapped) => MutexCall::Done(MutexOutcome::Acquired),
            (MutexCall::LockAgain, _) => MutexCall::SlowLook { slept: false },
            (MutexCall::SlowLook { slept }, Reply::Value(state)) => {
                if state == UNLOCKED {
                    MutexCall::SlowLock { slept }
                } else if state != CONTENDED {
                    MutexCall::SlowMark { slept, seen: state }
                } else {
                    MutexCall::SlowSleep
                }
            },
            (MutexCall::SlowLock { slept }, Reply::Swapped) => {
                if slept {
                    MutexCall::SlowWake
                } else {
                    MutexCall::Done(MutexOutcome::Acquired)
                }
            },
            (MutexCall::SlowLock { slept }, _) => MutexCall::SlowLook { slept },
            (MutexCall::SlowMark { .. }, Reply::Swapped) => MutexCall::SlowSleep,
            (MutexCall::SlowMark { slept, .. }, _) => MutexCall::SlowLook { slept },
            (MutexCall::SlowSleep, Reply::Done) => MutexCall::SlowLook { slept: true },
            (MutexCall::SlowWake, _) => MutexCall::Done(MutexOutcome::Acquired),
            (MutexCall::TryLock, Reply::Swapped) => MutexCall::Done(MutexOutcome::Acquired),
            (MutexCall::TryLock, _) => MutexCall::Done(MutexOutcome::WouldBlock),
            (MutexCall::Unlock, Reply::Value(state)) => {
                if state == CONTENDED {
                    MutexCall::UnlockWake
                } else {
                    MutexCall::Done(MutexOutcome::Released(Wake::Nobody))
                }
            },
            (MutexCall::UnlockWake, _) => MutexCall::Done(MutexOutcome::Released(Wake::One)),
            (_, _) => self,
        }
    }

    /// The word and the call after all the steps that the call can take alone: it is over then, or
    /// asleep.
    pub open spec fn alone(self, state: u32) -> (u32, MutexCall) {
        match self {
            MutexCall::Lock
            | MutexCall::Spin { .. }
            | MutexCall::LockAgain
            | MutexCall::SlowLook { .. }
            | MutexCall::SlowLock { .. }
            | MutexCall::SlowSleep =>
                if state == UNLOCKED {
                    (LOCKED, MutexCall::Done(MutexOutcome::Acquired))
                } else {
                    (CONTENDED, MutexCall::SlowSleep)
                },
            MutexCall::SlowMark { seen, .. } =>
                if state == UNLOCKED && state != seen {
                    (LOCKED, MutexCall::Done(MutexOutcome::Acquired))
                } else {
                    (CONTENDED, MutexCall::SlowSleep)
                },
            MutexCall::SlowWake => (state, MutexCall::Done(MutexOutcome::Acquired)),
            MutexCall::TryLock =>
                if state == UNLOCKED {
                    (LOCKED, MutexCall::Done(MutexOutcome::Acquired))
                } else {
                    (state, MutexCall::Done(MutexOutcome::WouldBlock))
                },
            MutexCall::Unlock => (
                UNLOCKED,
                MutexCall::Done(
                    MutexOutcome::Released(
                        if state == CONTENDED {
                            Wake::One
                        } else {
                            Wake::Nobody
                        },
                    ),
                ),
            ),
            MutexCall::UnlockWake => (state, MutexCall::Done(MutexOutcome::Released(Wake::One))),
            MutexCall::Done(_) => (state, self),
        }
    }

    /// A bound on the steps that the call can take alone.
    spec fn steps_left(self, state: u32) -> int {
        match self {
            MutexCall::Lock => 200,
            MutexCall::Spin { counter } => if counter < SPIN_LIMIT {
                120 - counter
            } else {
                20
            },
            MutexCall::LockAgain => 10,
            MutexCall::SlowLook { .. } => 8,
            MutexCall::SlowLock { .. } => if state == UNLOCKED {
                2
            } else {
                9
            },
            MutexCall::SlowMark { seen, .. } => if state == seen {
                1
            } else {
                9
            },
            MutexCall::SlowSleep => if state == CONTENDED {
                0
            } else {
                9
            },
            MutexCall::SlowWake => 1,
            MutexCall::TryLock => 1,
            MutexCall::Unlock => 2,
            MutexCall::UnlockWake => 1,
            MutexCall::Done(_) => 0,
        }
    }
}

/// The word of a mutex that one call at a time uses.
#[derive(Clone, Copy, Debug, PartialEq, Eq)]
pub struct MutexWords {
    pub state: u32,
}

impl MutexWords {
    /// The words after an action, and its reply.
    pub open spec fn effect(self, action: Action<MutexWord>) -> (MutexWords, Reply<u32>) {
        match action {
            Action::Word(_, op) => (
                MutexWords { state: op.effect(self.state).0 },
                op.effect(self.state).1,
            ),
            Action::Wait(_, value) => (
                self,
                if self.state == value {
                    Reply::Asleep
                } else {
                    Reply::Done
                },
            ),
            Action::WakeOne(_) | Action::WakeAll(_) => (self, Reply::Done),
        }
    }

    /// Performs an action.
    pub fn perform(&mut self, action: Action<MutexWord>) -> (reply: Reply<u32>)
        ensures
            (*final(self), reply) == old(self).effect(action),
    {
        match action {
            Action::Word(_, op) => op.apply(&mut self.state),
            Action::Wait(_, value) => {
                if self.state == value {
                    Reply::Asleep
                } else {
                    Reply::Done
                }
            },
            Action::WakeOne(_) | Action::WakeAll(_) => Reply::Done,
        }
    }

    /// Lets a call take steps until it is over or asleep.
    pub fn run(&mut self, start: MutexCall) -> (end: MutexCall)
        ensures
            (final(self).state, end) == start.alone(old(self).state),
    {
        let mut call = start;
        loop
            invariant
                call.alone(self.state) == start.alone(old(self).state),
            decreases call.steps_left(self.state),
        {
            match call.action() {
                None => { return call; },
                Some(action) => {
                    let reply = self.perform(action);
                    if matches!(reply, Reply::Asleep) {
                        return call;
                    }
                    call = call.advance(reply);
                },
            }
        }
    }
}

/// The word of a mutex that many threads use at the same time.
#[derive(Debug)]
pub struct RawMutex {
    state: AtomicU32,
}

impl RawMutex {
    /// The atomic is what the standard library's `new` returns for this value. What it holds later
    /// is up to the threads.
    pub closed spec fn made_with(self, words: MutexWords) -> bool {
        call_ensures(AtomicU32::new, (words.state,), self.state)
    }

    /// A mutex that nobody holds.
    pub fn new() -> (raw: RawMutex)
        ensures
            raw.made_with((MutexWords { state: UNLOCKED })),
    {
        RawMutex { state: AtomicU32::new(UNLOCKED) }
    }

    /// The action was performed on the atomic, with this reply.
    pub closed spec fn performed(self, action: Action<MutexWord>, reply: Reply<u32>) -> bool {
        action.performed(self.state, reply)
    }

    /// Takes the next step of a call: performs its action and moves on with the reply. Which reply
    /// comes depends on the other threads; the call moves as the protocol says for that reply.
    pub fn step(&self, call: MutexCall) -> (next: MutexCall)
        ensures
            call.spec_action() is None ==> next == call,
            call.spec_action() matches Some(action) ==> exists|reply: Reply<u32>|
                {
                    &&& #[trigger] self.performed(action, reply)
                    &&& action.fits(reply) && !(reply is Asleep)
                    &&& next == call.spec_advance(reply)
                },
    {
        match call.action() {
            None => call,
            Some(action) => {
                let reply = action.apply_atomic(&self.state);
                assert(self.performed(action, reply));
                call.advance(reply)
            },
        }
    }
}

/// What `lock` and `try_lock` hand out.
pub type LockResult = Result<MutexGuard, LockError<MutexGuard>>;

/// A mutex together with the data that it guards.
///
/// The value is the state that the threads share; every call takes the state of the calling thread,
/// [`HeldLocks`], besides. Calls of different threads follow each other, and a call that has to
/// wait comes back asleep, to be resumed once it is woken.
#[derive(Debug)]
pub struct Mutex<T> {
    mutex_id: u64,
    data: T,
    words: MutexWords,
    poisoned: bool,
}

/// What a mutex is, to those who use it.
pub struct MutexView<T> {
    /// The identity of the mutex.
    pub id: u64,
    /// The guarded data.
    pub data: T,
    /// The state word.
    pub state: u32,
    /// Whether a thread panicked while it held the mutex.
    pub poisoned: bool,
}

impl<T> View for Mutex<T> {
    type V = MutexView<T>;

    closed spec fn view(&self) -> MutexView<T> {
        MutexView {
            id: self.mutex_id,
            data: self.data,
            state: self.words.state,
            poisoned: self.poisoned,
        }
    }
}

impl<T> MutexView<T> {
    /// The mutex after a call that does this.
    pub open spec fn after(self, event: LockEvent<u32, T>) -> MutexView<T> {
        match event {
            LockEvent::Words(words) => MutexView { state: words, ..self },
            LockEvent::Change(data) => MutexView { data, ..self },
            LockEvent::Release { words, panicking } => MutexView {
                state: words,
                poisoned: self.poisoned || panicking,
                ..self
            },
            LockEvent::ClearPoison => MutexView { poisoned: false, ..self },
        }
    }

    /// The mutex after calls that do this, one after the other.
    pub open spec fn after_all(self, events: Seq<LockEvent<u32, T>>) -> MutexView<T>
        decreases events.len(),
    {
        if events.len() == 0 {
            self
        } else {
            self.after_all(events.drop_last()).after(events.last())
        }
    }
}

impl<T> Mutex<T> {
    /// A mutex that nobody holds.
    pub fn new(ids: &mut Identities, data: T) -> (mutex: Mutex<T>)
        ensures
            mutex@ == (MutexView { id: old(ids)@, data, state: UNLOCKED, poisoned: false }),
            final(ids)@ == old(ids)@.wrapping_add(1),
    {
        Mutex {
            mutex_id: ids.fresh(),
            data,
            words: MutexWords { state: UNLOCKED },
            poisoned: false,
        }
    }

    /// Acquires the mutex, or goes to sleep until it is released. A thread that holds the mutex is
    /// refused.
    pub fn lock(&mut self, me: &mut HeldLocks) -> (res: Progress<LockResult, MutexCall>)
        ensures
            Self::asks(*old(self), *final(self), *old(me), *final(me), res),
    {
        if let Err(error) = self.acquired_check(me) {
            return Progress::Finished(Err(error));
        }
        self.continue_lock(MutexCall::Lock, me)
    }

    /// Goes on with a `lock` that was woken. The second result says who has to be woken: if the
    /// thread gets the mutex, the next sleeper, who will note in the word that somebody sleeps.
    pub fn resume(&mut self, call: MutexCall, me: &mut HeldLocks) -> (res: (
        Progress<LockResult, MutexCall>,
        Wake,
    ))
        requires
            call == MutexCall::SlowSleep,
        ensures
            Self::locks(*old(self), *final(self), *old(me), *final(me), res.0),
            res.1 == if old(self)@.state == UNLOCKED {
                Wake::One
            } else {
                Wake::Nobody
            },
    {
        let res = self.continue_lock(call, me);
        let wake = match res {
            Progress::Finished(_) => Wake::One,
            Progress::Pending(_) => Wake::Nobody,
        };
        (res, wake)
    }

    /// What a thread gets of `lock`: it is refused if it holds the mutex already.
    pub open spec fn asks(
        before: Mutex<T>,
        after: Mutex<T>,
        me_before: HeldLocks,
        me_after: HeldLocks,
        res: Progress<LockResult, MutexCall>,
    ) -> bool {
        if me_before@.contains(before@.id) {
            &&& res == Progress::<LockResult, MutexCall>::Finished(Err(LockError::WouldBlock))
            &&& after@ == before@
            &&& me_after@ == me_before@
        } else {
            Self::locks(before, after, me_before, me_after, res)
        }
    }

    /// What a thread gets of `try_lock`: the mutex, unless the thread holds it or it is taken.
    pub open spec fn tries(
        before: Mutex<T>,
        after: Mutex<T>,
        me_before: HeldLocks,
        me_after: HeldLocks,
        res: LockResult,
    ) -> bool {
        if me_before@.contains(before@.id) || before@.state != UNLOCKED {
            &&& res == LockResult::Err(LockError::WouldBlock)
            &&& after@ == before@
            &&& me_after@ == me_before@
        } else {
            &&& mutex_common::grants(res, before@.id, before@.poisoned)
            &&& after@ == before@.after(LockEvent::Words(LOCKED))
            &&& me_after@ == me_before@.insert(before@.id)
        }
    }

    /// What a thread that does not hold the mutex gets of `lock`: the mutex if it is free, and
    /// otherwise a call that sleeps on a word that says so.
    pub open spec fn locks(
        before: Mutex<T>,
        after: Mutex<T>,
        me_before: HeldLocks,
        me_after: HeldLocks,
        res: Progress<LockResult, MutexCall>,
    ) -> bool {
        if before@.state == UNLOCKED {
            &&& after@ == before@.after(LockEvent::Words(LOCKED))
            &&& me_after@ == me_before@.insert(before@.id)
            &&& res matches Progress::Finished(lock) && mutex_common::grants(
                lock,
                before@.id,
                before@.poisoned,
            )
        } else {
            &&& after@ == before@.after(LockEvent::Words(CONTENDED))
            &&& me_after@ == me_before@
            &&& res == Progress::<LockResult, MutexCall>::Pending(MutexCall::SlowSleep)
        }
    }

    /// Takes the steps of a `lock` that can be taken now.
    fn continue_lock(&mut self, call: MutexCall, me: &mut HeldLocks) -> (res: Progress<
        LockResult,
        MutexCall,
    >)
        requires
            call == MutexCall::Lock || call == MutexCall::SlowSleep,
        ensures
            Self::locks(*old(self), *final(self), *old(me), *final(me), res),
    {
        let end = self.words.run(call);
        if let MutexCall::Done(_) = end {
            self.set_acquired(me);
            Progress::Finished(hand_out(MutexGuard { mutex_id: self.mutex_id }, self.poisoned))
        } else {
            Progress::Pending(end)
        }
    }

    /// Acquires the mutex if it is free.
    pub fn try_lock(&mut self, me: &mut HeldLocks) -> (res: LockResult)
        ensures
            Self::tries(*old(self), *final(self), *old(me), *final(me), res),
    {
        if let Err(error) = self.acquired_check(me) {
            return Err(error);
        }
        match self.words.run(MutexCall::TryLock) {
            MutexCall::Done(MutexOutcome::Acquired) => {
                self.set_acquired(me);
                hand_out(MutexGuard { mutex_id: self.mutex_id }, self.poisoned)
            },
            _ => Err(LockError::WouldBlock),
        }
    }

    /// Whether a thread panicked while it held the mutex.
    pub fn is_poisoned(&self) -> (res: bool)
        ensures
            res == self@.poisoned,
    {
        self.poisoned
    }

    /// Forgets that a thread panicked while it held the mutex.
    pub fn clear_poison(&mut self)
        ensures
            final(self)@ == old(self)@.after(LockEvent::ClearPoison),
    {
        self.poisoned = false;
    }

    /// Gives up the mutex for its data.
    pub fn into_inner(self) -> (data: T)
        ensures
            data == self@.data,
    {
        self.data
    }

    /// The data of a mutex that no other thread can reach.
    pub fn get_mut(&mut self) -> (data: &mut T)
        ensures
            *data == old(self)@.data,
            final(self)@ == old(self)@.after(LockEvent::Change(*final(data))),
    {
        &mut self.data
    }

    /// Refuses a thread that holds the mutex.
    fn acquired_check<Guard>(&self, me: &HeldLocks) -> (res: Result<(), LockError<Guard>>)
        ensures
            res == if me@.contains(self@.id) {
                Err::<(), LockError<Guard>>(LockError::WouldBlock)
            } else {
                Ok(())
            },
    {
        if me.contains(self.mutex_id) {
            return Err(LockError::WouldBlock);
        }
        Ok(())
    }

    /// Notes that the thread holds the mutex.
    fn set_acquired(&self, me: &mut HeldLocks)
        ensures
            final(me)@ == old(me)@.insert(self@.id),
    {
        me.insert(self.mutex_id);
    }

    /// Notes that the thread does not hold the mutex.
    fn remove_acquired(&self, me: &mut HeldLocks)
        ensures
            final(me)@ == old(me)@.remove(self@.id),
    {
        me.remove(self.mutex_id);
    }
}

/// The right to the data of a locked mutex.
#[derive(Debug)]
pub struct MutexGuard {
    mutex_id: u64,
}

impl View for MutexGuard {
    type V = u64;

    /// The identity of the mutex that the guard belongs to.
    closed spec fn view(&self) -> u64 {
        self.mutex_id
    }
}

impl MutexGuard {
    /// The data of the mutex.
    pub fn deref<'a, T>(&self, mutex: &'a Mutex<T>) -> (data: &'a T)
        requires
            self@ == mutex@.id,
        ensures
            *data == mutex@.data,
    {
        &mutex.data
    }

    /// The data of the mutex, to be changed.
    pub fn deref_mut<'a, T>(&mut self, mutex: &'a mut Mutex<T>) -> (data: &'a mut T)
        requires
            old(self)@ == old(mutex)@.id,
        ensures
            *data == old(mutex)@.data,
            final(mutex)@ == old(mutex)@.after(LockEvent::Change(*final(data))),
            final(self)@ == old(self)@,
    {
        &mut mutex.data
    }

    /// Releases the mutex, and poisons it if the thread is panicking. The result says who has to be
    /// woken.
    pub fn unlock<T>(self, mutex: &mut Mutex<T>, me: &mut HeldLocks, panicking: bool) -> (wake:
        Wake)
        requires
            self@ == old(mutex)@.id,
        ensures
            final(mutex)@ == old(mutex)@.after(
                LockEvent::Release { words: UNLOCKED, panicking },
            ),
            final(me)@ == old(me)@.remove(self@),
            wake == if old(mutex)@.state == CONTENDED {
                Wake::One
            } else {
                Wake::Nobody
            },
    {
        if panicking {
            mutex.poisoned = true;
        }
        mutex.remove_acquired(me);
        match mutex.words.run(MutexCall::Unlock) {
            MutexCall::Done(MutexOutcome::Released(wake)) => wake,
            _ => Wake::Nobody,
        }
    }
}

/// Once a thread panics while it holds the mutex, the mutex is poisoned until that is cleared, and
/// it is poisoned for no other reason.
pub proof fn law_poison_lasts_until_cleared<T>(
    start: MutexView<T>,
    events: Seq<LockEvent<u32, T>>,
)
    ensures
        start.after_all(events).poisoned == mutex_common::poisoned_after(start.poisoned, events),
    decreases events.len(),
{
    mutex_common::poison_after_one_more(start.poisoned, events);
    if events.len() > 0 {
        law_poison_lasts_until_cleared(start, events.drop_last());
    }
}

/// The data is as it was last changed: it stays through every call that does not change it.
pub proof fn law_data_stays_as_last_changed<T>(
    start: MutexView<T>,
    events: Seq<LockEvent<u32, T>>,
    k: int,
)
    requires
        0 <= k < events.len(),
        events[k] is Change,
        forall|i: int| k < i < events.len() ==> !(#[trigger] events[i] is Change),
    ensures
        start.after_all(events).data == events[k]->Change_0,
    decreases events.len(),
{
    if k < events.len() - 1 {
        assert(events[events.len() - 1] == events.last());
        law_data_stays_as_last_changed(start, events.drop_last(), k);
    }
}

/// Who acquires the mutex and releases it leaves it as it was, and it can be acquired again.
pub proof fn law_release_undoes_acquire<T>(mutex: MutexView<T>)
    requires
        mutex.state == UNLOCKED,
    ensures
        mutex.after(LockEvent::Words(LOCKED)).after(
            LockEvent::Release { words: UNLOCKED, panicking: false },
        ) == mutex,
{
}

/// A `lock` that finds the mutex taken sleeps. The release wakes a thread, and the one that was
/// woken then has the mutex. The next sleeper, whom it wakes in turn, finds the mutex taken, and
/// the word says again that somebody sleeps.
pub proof fn law_release_hands_over(state: u32)
    requires
        state == LOCKED || state == CONTENDED,
    ensures
        MutexCall::Lock.alone(state) == (CONTENDED, MutexCall::SlowSleep),
        MutexCall::Unlock.alone(CONTENDED) == (
            UNLOCKED,
            MutexCall::Done(MutexOutcome::Released(Wake::One)),
        ),
        MutexCall::SlowSleep.alone(UNLOCKED) == (LOCKED, MutexCall::Done(MutexOutcome::Acquired)),
        MutexCall::SlowSleep.alone(LOCKED) == (CONTENDED, MutexCall::SlowSleep),
{
}

/// This mutex and one of the other kind are alike: they have the same identity, data and poison,
/// and both are free or both are taken.
pub open spec fn is_like<T>(one: mutex::MutexView<T>, other: MutexView<T>) -> bool {
    &&& one.id == other.id
    &&& one.data == other.data
    &&& one.poisoned == other.poisoned
    &&& one.words.state == mutex::UNLOCKED <==> other.state == UNLOCKED
}

/// Two results of locking are alike: both hand out the mutex, with or without a warning, or neither
/// does.
pub open spec fn has_like_result(one: mutex::LockResult, other: LockResult) -> bool {
    match (one, other) {
        (Ok(guard), Ok(like)) => guard@ == like@,
        (Err(LockError::Poisoned(lock)), Err(LockError::Poisoned(like))) => {
            lock.guard@ == like.guard@
        },
        (Err(LockError::WouldBlock), Err(LockError::WouldBlock)) => true,
        _ => false,
    }
}

/// This mutex locks as the other kind does: where the two are alike, a `lock` gives like results,
/// or waits on both, and leaves them alike.
pub proof fn law_locks_like_the_other_mutex<T>(
    one: (mutex::Mutex<T>, mutex::Mutex<T>),
    one_me: (HeldLocks, HeldLocks),
    thread: usize,
    one_res: Progress<mutex::LockResult, mutex::MutexCall>,
    other: (Mutex<T>, Mutex<T>),
    other_me: (HeldLocks, HeldLocks),
    other_res: Progress<LockResult, MutexCall>,
)
    requires
        is_like(one.0@, other.0@),
        one_me.0@ == other_me.0@,
        mutex::Mutex::asks(one.0, one.1, one_me.0, one_me.1, thread, one_res),
        Mutex::asks(other.0, other.1, other_me.0, other_me.1, other_res),
    ensures
        is_like(one.1@, other.1@),
        one_me.1@ == other_me.1@,
        match (one_res, other_res) {
            (Progress::Finished(res), Progress::Finished(like)) => has_like_result(res, like),
            (Progress::Pending(_), Progress::Pending(_)) => true,
            _ => false,
        },
{
}

/// This mutex tries to lock as the other kind does: where the two are alike, a `try_lock` gives
/// like results and leaves them alike.
pub proof fn law_tries_like_the_other_mutex<T>(
    one: (mutex::Mutex<T>, mutex::Mutex<T>),
    one_me: (HeldLocks, HeldLocks),
    one_res: mutex::LockResult,
    other: (Mutex<T>, Mutex<T>),
    other_me: (HeldLocks, HeldLocks),
    other_res: LockResult,
)
    requires
        is_like(one.0@, other.0@),
        one_me.0@ == other_me.0@,
        mutex::Mutex::tries(one.0, one.1, one_me.0, one_me.1, one_res),
        Mutex::tries(other.0, other.1, other_me.0, other_me.1, other_res),
    ensures
        is_like(one.1@, other.1@),
        one_me.1@ == other_me.1@,
        has_like_result(one_res, other_res),
{
}

/// This mutex is changed, released and cleared of poison as the other kind is: where the two are
/// alike, they stay so.
pub proof fn law_changes_like_the_other_mutex<T>(
    one: mutex::MutexView<T>,
    freed: mutex::MutexWordsView,
    other: MutexView<T>,
    data: T,
    panicking: bool,
)
    requires
        is_like(one, other),
        freed.state == mutex::UNLOCKED,
    ensures
        is_like(one.after(LockEvent::Change(data)), other.after(LockEvent::Change(data))),
        is_like(
            one.after(LockEvent::Release { words: freed, panicking }),
            other.after(LockEvent::Release { words: UNLOCKED, panicking }),
        ),
        is_like(one.after(LockEvent::ClearPoison), other.after(LockEvent::ClearPoison)),
{
}

impl RawMutex {
    /// The atomic that holds the state.
    pub closed spec fn state_atomic(self) -> AtomicU32 {
        self.state
    }
}

/// The state of a new mutex is that of a free one, and every action is performed on its atomic.
pub proof fn law_state_has_its_atomic(
    made: RawMutex,
    raw: RawMutex,
    action: Action<MutexWord>,
    reply: Reply<u32>,
)
    requires
        call_ensures(RawMutex::new, (), made),
        raw.performed(action, reply),
    ensures
        made.made_with((MutexWords { state: UNLOCKED })),
        call_ensures(AtomicU32::new, (UNLOCKED,), made.state_atomic()),
        action.performed(raw.state_atomic(), reply),
{
}

} // verus!
