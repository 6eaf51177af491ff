//! A spinlock that knows which thread has it.
//!
//! The word is [`UNLOCKED`], or the number of the thread that has the lock. A thread that finds its
//! own number tries to take the lock a second time; that is an error. The protocol of the word is
//! [`SpinCall`]. It runs on an ordinary word, one call at a time, as [`SpinLock`] does, and on an
//! atomic word, step by step, as [`RawSpinLock`] does.

use crate::utils::mutex_common::Progress;
use crate::word::{Op, Order, Reply};
use std::sync::atomic::AtomicUsize;
use vstd::prelude::*;

verus! {

/// Nobody has the lock.
pub const UNLOCKED: usize = 0;

/// How a call ends.
#[derive(Clone, Copy, Debug, PartialEq, Eq)]
pub enum SpinOutcome {
    Acquired,
    /// The thread has the lock already.
    Reentrant,
    Released,
}

/// Where a call stands: the step that it takes next, or how it ended.
#[derive(Clone, Copy, Debug, PartialEq, Eq)]
pub enum SpinCall {
    /// `lock`: look at the word.
    Look { me: usize },
    /// `lock`: take the lock, which was free.
    Take { me: usize },
    /// `unlock`: free the lock.
    Unlock,
    /// The call is over.
    Done(SpinOutcome),
}

impl SpinCall {
    /// The operation of the step; `None` when the call is over.
    pub open spec fn spec_action(self) -> Option<Op<usize>> {
        match self {
            SpinCall::Look { .. } => Some(Op::Load(Order::Relaxed)),
            SpinCall::Take { me } => Some(
                Op::CompareExchangeWeak { current: UNLOCKED, new: me, order: Order::Acquire },
            ),
            SpinCall::Unlock => Some(Op::Store(UNLOCKED, Order::Release)),
            SpinCall::Done(_) => None,
        }
    }

    /// Where the call stands after the reply to its operation. A thread that finds the lock with
    /// another thread, or loses the race for it, looks again.
    pub open spec fn spec_advance(self, reply: Reply<usize>) -> SpinCall {
        match (self, reply) {
            (SpinCall::Look { me }, Reply::Value(state)) => {
                if state == me {
                    SpinCall::Done(SpinOutcome::Reentrant)
                } else if state == UNLOCKED {
                    SpinCall::Take { me }
                } else {
                    SpinCall::Look { me }
                }
            },
            (SpinCall::Take { .. }, Reply::Swapped) => SpinCall::Done(SpinOutcome::Acquired),
            (SpinCall::Take { me }, _) => SpinCall::Look { me },
            (SpinCall::Unlock, _) => SpinCall::Done(SpinOutcome::Released),
            (_, _) => self,
        }
    }

    /// The operation of the step.
    pub fn action(&self) -> (action: Option<Op<usize>>)
        ensures
            action == self.spec_action(),
            action matches Some(op) ==> op.legal(),
    {
        match *self {
            SpinCall::Look { .. } => Some(Op::Load(Order::Relaxed)),
            SpinCall::Take { me } => Some(
                Op::CompareExchangeWeak { current: UNLOCKED, new: me, order: Order::Acquire },
            ),
            SpinCall::Unlock => Some(Op::Store(UNLOCKED, Order::Release)),
            SpinCall::Done(_) => None,
        }
    }

    /// Takes the reply to the operation and moves on.
    pub fn advance(self, reply: Reply<usize>) -> (next: SpinCall)
        ensures
            next == self.spec_advance(reply),
    {
        match (self, reply) {
            (SpinCall::Look { me }, Reply::Value(state)) => {
                if state == me {
                    SpinCall::Done(SpinOutcome::Reentrant)
                } else if state == UNLOCKED {
                    SpinCall::Take { me }
                } else {
                    SpinCall::Look { me }
                }
            },
            (SpinCall::Take { .. }, Reply::Swapped) => SpinCall::Done(SpinOutcome::Acquired),
            (SpinCall::Take { me }, _) => SpinCall::Look { me },
            (SpinCall::Unlock, _) => SpinCall::Done(SpinOutcome::Released),
            (_, _) => self,
        }
    }

    /// The word and the call after all the steps that bring the call on while nobody else takes
    /// any: it is over then, or looks at a lock that another thread has.
    pub open spec fn alone(self, state: usize) -> (usize, SpinCall) {
        match self {
            SpinCall::Look { me } => {
                if state == me {
                    (state, SpinCall::Done(SpinOutcome::Reentrant))
                } else if state == UNLOCKED {
                    (me, SpinCall::Done(SpinOutcome::Acquired))
                } else {
                    (state, self)
                }
            },
            SpinCall::Take { me } => {
                if state == UNLOCKED {
                    (me, SpinCall::Done(SpinOutcome::Acquired))
                } else if state == me {
                    (state, SpinCall::Done(SpinOutcome::Reentrant))
                } else {
                    (state, SpinCall::Look { me })
                }
            },
            SpinCall::Unlock => (UNLOCKED, SpinCall::Done(SpinOutcome::Released)),
            SpinCall::Done(_) => (state, self),
        }
    }

    /// A bound on the steps that bring the call on alone.
    spec fn steps_left(self, state: usize) -> int {
        match self {
            SpinCall::Look { me } => if state == UNLOCKED || state == me {
                4
            } else {
                0
            },
            SpinCall::Take { .. } => if state == UNLOCKED {
                1
            } else {
                5
            },
            SpinCall::Unlock => 1,
            SpinCall::Done(_) => 0,
        }
    }

    /// Lets the call take steps on a word that nothing else touches, until it is over or cannot get
    /// any further.
    pub fn run(self, state: &mut usize) -> (end: SpinCall)
        ensures
            (*final(state), end) == self.alone(*old(state)),
    {
        let mut call = self;
        loop
            invariant
                call.alone(*state) == self.alone(*old(state)),
            decreases call.steps_left(*state),
        {
            match call.action() {
                None => {
                    return call;
                },
                Some(op) => {
                    if let SpinCall::Look { me } = call {
                        if *state != UNLOCKED && *state != me {
                            return call;
                        }
                    }
                    let reply = op.apply(state);
                    call = call.advance(reply);
                },
            }
        }
    }
}

/// Calls `thread_id::get`: a number that is the same for every call from one thread and different
/// for different threads. Which number it is depends on the thread, so nothing is claimed about it.
#[verifier::external_body]
pub(crate) fn current_thread() -> (id: usize) {
    thread_id::get()
}

/// The number is one that the current thread can be told to have.
pub closed spec fn is_current_thread(me: usize) -> bool {
    call_ensures(current_thread, (), me)
}

/// The word of a spinlock that many threads use at the same time.
pub struct RawSpinLock {
    locking_thread: AtomicUsize,
}

impl RawSpinLock {
    /// The atomic is what the standard library's `new` returns for this value. What it holds later
    /// is up to the threads.
    pub closed spec fn made_with(self, locking_thread: usize) -> bool {
        call_ensures(AtomicUsize::new, (locking_thread,), self.locking_thread)
    }

    /// A lock that nobody has.
    pub fn new() -> (raw: RawSpinLock)
        ensures
            raw.made_with(UNLOCKED),
    {
        RawSpinLock { locking_thread: AtomicUsize::new(UNLOCKED) }
    }

    /// The start of a `lock` of the current thread: it looks at the word, with the number that the
    /// thread has.
    pub fn lock(&self) -> (call: SpinCall)
        ensures
            call matches SpinCall::Look { me } && is_current_thread(me),
    {
        SpinCall::Look { me: current_thread() }
    }

    /// The operation was performed on the atomic, with this reply.
    pub closed spec fn performed(self, op: Op<usize>, reply: Reply<usize>) -> bool {
        op.performed(self.locking_thread, reply)
    }

    /// Takes the next step of a call: performs its operation and moves on with the reply. Which
    /// reply comes depends on the other threads; the call moves as the protocol says for that
    /// reply.
    pub fn step(&self, call: SpinCall) -> (next: SpinCall)
        ensures
            call.spec_action() is None ==> next == call,
            call.spec_action() matches Some(op) ==> exists|reply: Reply<usize>|
                {
                    &&& #[trigger] self.performed(op, reply)
                    &&& op.fits(reply)
                    &&& next == call.spec_advance(reply)
                },
    {
        match call.action() {
            None => call,
            Some(op) => {
                let reply = op.apply_atomic(&self.locking_thread);
                assert(self.performed(op, reply));
                call.advance(reply)
            },
        }
    }
}

/// A spinlock together with the data that it guards.
///
/// The value is the state that the threads share. Calls of different threads follow each other, and
/// a call that has to wait comes back pending, to be resumed later.
pub struct SpinLock<T> {
    locking_thread: usize,
    data: T,
}

/// What a spinlock is, to those who use it.
pub struct SpinLockView<T> {
    /// The number of the thread that has the lock, or [`UNLOCKED`].
    pub locking_thread: usize,
    /// The guarded data.
    pub data: T,
}

impl<T> View for SpinLock<T> {
    type V = SpinLockView<T>;

    closed spec fn view(&self) -> SpinLockView<T> {
        SpinLockView { locking_thread: self.locking_thread, data: self.data }
    }
}

/// The right to the data of a locked spinlock.
#[derive(Debug)]
pub struct SpinGuard {
    thread: usize,
}

impl View for SpinGuard {
    type V = usize;

    /// The number of the thread that has the lock.
    closed spec fn view(&self) -> usize {
        self.thread
    }
}

impl<T> SpinLock<T> {
    /// A lock that nobody has.
    pub fn new(data: T) -> (lock: SpinLock<T>)
        ensures
            lock@ == (SpinLockView { locking_thread: UNLOCKED, data }),
    {
        SpinLock { locking_thread: UNLOCKED, data }
    }

    /// What `lock` comes to for the thread with this number: the lock if it is free, and a call
    /// that looks again if another thread has it.
    pub open spec fn locks(
        before: SpinLockView<T>,
        after: SpinLockView<T>,
        me: usize,
        res: Progress<SpinGuard, SpinCall>,
    ) -> bool {
        if before.locking_thread == UNLOCKED {
            &&& after == (SpinLockView { locking_thread: me, ..before })
            &&& res matches Progress::Finished(guard) && guard@ == me
        } else {
            &&& after == before
            &&& res == Progress::<SpinGuard, SpinCall>::Pending(SpinCall::Look { me })
        }
    }

    /// What `lock` comes to for the thread with this number, which may have the lock already.
    pub open spec fn locks_unless_held(
        before: SpinLockView<T>,
        after: SpinLockView<T>,
        me: usize,
        res: Option<Progress<SpinGuard, SpinCall>>,
    ) -> bool {
        match res {
            None => before.locking_thread == me && after == before,
            Some(progress) => before.locking_thread != me && Self::locks(
                before,
                after,
                me,
                progress,
            ),
        }
    }

    /// Acquires the lock for the current thread. A thread must not take the lock a second time:
    /// `None` says that it has the lock already, and the caller has to panic then.
    pub fn lock(&mut self) -> (res: Option<Progress<SpinGuard, SpinCall>>)
        ensures
            exists|me: usize|
                is_current_thread(me) && #[trigger] Self::locks_unless_held(
                    old(self)@,
                    final(self)@,
                    me,
                    res,
                ),
    {
        let me: usize = current_thread();
        self.lock_unless_held(me)
    }

    /// Acquires the lock for the thread with this number. `None` says that this thread has it
    /// already, and the caller has to panic then.
    pub fn lock_unless_held(&mut self, me: usize) -> (res: Option<Progress<SpinGuard, SpinCall>>)
        ensures
            Self::locks_unless_held(old(self)@, final(self)@, me, res),
    {
        if self.locking_thread == me {
            None
        } else {
            Some(self.lock_as(me))
        }
    }

    /// Acquires the lock for the thread with this number, which does not have it.
    pub fn lock_as(&mut self, me: usize) -> (res: Progress<SpinGuard, SpinCall>)
        requires
            old(self)@.locking_thread != me,
        ensures
            Self::locks(old(self)@, final(self)@, me, res),
    {
        let end = SpinCall::Look { me }.run(&mut self.locking_thread);
        match end {
            SpinCall::Done(_) => Progress::Finished(SpinGuard { thread: me }),
            _ => Progress::Pending(end),
        }
    }
}

impl SpinGuard {
    /// The data of the lock.
    pub fn deref<'a, T>(&self, lock: &'a SpinLock<T>) -> (data: &'a T)
        requires
            self@ == lock@.locking_thread,
        ensures
            *data == lock@.data,
    {
        &lock.data
    }

    /// The data of the lock, to be changed.
    pub fn deref_mut<'a, T>(&mut self, lock: &'a mut SpinLock<T>) -> (data: &'a mut T)
        requires
            old(self)@ == old(lock)@.locking_thread,
        ensures
            *data == old(lock)@.data,
            final(lock)@ == (SpinLockView { data: *final(data), ..old(lock)@ }),
            final(self)@ == old(self)@,
    {
        &mut lock.data
    }

    /// Releases the lock.
    pub fn unlock<T>(self, lock: &mut SpinLock<T>)
        requires
            self@ == old(lock)@.locking_thread,
        ensures
            final(lock)@ == (SpinLockView { locking_thread: UNLOCKED, ..old(lock)@ }),
    {
        let _end = SpinCall::Unlock.run(&mut lock.locking_thread);
    }
}

impl RawSpinLock {
    /// The atomic that holds the number of the thread that has the lock.
    pub closed spec fn thread_atomic(self) -> AtomicUsize {
        self.locking_thread
    }
}

/// Nobody has a new lock, and every operation is performed on its atomic.
pub proof fn law_word_has_its_atomic(
    made: RawSpinLock,
    raw: RawSpinLock,
    op: Op<usize>,
    reply: Reply<usize>,
)
    requires
        call_ensures(RawSpinLock::new, (), made),
        raw.performed(op, reply),
    ensures
        made.made_with(UNLOCKED),
        call_ensures(AtomicUsize::new, (UNLOCKED,), made.thread_atomic()),
        op.performed(raw.thread_atomic(), reply),
{
}

} // verus!
