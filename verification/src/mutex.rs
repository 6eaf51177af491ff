//! A mutex whose waiting threads are parked in a queue.
//!
//! A state word says whether the mutex is locked, and a flag whether some thread is at the queue.
//! The protocol is [`MutexCall`]: a thread looks at a locked mutex a number of times, then enters
//! the queue and parks; an unlock takes the first thread out of the queue and unparks it. A park
//! may be over before the thread is taken out of the queue: the thread then keeps its place, and
//! gives it up when it has the mutex. The protocol runs on ordinary words ([`MutexWords`]), one
//! call at a time, as [`Mutex`] does; [`RawMutex`] performs the actions on the word and the flag
//! where they are atomics.

use crate::utils::mutex_common;
use crate::utils::mutex_common::{hand_out, HeldLocks, Identities, LockError, LockEvent, Progress};
use std::collections::VecDeque;
use std::sync::atomic::{AtomicBool, AtomicU8, Ordering};
use vstd::prelude::*;

verus! {

/// Nobody holds the mutex.
pub const UNLOCKED: u8 = 0;

/// Somebody holds the mutex.
pub const LOCKED: u8 = 1;

/// How many times a thread looks at a locked mutex before it enters the queue.
pub const SPIN_LIMIT: u32 = 100;

/// An action of a call.
#[derive(Clone, Copy, Debug, PartialEq, Eq)]
pub enum MutexAction {
    /// Load the state (relaxed).
    LoadState,
    /// Change the state from unlocked to locked (acquire).
    TakeState,
    /// Change the state from unlocked to locked (acquire), or fail for no reason.
    TakeStateWeak,
    /// Set the state to unlocked (release).
    FreeState,
    /// Load the flag of the queue (relaxed).
    LoadFlag,
    /// Raise the flag of the queue if it is down (acquire), or fail for no reason.
    TakeFlag,
    /// Lower the flag of the queue (release).
    FreeFlag,
    /// Add a thread at the end of the queue.
    Push(usize),
    /// Add a thread at the end of the queue unless it is in it.
    Enter(usize),
    /// Take the first thread out of the queue.
    Pop,
    /// Take a thread out of the queue if it is in it.
    Remove(usize),
    /// Park the current thread.
    Park,
    /// Unpark a thread.
    Unpark(usize),
}

/// What an action answers.
#[derive(Clone, Copy, Debug, PartialEq, Eq)]
pub enum MutexReply {
    State(u8),
    Flag(bool),
    /// Whether the state or the flag was changed.
    Taken(bool),
    /// The thread that was first in the queue.
    First(Option<usize>),
    Done,
    /// The thread is parked.
    Asleep,
}

impl MutexAction {
    /// The replies that fit an action, whatever the words hold.
    pub open spec fn fits(self, reply: MutexReply) -> bool {
        match self {
            MutexAction::LoadState => reply is State,
            MutexAction::LoadFlag => reply is Flag,
            MutexAction::TakeState
            | MutexAction::TakeStateWeak
            | MutexAction::TakeFlag => reply is Taken,
            MutexAction::Pop => reply is First,
            MutexAction::Park => reply is Done || reply is Asleep,
            _ => reply is Done,
        }
    }
}

/// How a call ends.
#[derive(Clone, Copy, Debug, PartialEq, Eq)]
pub enum MutexOutcome {
    Acquired,
    WouldBlock,
    /// The mutex is free, and this thread was unparked.
    Released(Option<usize>),
}

/// Where a call stands: the step that it takes next, or how it ended. The calls of `lock` carry the
/// number of the thread, and `again` if the thread has parked, so that it may have a place in the
/// queue.
#[derive(Clone, Copy, Debug, PartialEq, Eq)]
pub enum MutexCall {
    /// `lock`: look at the state, having found it locked `counter` times.
    SpinLook { me: usize, counter: u32, again: bool },
    /// `lock`: look at the flag of the queue.
    SpinPeek { me: usize, counter: u32, again: bool },
    /// `lock`: take the mutex, which was free.
    SpinTake { me: usize, counter: u32, again: bool },
    /// `lock`: see whether a thread is at the queue.
    QueueLook { me: usize, again: bool },
    /// `lock`: go to the queue.
    QueueTake { me: usize, again: bool },
    /// `lock`: look at the state once more. It cannot be freed while this thread is at the queue.
    QueueCheck { me: usize, again: bool },
    /// `lock`: leave the queue as it is, because the mutex is free.
    QueueLeave { me: usize, again: bool },
    /// `lock`: enter the queue, or keep the place in it.
    QueuePush { me: usize, again: bool },
    /// `lock`: leave the queue to others.
    QueueFree { me: usize },
    /// `lock`: park.
    Park { me: usize },
    /// `lock`, with the mutex: see whether a thread is at the queue.
    OwnLook { me: usize },
    /// `lock`, with the mutex: go to the queue.
    OwnTake { me: usize },
    /// `lock`, with the mutex: give up the place in the queue if there is one.
    OwnRemove { me: usize },
    /// `lock`, with the mutex: leave the queue to others.
    OwnFree { me: usize },
    /// `try_lock`: take the mutex if it is free.
    TryLock,
    /// `unlock`: see whether a thread is at the queue.
    DequeueLook,
    /// `unlock`: go to the queue.
    DequeueTake,
    /// `unlock`: take the first thread out of the queue.
    DequeuePop,
    /// `unlock`: free the mutex.
    DequeueUnlock { first: Option<usize> },
    /// `unlock`: leave the queue to others.
    DequeueFree { first: Option<usize> },
    /// `unlock`: unpark the thread that was first.
    Unpark { thread: usize },
    /// The call is over.
    Done(MutexOutcome),
}

impl MutexCall {
    /// The action of the step; `None` when the call is over.
    pub open spec fn spec_action(self) -> Option<MutexAction> {
        match self {
            MutexCall::SpinLook { .. } | MutexCall::QueueCheck { .. } => {
                Some(MutexAction::LoadState)
            },
            MutexCall::SpinPeek { .. }
            | MutexCall::QueueLook { .. }
            | MutexCall::OwnLook { .. }
            | MutexCall::DequeueLook => Some(MutexAction::LoadFlag),
            MutexCall::SpinTake { .. } => Some(MutexAction::TakeStateWeak),
            MutexCall::QueueTake { .. } | MutexCall::OwnTake { .. } | MutexCall::DequeueTake => {
                Some(MutexAction::TakeFlag)
            },
            MutexCall::QueuePush { me, again } => {
                if again {
                    Some(MutexAction::Enter(me))
                } else {
                    Some(MutexAction::Push(me))
                }
            },
            MutexCall::OwnRemove { me } => Some(MutexAction::Remove(me)),
            MutexCall::QueueLeave { .. }
            | MutexCall::QueueFree { .. }
            | MutexCall::OwnFree { .. }
            | MutexCall::DequeueFree { .. } => Some(MutexAction::FreeFlag),
            MutexCall::Park { .. } => Some(MutexAction::Park),
            MutexCall::TryLock => Some(MutexAction::TakeState),
            MutexCall::DequeuePop => Some(MutexAction::Pop),
            MutexCall::DequeueUnlock { .. } => Some(MutexAction::FreeState),
            MutexCall::Unpark { thread } => Some(MutexAction::Unpark(thread)),
            MutexCall::Done(_) => None,
        }
    }

    /// Where the call stands after the reply to its action.
    pub open spec fn spec_advance(self, reply: MutexReply) -> MutexCall {
        match (self, reply) {
            (MutexCall::SpinLook { me, counter, again }, MutexReply::State(state)) => {
                if state == UNLOCKED {
                    MutexCall::SpinPeek { me, counter, again }
                } else if state != LOCKED {
                    MutexCall::SpinLook { me, counter, again }
                } else if counter < SPIN_LIMIT - 1 {
                    MutexCall::SpinLook { me, counter: counter.wrapping_add(1), again }
                } else {
                    MutexCall::QueueLook { me, again }
                }
            },
            (MutexCall::SpinPeek { me, counter, again }, _) => {
                MutexCall::SpinTake { me, counter, again }
            },
            (MutexCall::SpinTake { me, counter, again }, MutexReply::Taken(taken)) => {
                if !taken {
                    MutexCall::SpinLook { me, counter, again }
                } else if again {
                    MutexCall::OwnLook { me }
                } else {
                    MutexCall::Done(MutexOutcome::Acquired)
                }
            },
            (MutexCall::QueueLook { me, again }, MutexReply::Flag(accessed)) => {
                if accessed {
                    MutexCall::QueueLook { me, again }
                } else {
                    MutexCall::QueueTake { me, again }
                }
            },
            (MutexCall::QueueTake { me, again }, MutexReply::Taken(taken)) => {
                if taken {
                    MutexCall::QueueCheck { me, again }
                } else {
                    MutexCall::QueueLook { me, again }
                }
            },
            (MutexCall::QueueCheck { me, again }, MutexReply::State(state)) => {
                if state == UNLOCKED {
                    MutexCall::QueueLeave { me, again }
                } else {
                    MutexCall::QueuePush { me, again }
                }
            },
            (MutexCall::QueueLeave { me, again }, _) => {
                MutexCall::SpinLook { me, counter: 0, again }
            },
            (MutexCall::QueuePush { me, .. }, _) => MutexCall::QueueFree { me },
            (MutexCall::QueueFree { me }, _) => MutexCall::Park { me },
            (MutexCall::Park { me }, MutexReply::Done) => {
                MutexCall::SpinLook { me, counter: 0, again: true }
            },
            (MutexCall::OwnLook { me }, MutexReply::Flag(accessed)) => {
                if accessed {
                    MutexCall::OwnLook { me }
                } else {
                    MutexCall::OwnTake { me }
                }
            },
            (MutexCall::OwnTake { me }, MutexReply::Taken(taken)) => {
                if taken {
                    MutexCall::OwnRemove { me }
                } else {
                    MutexCall::OwnLook { me }
                }
            },
            (MutexCall::OwnRemove { me }, _) => MutexCall::OwnFree { me },
            (MutexCall::OwnFree { .. }, _) => MutexCall::Done(MutexOutcome::Acquired),
            (MutexCall::TryLock, MutexReply::Taken(taken)) => {
                if taken {
                    MutexCall::Done(MutexOutcome::Acquired)
                } else {
                    MutexCall::Done(MutexOutcome::WouldBlock)
                }
            },
            (MutexCall::DequeueLook, MutexReply::Flag(accessed)) => {
                if accessed {
                    MutexCall::DequeueLook
                } else {
                    MutexCall::DequeueTake
                }
            },
            (MutexCall::DequeueTake, MutexReply::Taken(taken)) => {
                if taken {
                    MutexCall::DequeuePop
                } else {
                    MutexCall::DequeueLook
                }
            },
            (MutexCall::DequeuePop, MutexReply::First(first)) => {
                MutexCall::DequeueUnlock { first }
            },
            (MutexCall::DequeueUnlock { first }, _) => MutexCall::DequeueFree { first },
            (MutexCall::DequeueFree { first }, _) => match first {
                Some(thread) => MutexCall::Unpark { thread },
                None => MutexCall::Done(MutexOutcome::Released(None)),
            },
            (MutexCall::Unpark { thread }, _) => {
                MutexCall::Done(MutexOutcome::Released(Some(thread)))
            },
            (_, _) => self,
        }
    }

    /// The action of the step.
    pub fn action(&self) -> (action: Option<MutexAction>)
        ensures
            action == self.spec_action(),
    {
        match *self {
            MutexCall::SpinLook { .. } | MutexCall::QueueCheck { .. } => {
                Some(MutexAction::LoadState)
            },
            MutexCall::SpinPeek { .. }
            | MutexCall::QueueLook { .. }
            | MutexCall::OwnLook { .. }
            | MutexCall::DequeueLook => Some(MutexAction::LoadFlag),
            MutexCall::SpinTake { .. } => Some(MutexAction::TakeStateWeak),
            MutexCall::QueueTake { .. } | MutexCall::OwnTake { .. } | MutexCall::DequeueTake => {
                Some(MutexAction::TakeFlag)
            },
            MutexCall::QueuePush { me, again } => {
                if again {
                    Some(MutexAction::Enter(me))
                } else {
                    Some(MutexAction::Push(me))
                }
            },
            MutexCall::OwnRemove { me } => Some(MutexAction::Remove(me)),
            MutexCall::QueueLeave { .. }
            | MutexCall::QueueFree { .. }
            | MutexCall::OwnFree { .. }
            | MutexCall::DequeueFree { .. } => Some(MutexAction::FreeFlag),
            MutexCall::Park { .. } => Some(MutexAction::Park),
            MutexCall::TryLock => Some(MutexAction::TakeState),
            MutexCall::DequeuePop => Some(MutexAction::Pop),
            MutexCall::DequeueUnlock { .. } => Some(MutexAction::FreeState),
            MutexCall::Unpark { thread } => Some(MutexAction::Unpark(thread)),
            MutexCall::Done(_) => None,
        }
    }

    /// Takes the reply to the action and moves on.
    pub fn advance(self, reply: MutexReply) -> (next: MutexCall)
        ensures
            next == self.spec_advance(reply),
    {
        match (self, reply) {
            (MutexCall::SpinLook { me, counter, again }, MutexReply::State(state)) => {
                if state == UNLOCKED {
                    MutexCall::SpinPeek { me, counter, again }
                } else if state != LOCKED {
                    MutexCall::SpinLook { me, counter, again }
                } else if counter < SPIN_LIMIT - 1 {
                    MutexCall::SpinLook { me, counter: counter.wrapping_add(1), again }
                } else {
                    MutexCall::QueueLook { me, again }
                }
            },
            (MutexCall::SpinPeek { me, counter, again }, _) => {
                MutexCall::SpinTake { me, counter, again }
            },
            (MutexCall::SpinTake { me, counter, again }, MutexReply::Taken(taken)) => {
                if !taken {
                    MutexCall::SpinLook { me, counter, again }
                } else if again {
                    MutexCall::OwnLook { me }
                } else {
                    MutexCall::Done(MutexOutcome::Acquired)
                }
            },
            (MutexCall::QueueLook { me, again }, MutexReply::Flag(accessed)) => {
                if accessed {
                    MutexCall::QueueLook { me, again }
                } else {
                    MutexCall::QueueTake { me, again }
                }
            },
            (MutexCall::QueueTake { me, again }, MutexReply::Taken(taken)) => {
                if taken {
                    MutexCall::QueueCheck { me, again }
                } else {
                    MutexCall::QueueLook { me, again }
                }
            },
            (MutexCall::QueueCheck { me, again }, MutexReply::State(state)) => {
                if state == UNLOCKED {
                    MutexCall::QueueLeave { me, again }
                } else {
                    MutexCall::QueuePush { me, again }
                }
            },
            (MutexCall::QueueLeave { me, again }, _) => {
                MutexCall::SpinLook { me, counter: 0, again }
            },
            (MutexCall::QueuePush { me, .. }, _) => MutexCall::QueueFree { me },
            (MutexCall::QueueFree { me }, _) => MutexCall::Park { me },
            (MutexCall::Park { me }, MutexReply::Done) => {
                MutexCall::SpinLook { me, counter: 0, again: true }
            },
            (MutexCall::OwnLook { me }, MutexReply::Flag(accessed)) => {
                if accessed {
                    MutexCall::OwnLook { me }
                } else {
                    MutexCall::OwnTake { me }
                }
            },
            (MutexCall::OwnTake { me }, MutexReply::Taken(taken)) => {
                if taken {
                    MutexCall::OwnRemove { me }
                } else {
                    MutexCall::OwnLook { me }
                }
            },
            (MutexCall::OwnRemove { me }, _) => MutexCall::OwnFree { me },
            (MutexCall::OwnFree { .. }, _) => MutexCall::Done(MutexOutcome::Acquired),
            (MutexCall::TryLock, MutexReply::Taken(taken)) => {
                if taken {
                    MutexCall::Done(MutexOutcome::Acquired)
                } else {
                    MutexCall::Done(MutexOutcome::WouldBlock)
                }
            },
            (MutexCall::DequeueLook, MutexReply::Flag(accessed)) => {
                if accessed {
                    MutexCall::DequeueLook
                } else {
                    MutexCall::DequeueTake
                }
            },
            (MutexCall::DequeueTake, MutexReply::Taken(taken)) => {
                if taken {
                    MutexCall::DequeuePop
                } else {
                    MutexCall::DequeueLook
                }
            },
            (MutexCall::DequeuePop, MutexReply::First(first)) => {
                MutexCall::DequeueUnlock { first }
            },
            (MutexCall::DequeueUnlock { first }, _) => MutexCall::DequeueFree { first },
            (MutexCall::DequeueFree { first }, _) => match first {
                Some(thread) => MutexCall::Unpark { thread },
                None => MutexCall::Done(MutexOutcome::Released(None)),
            },
            (MutexCall::Unpark { thread }, _) => {
                MutexCall::Done(MutexOutcome::Released(Some(thread)))
            },
            (_, _) => self,
        }
    }

    /// The call can get on alone: nobody else is at the queue, and the state makes sense.
    pub open spec fn is_free_to_run(self, words: MutexWordsView) -> bool {
        match self {
            MutexCall::SpinLook { .. }
            | MutexCall::SpinPeek { .. }
            | MutexCall::SpinTake { .. } => words.at_rest(),
            MutexCall::QueueLeave { .. } => words.state <= LOCKED,
            MutexCall::QueueLook { .. }
            | MutexCall::QueueTake { .. }
            | MutexCall::OwnLook { .. }
            | MutexCall::OwnTake { .. }
            | MutexCall::DequeueLook
            | MutexCall::DequeueTake => !words.queue_is_accessed,
            _ => true,
        }
    }

    /// The words and the call after all the steps that the call can take alone, if it can get on
    /// alone: it is over then, or parked.
    pub open spec fn alone(self, words: MutexWordsView) -> (MutexWordsView, MutexCall) {
        let at_rest = MutexWordsView { queue_is_accessed: false, ..words };
        match self {
            MutexCall::SpinLook { me, again, .. }
            | MutexCall::SpinPeek { me, again, .. }
            | MutexCall::SpinTake { me, again, .. } => words.locks(me, again),
            MutexCall::QueueLook { me, again }
            | MutexCall::QueueTake { me, again }
            | MutexCall::QueueCheck { me, again }
            | MutexCall::QueueLeave { me, again } => at_rest.locks(me, again),
            MutexCall::QueuePush { me, again } => at_rest.queues(me, again),
            MutexCall::QueueFree { me } => (at_rest, MutexCall::Park { me }),
            MutexCall::OwnLook { me } | MutexCall::OwnTake { me } | MutexCall::OwnRemove { me } => (
                at_rest.without(me),
                MutexCall::Done(MutexOutcome::Acquired),
            ),
            MutexCall::OwnFree { .. } => (at_rest, MutexCall::Done(MutexOutcome::Acquired)),
            MutexCall::Park { .. } => (words, self),
            MutexCall::TryLock =>
                if words.state == UNLOCKED {
                    (
                        MutexWordsView { state: LOCKED, ..words },
                        MutexCall::Done(MutexOutcome::Acquired),
                    )
                } else {
                    (words, MutexCall::Done(MutexOutcome::WouldBlock))
                },
            MutexCall::DequeueLook | MutexCall::DequeueTake | MutexCall::DequeuePop => (
                MutexWordsView { state: UNLOCKED, queue: words.rest_of_queue(), ..at_rest },
                MutexCall::Done(MutexOutcome::Released(words.first_in_queue())),
            ),
            MutexCall::DequeueUnlock { first } => (
                MutexWordsView { state: UNLOCKED, ..at_rest },
                MutexCall::Done(MutexOutcome::Released(first)),
            ),
            MutexCall::DequeueFree { first } => (
                at_rest,
                MutexCall::Done(MutexOutcome::Released(first)),
            ),
            MutexCall::Unpark { thread } => (
                words,
                MutexCall::Done(MutexOutcome::Released(Some(thread))),
            ),
            MutexCall::Done(_) => (words, self),
        }
    }

    /// A bound on the steps that the call can take alone.
    spec fn steps_left(self, words: MutexWordsView) -> int {
        match self {
            MutexCall::SpinLook { counter, .. } => if counter < SPIN_LIMIT {
                120 - counter
            } else {
                20
            },
            MutexCall::SpinPeek { .. } => if words.state == UNLOCKED {
                6
            } else {
                220
            },
            MutexCall::SpinTake { .. } => if words.state == UNLOCKED {
                5
            } else {
                210
            },
            MutexCall::QueueLook { .. } => if words.state == UNLOCKED {
                126
            } else {
                6
            },
            MutexCall::QueueTake { .. } => if words.state == UNLOCKED {
                125
            } else {
                5
            },
            MutexCall::QueueCheck { .. } => if words.state == UNLOCKED {
                124
            } else {
                4
            },
            MutexCall::QueueLeave { .. } => 123,
            MutexCall::QueuePush { .. } => 3,
            MutexCall::QueueFree { .. } => 2,
            MutexCall::Park { .. } => 0,
            MutexCall::OwnLook { .. } => 4,
            MutexCall::OwnTake { .. } => 3,
            MutexCall::OwnRemove { .. } => 2,
            MutexCall::OwnFree { .. } => 1,
            MutexCall::TryLock => 1,
            MutexCall::DequeueLook => 6,
            MutexCall::DequeueTake => 5,
            MutexCall::DequeuePop => 4,
            MutexCall::DequeueUnlock { .. } => 3,
            MutexCall::DequeueFree { .. } => 2,
            MutexCall::Unpark { .. } => 1,
            MutexCall::Done(_) => 0,
        }
    }
}

/// The first place of a thread in the queue from place `from` on, or the length of the queue.
pub open spec fn place_in_queue(queue: Seq<usize>, thread: usize, from: nat) -> nat
    decreases queue.len() - from,
{
    if from >= queue.len() {
        queue.len()
    } else if queue[from as int] == thread {
        from
    } else {
        place_in_queue(queue, thread, from + 1)
    }
}

/// What the place of a thread is: the thread stands there, and not before.
pub proof fn place_is_first(queue: Seq<usize>, thread: usize, from: nat)
    requires
        from <= queue.len(),
    ensures
        from <= place_in_queue(queue, thread, from) <= queue.len(),
        place_in_queue(queue, thread, from) < queue.len() ==> queue[place_in_queue(
            queue,
            thread,
            from,
        ) as int] == thread,
        forall|i: int|
            from <= i < place_in_queue(queue, thread, from) ==> #[trigger] queue[i] != thread,
    decreases queue.len() - from,
{
    if from < queue.len() && queue[from as int] != thread {
        place_is_first(queue, thread, from + 1);
    }
}

/// The words and the queue of a mutex that one call at a time uses.
#[derive(Debug)]
pub struct MutexWords {
    state: u8,
    queue_is_accessed: bool,
    queue: VecDeque<usize>,
}

/// The words and the queue of a mutex.
pub struct MutexWordsView {
    pub state: u8,
    pub queue_is_accessed: bool,
    pub queue: Seq<usize>,
}

impl View for MutexWords {
    type V = MutexWordsView;

    closed spec fn view(&self) -> MutexWordsView {
        MutexWordsView {
            state: self.state,
            queue_is_accessed: self.queue_is_accessed,
            queue: self.queue@,
        }
    }
}

impl MutexWordsView {
    /// No call is in the middle of something.
    pub open spec fn at_rest(self) -> bool {
        self.state <= LOCKED && !self.queue_is_accessed
    }

    /// The thread that is first in the queue.
    pub open spec fn first_in_queue(self) -> Option<usize> {
        if self.queue.len() > 0 {
            Some(self.queue[0])
        } else {
            None
        }
    }

    /// The queue without its first thread.
    pub open spec fn rest_of_queue(self) -> Seq<usize> {
        if self.queue.len() > 0 {
            self.queue.drop_first()
        } else {
            self.queue
        }
    }

    /// The queue with a thread taken out, if it is in it.
    pub open spec fn without(self, thread: usize) -> MutexWordsView {
        let i = place_in_queue(self.queue, thread, 0);
        if i < self.queue.len() {
            MutexWordsView { queue: self.queue.remove(i as int), ..self }
        } else {
            self
        }
    }

    /// The queue with a thread at its end, unless the thread is in it.
    pub open spec fn with(self, thread: usize) -> MutexWordsView {
        if place_in_queue(self.queue, thread, 0) < self.queue.len() {
            self
        } else {
            MutexWordsView { queue: self.queue.push(thread), ..self }
        }
    }

    /// A thread enters the queue at its end, or keeps its place if it may have one, and parks.
    pub open spec fn queues(self, me: usize, again: bool) -> (MutexWordsView, MutexCall) {
        (
            if again {
                self.with(me)
            } else {
                MutexWordsView { queue: self.queue.push(me), ..self }
            },
            MutexCall::Park { me },
        )
    }

    /// A thread takes the mutex if it is free, and gives up its place in the queue if it may have
    /// one; otherwise it enters the queue or keeps its place, and parks.
    pub open spec fn locks(self, me: usize, again: bool) -> (MutexWordsView, MutexCall) {
        if self.state == UNLOCKED {
            let taken = MutexWordsView { state: LOCKED, ..self };
            (
                if again {
                    taken.without(me)
                } else {
                    taken
                },
                MutexCall::Done(MutexOutcome::Acquired),
            )
        } else {
            self.queues(me, again)
        }
    }

    /// The words after an action, and its reply.
    pub open spec fn effect(self, action: MutexAction) -> (MutexWordsView, MutexReply) {
        match action {
            MutexAction::LoadState => (self, MutexReply::State(self.state)),
            MutexAction::TakeState | MutexAction::TakeStateWeak =>
                if self.state == UNLOCKED {
                    (MutexWordsView { state: LOCKED, ..self }, MutexReply::Taken(true))
                } else {
                    (self, MutexReply::Taken(false))
                },
            MutexAction::FreeState => (
                MutexWordsView { state: UNLOCKED, ..self },
                MutexReply::Done,
            ),
            MutexAction::LoadFlag => (self, MutexReply::Flag(self.queue_is_accessed)),
            MutexAction::TakeFlag =>
                if self.queue_is_accessed {
                    (self, MutexReply::Taken(false))
                } else {
                    (
                        MutexWordsView { queue_is_accessed: true, ..self },
                        MutexReply::Taken(true),
                    )
                },
            MutexAction::FreeFlag => (
                MutexWordsView { queue_is_accessed: false, ..self },
                MutexReply::Done,
            ),
            MutexAction::Push(thread) => (
                MutexWordsView { queue: self.queue.push(thread), ..self },
                MutexReply::Done,
            ),
            MutexAction::Pop => (
                MutexWordsView { queue: self.rest_of_queue(), ..self },
                MutexReply::First(self.first_in_queue()),
            ),
            MutexAction::Enter(thread) => (self.with(thread), MutexReply::Done),
            MutexAction::Remove(thread) => (self.without(thread), MutexReply::Done),
            MutexAction::Park => (self, MutexReply::Asleep),
            MutexAction::Unpark(_) => (self, MutexReply::Done),
        }
    }
}

impl MutexWords {
    /// The words of a mutex that nobody holds or waits for.
    pub fn new() -> (words: MutexWords)
        ensures
            words@ == (MutexWordsView {
                state: UNLOCKED,
                queue_is_accessed: false,
                queue: Seq::empty(),
            }),
    {
        MutexWords { state: UNLOCKED, queue_is_accessed: false, queue: VecDeque::new() }
    }

    /// Performs an action.
    pub fn perform(&mut self, action: MutexAction) -> (reply: MutexReply)
        ensures
            (final(self)@, reply) == old(self)@.effect(action),
    {
        match action {
            MutexAction::LoadState => MutexReply::State(self.state),
            MutexAction::TakeState | MutexAction::TakeStateWeak => {
                let free: bool = self.state == UNLOCKED;
                if free {
                    self.state = LOCKED;
                }
                MutexReply::Taken(free)
            },
            MutexAction::FreeState => {
                self.state = UNLOCKED;
                MutexReply::Done
            },
            MutexAction::LoadFlag => MutexReply::Flag(self.queue_is_accessed),
            MutexAction::TakeFlag => {
                let free: bool = !self.queue_is_accessed;
                self.queue_is_accessed = true;
                MutexReply::Taken(free)
            },
            MutexAction::FreeFlag => {
                self.queue_is_accessed = false;
                MutexReply::Done
            },
            MutexAction::Push(thread) => {
                self.queue.push_back(thread);
                MutexReply::Done
            },
            MutexAction::Pop => {
                let first = self.queue.pop_front();
                assert(old(self).queue@.len() > 0 ==> self.queue@ == old(self).queue@.drop_first());
                MutexReply::First(first)
            },
            MutexAction::Enter(thread) => {
                let place: usize = self.place(thread);
                if place == self.queue.len() {
                    self.queue.push_back(thread);
                }
                MutexReply::Done
            },
            MutexAction::Remove(thread) => {
                let place: usize = self.place(thread);
                let _removed = self.queue.remove(place);
                MutexReply::Done
            },
            MutexAction::Park => MutexReply::Asleep,
            MutexAction::Unpark(_) => MutexReply::Done,
        }
    }

    /// The first place of a thread in the queue, or the length of the queue.
    fn place(&self, thread: usize) -> (place: usize)
        ensures
            place == place_in_queue(self.queue@, thread, 0),
            place <= self.queue@.len(),
    {
        let mut i: usize = 0;
        while i < self.queue.len() && self.queue[i] != thread
            invariant
                i <= self.queue@.len(),
                place_in_queue(self.queue@, thread, 0) == place_in_queue(
                    self.queue@,
                    thread,
                    i as nat,
                ),
            decreases self.queue@.len() - i,
        {
            i = i + 1;
        }
        i
    }

    /// Lets a call take steps until it is over or parked.
    pub fn run(&mut self, start: MutexCall) -> (end: MutexCall)
        requires
            start.is_free_to_run(old(self)@),
        ensures
            (final(self)@, end) == start.alone(old(self)@),
    {
        let mut call = start;
        loop
            invariant
                call.is_free_to_run(self@),
                call.alone(self@) == start.alone(old(self)@),
            decreases call.steps_left(self@),
        {
            match call.action() {
                None => {
                    return call;
                },
                Some(action) => {
                    let reply = self.perform(action);
                    if matches!(reply, MutexReply::Asleep) {
                        return call;
                    }
                    call = call.advance(reply);
                },
            }
        }
    }
}

/// The state word and the flag of a mutex that many threads use at the same time. The queue, which
/// only the thread that raised the flag may touch, is kept elsewhere.
#[derive(Debug)]
pub struct RawMutex {
    state: AtomicU8,
    queue_is_accessed: AtomicBool,
}

impl RawMutex {
    /// The atomics are what the standard library's `new` returns for these values. What they hold
    /// later is up to the threads.
    pub closed spec fn made_with(self, state: u8, queue_is_accessed: bool) -> bool {
        &&& call_ensures(AtomicU8::new, (state,), self.state)
        &&& call_ensures(AtomicBool::new, (queue_is_accessed,), self.queue_is_accessed)
    }

    /// A mutex that nobody holds.
    pub fn new() -> (raw: RawMutex)
        ensures
            raw.made_with(UNLOCKED, false),
    {
        RawMutex { state: AtomicU8::new(UNLOCKED), queue_is_accessed: AtomicBool::new(false) }
    }

    /// The action was performed on the state word or the flag, with this reply: the call of the
    /// standard library that it stands for was made, and this is what the call returned.
    pub closed spec fn performed(self, action: MutexAction, reply: MutexReply) -> bool {
        match action {
            MutexAction::LoadState => {
                &&& reply matches MutexReply::State(state)
                &&& call_ensures(AtomicU8::load, (&self.state, Ordering::Relaxed), state)
            },
            MutexAction::TakeState => exists|result: Result<u8, u8>|
                {
                    &&& #[trigger] call_ensures(
                        AtomicU8::compare_exchange,
                        (&self.state, UNLOCKED, LOCKED, Ordering::Acquire, Ordering::Relaxed),
                        result,
                    )
                    &&& reply == MutexReply::Taken(result is Ok)
                },
            MutexAction::TakeStateWeak => exists|result: Result<u8, u8>|
                {
                    &&& #[trigger] call_ensures(
                        AtomicU8::compare_exchange_weak,
                        (&self.state, UNLOCKED, LOCKED, Ordering::Acquire, Ordering::Relaxed),
                        result,
                    )
                    &&& reply == MutexReply::Taken(result is Ok)
                },
            MutexAction::FreeState => {
                &&& reply is Done
                &&& call_ensures(AtomicU8::store, (&self.state, UNLOCKED, Ordering::Release), ())
            },
            MutexAction::LoadFlag => {
                &&& reply matches MutexReply::Flag(flag)
                &&& call_ensures(
                    AtomicBool::load,
                    (&self.queue_is_accessed, Ordering::Relaxed),
                    flag,
                )
            },
            MutexAction::TakeFlag => exists|result: Result<bool, bool>|
                {
                    &&& #[trigger] call_ensures(
                        AtomicBool::compare_exchange_weak,
                        (
                            &self.queue_is_accessed,
                            false,
                            true,
                            Ordering::Acquire,
                            Ordering::Relaxed,
                        ),
                        result,
                    )
                    &&& reply == MutexReply::Taken(result is Ok)
                },
            MutexAction::FreeFlag => {
                &&& reply is Done
                &&& call_ensures(
                    AtomicBool::store,
                    (&self.queue_is_accessed, false, Ordering::Release),
                    (),
                )
            },
            MutexAction::Push(_)
            | MutexAction::Enter(_)
            | MutexAction::Pop
            | MutexAction::Remove(_)
            | MutexAction::Park
            | MutexAction::Unpark(_) => false,
        }
    }

    /// Performs an action on the state word or the flag. `None` says that the action is about the
    /// queue or about a thread.
    pub fn perform(&self, action: MutexAction) -> (reply: Option<MutexReply>)
        ensures
            reply is None <==> action is Push || action is Enter || action is Pop
                || action is Remove || action is Park || action is Unpark,
            reply matches Some(rep) ==> self.performed(action, rep) && action.fits(rep),
    {
        match action {
            MutexAction::LoadState => {
                Some(MutexReply::State(self.state.load(Ordering::Relaxed)))
            },
            MutexAction::TakeState => {
                let result = self.state.compare_exchange(
                    UNLOCKED,
                    LOCKED,
                    Ordering::Acquire,
                    Ordering::Relaxed,
                );
                Some(MutexReply::Taken(result.is_ok()))
            },
            MutexAction::TakeStateWeak => {
                let result = self.state.compare_exchange_weak(
                    UNLOCKED,
                    LOCKED,
                    Ordering::Acquire,
                    Ordering::Relaxed,
                );
                Some(MutexReply::Taken(result.is_ok()))
            },
            MutexAction::FreeState => {
                self.state.store(UNLOCKED, Ordering::Release);
                Some(MutexReply::Done)
            },
            MutexAction::LoadFlag => {
                Some(MutexReply::Flag(self.queue_is_accessed.load(Ordering::Relaxed)))
            },
            MutexAction::TakeFlag => {
                let result = self.queue_is_accessed.compare_exchange_weak(
                    false,
                    true,
                    Ordering::Acquire,
                    Ordering::Relaxed,
                );
                Some(MutexReply::Taken(result.is_ok()))
            },
            MutexAction::FreeFlag => {
                self.queue_is_accessed.store(false, Ordering::Release);
                Some(MutexReply::Done)
            },
            MutexAction::Push(_)
            | MutexAction::Enter(_)
            | MutexAction::Pop
            | MutexAction::Remove(_)
            | MutexAction::Park
            | MutexAction::Unpark(_) => None,
        }
    }
}

/// What `lock` and `try_lock` hand out.
pub type LockResult = Result<MutexGuard, LockError<MutexGuard>>;

/// A mutex together with the data that it guards.
///
/// The value is the state that the threads share; every call takes the state of the calling thread,
/// [`HeldLocks`], besides. Calls of different threads follow each other, and a call that has to
/// wait comes back asleep, to be resumed once it is woken.
#[derive(Debug)]
pub struct Mutex<T> {
    mutex_id: u64,
    data: T,
    words: MutexWords,
    poisoned: bool,
}

/// What a mutex is, to those who use it.
pub struct MutexView<T> {
    /// The identity of the mutex.
    pub id: u64,
    /// The guarded data.
    pub data: T,
    /// The words and the queue.
    pub words: MutexWordsView,
    /// Whether a thread panicked while it held the mutex.
    pub poisoned: bool,
}

impl<T> View for Mutex<T> {
    type V = MutexView<T>;

    closed spec fn view(&self) -> MutexView<T> {
        MutexView {
            id: self.mutex_id,
            data: self.data,
            words: self.words@,
            poisoned: self.poisoned,
        }
    }
}

impl<T> MutexView<T> {
    /// The mutex after a call that does this.
    pub open spec fn after(self, event: LockEvent<MutexWordsView, T>) -> MutexView<T> {
        match event {
            LockEvent::Words(words) => MutexView { words: words, ..self },
            LockEvent::Change(data) => MutexView { data, ..self },
            LockEvent::Release { words, panicking } => MutexView {
                words: words,
                poisoned: self.poisoned || panicking,
                ..self
            },
            LockEvent::ClearPoison => MutexView { poisoned: false, ..self },
        }
    }

    /// The mutex after calls that do this, one after the other.
    pub open spec fn after_all(self, events: Seq<LockEvent<MutexWordsView, T>>) -> MutexView<T>
        decreases events.len(),
    {
        if events.len() == 0 {
            self
        } else {
            self.after_all(events.drop_last()).after(events.last())
        }
    }
}

impl<T> Mutex<T> {
    /// A mutex that nobody holds.
    pub fn new(ids: &mut Identities, data: T) -> (mutex: Mutex<T>)
        ensures
            mutex@ == (MutexView {
                id: old(ids)@,
                data,
                words: MutexWordsView {
                    state: UNLOCKED,
                    queue_is_accessed: false,
                    queue: Seq::empty(),
                },
                poisoned: false,
            }),
            final(ids)@ == old(ids)@.wrapping_add(1),
    {
        Mutex {
            mutex_id: ids.fresh(),
            data,
            words: MutexWords::new(),
            poisoned: false,
        }
    }

    /// Acquires the mutex for the thread with this number, or enters the queue and parks until the
    /// mutex is released. A thread that holds the mutex is refused.
    pub fn lock(&mut self, me: &mut HeldLocks, thread: usize) -> (res: Progress<
        LockResult,
        MutexCall,
    >)
        requires
            old(self)@.words.at_rest(),
        ensures
            final(self)@.words.at_rest(),
            Self::asks(*old(self), *final(self), *old(me), *final(me), thread, res),
    {
        if let Err(error) = self.acquired_check(me) {
            return Progress::Finished(Err(error));
        }
        self.continue_lock(MutexCall::SpinLook { me: thread, counter: 0, again: false }, me)
    }

    /// Goes on with a `lock` that was parked.
    pub fn resume(&mut self, call: MutexCall, me: &mut HeldLocks) -> (res: Progress<
        LockResult,
        MutexCall,
    >)
        requires
            old(self)@.words.at_rest(),
            call is Park,
        ensures
            final(self)@.words.at_rest(),
            Self::locks(*old(self), *final(self), *old(me), *final(me), call->Park_me, true, res),
    {
        self.continue_lock(call.advance(MutexReply::Done), me)
    }

    /// What a thread gets of `lock`: it is refused if it holds the mutex already.
    pub open spec fn asks(
        before: Mutex<T>,
        after: Mutex<T>,
        me_before: HeldLocks,
        me_after: HeldLocks,
        thread: usize,
        res: Progress<LockResult, MutexCall>,
    ) -> bool {
        if me_before@.contains(before@.id) {
            &&& res == Progress::<LockResult, MutexCall>::Finished(Err(LockError::WouldBlock))
            &&& after@ == before@
            &&& me_after@ == me_before@
        } else {
            Self::locks(before, after, me_before, me_after, thread, false, res)
        }
    }

    /// What a thread gets of `try_lock`: the mutex, unless the thread holds it or it is taken.
    pub open spec fn tries(
        before: Mutex<T>,
        after: Mutex<T>,
        me_before: HeldLocks,
        me_after: HeldLocks,
        res: LockResult,
    ) -> bool {
        if me_before@.contains(before@.id) || before@.words.state != UNLOCKED {
            &&& res == LockResult::Err(LockError::WouldBlock)
            &&& after@ == before@
            &&& me_after@ == me_before@
        } else {
            &&& mutex_common::grants(res, before@.id, before@.poisoned)
            &&& after@ == before@.after(LockEvent::Words(MutexWordsView { state: LOCKED, ..before@.words }))
            &&& me_after@ == me_before@.insert(before@.id)
        }
    }

    /// What a thread that does not hold the mutex gets of `lock`: the mutex if it is free, and
    /// otherwise a place at the end of the queue. A thread that has parked keeps the place that it
    /// has in the queue until it has the mutex.
    pub open spec fn locks(
        before: Mutex<T>,
        after: Mutex<T>,
        me_before: HeldLocks,
        me_after: HeldLocks,
        thread: usize,
        again: bool,
        res: Progress<LockResult, MutexCall>,
    ) -> bool {
        let (words, end) = before@.words.locks(thread, again);
        &&& after@ == before@.after(LockEvent::Words(words))
        &&& if before@.words.state == UNLOCKED {
            &&& me_after@ == me_before@.insert(before@.id)
            &&& res matches Progress::Finished(lock) && mutex_common::grants(
                lock,
                before@.id,
                before@.poisoned,
            )
        } else {
            &&& me_after@ == me_before@
            &&& res == Progress::<LockResult, MutexCall>::Pending(end)
        }
    }

    /// Takes the steps of a `lock` that can be taken now.
    fn continue_lock(&mut self, call: MutexCall, me: &mut HeldLocks) -> (res: Progress<
        LockResult,
        MutexCall,
    >)
        requires
            old(self)@.words.at_rest(),
            call is SpinLook,
        ensures
            final(self)@.words.at_rest(),
            Self::locks(
                *old(self),
                *final(self),
                *old(me),
                *final(me),
                call->SpinLook_me,
                call->SpinLook_again,
                res,
            ),
    {
        let end = self.words.run(call);
        if let MutexCall::Done(_) = end {
            self.set_acquired(me);
            Progress::Finished(hand_out(MutexGuard { mutex_id: self.mutex_id }, self.poisoned))
        } else {
            Progress::Pending(end)
        }
    }

    /// Acquires the mutex if it is free.
    pub fn try_lock(&mut self, me: &mut HeldLocks) -> (res: LockResult)
        ensures
            Self::tries(*old(self), *final(self), *old(me), *final(me), res),
    {
        if let Err(error) = self.acquired_check(me) {
            return Err(error);
        }
        match self.words.run(MutexCall::TryLock) {
            MutexCall::Done(MutexOutcome::Acquired) => {
                self.set_acquired(me);
                hand_out(MutexGuard { mutex_id: self.mutex_id }, self.poisoned)
            },
            _ => Err(LockError::WouldBlock),
        }
    }

    /// Whether a thread panicked while it held the mutex.
    pub fn is_poisoned(&self) -> (res: bool)
        ensures
            res == self@.poisoned,
    {
        self.poisoned
    }

    /// Forgets that a thread panicked while it held the mutex.
    pub fn clear_poison(&mut self)
        ensures
            final(self)@ == old(self)@.after(LockEvent::ClearPoison),
    {
        self.poisoned = false;
    }

    /// Gives up the mutex for its data.
    pub fn into_inner(self) -> (data: T)
        ensures
            data == self@.data,
    {
        self.data
    }

    /// The data of a mutex that no other thread can reach.
    pub fn get_mut(&mut self) -> (data: &mut T)
        ensures
            *data == old(self)@.data,
            final(self)@ == old(self)@.after(LockEvent::Change(*final(data))),
    {
        &mut self.data
    }

    /// Refuses a thread that holds the mutex.
    fn acquired_check<Guard>(&self, me: &HeldLocks) -> (res: Result<(), LockError<Guard>>)
        ensures
            res == if me@.contains(self@.id) {
                Err::<(), LockError<Guard>>(LockError::WouldBlock)
            } else {
                Ok(())
            },
    {
        if me.contains(self.mutex_id) {
            return Err(LockError::WouldBlock);
        }
        Ok(())
    }

    /// Notes that the thread holds the mutex.
    fn set_acquired(&self, me: &mut HeldLocks)
        ensures
            final(me)@ == old(me)@.insert(self@.id),
    {
        me.insert(self.mutex_id);
    }

    /// Notes that the thread does not hold the mutex.
    fn remove_acquired(&self, me: &mut HeldLocks)
        ensures
            final(me)@ == old(me)@.remove(self@.id),
    {
        me.remove(self.mutex_id);
    }
}

/// The right to the data of a locked mutex.
#[derive(Debug)]
pub struct MutexGuard {
    mutex_id: u64,
}

impl View for MutexGuard {
    type V = u64;

    /// The identity of the mutex that the guard belongs to.
    closed spec fn view(&self) -> u64 {
        self.mutex_id
    }
}

impl MutexGuard {
    /// The data of the mutex.
    pub fn deref<'a, T>(&self, mutex: &'a Mutex<T>) -> (data: &'a T)
        requires
            self@ == mutex@.id,
        ensures
            *data == mutex@.data,
    {
        &mutex.data
    }

    /// The data of the mutex, to be changed.
    pub fn deref_mut<'a, T>(&mut self, mutex: &'a mut Mutex<T>) -> (data: &'a mut T)
        requires
            old(self)@ == old(mutex)@.id,
        ensures
            *data == old(mutex)@.data,
            final(mutex)@ == old(mutex)@.after(LockEvent::Change(*final(data))),
            final(self)@ == old(self)@,
    {
        &mut mutex.data
    }

    /// Releases the mutex, and poisons it if the thread is panicking. The result is the thread that
    /// was first in the queue, and has to be unparked.
    pub fn unlock<T>(self, mutex: &mut Mutex<T>, me: &mut HeldLocks, panicking: bool) -> (first:
        Option<usize>)
        requires
            self@ == old(mutex)@.id,
            old(mutex)@.words.at_rest(),
        ensures
            final(mutex)@.words.at_rest(),
            final(mutex)@ == old(mutex)@.after(
                LockEvent::Release {
                    words: MutexWordsView {
                        state: UNLOCKED,
                        queue: old(mutex)@.words.rest_of_queue(),
                        ..old(mutex)@.words
                    },
                    panicking,
                },
            ),
            final(me)@ == old(me)@.remove(self@),
            first == old(mutex)@.words.first_in_queue(),
    {
        if panicking {
            mutex.poisoned = true;
        }
        mutex.remove_acquired(me);
        match mutex.words.run(MutexCall::DequeueLook) {
            MutexCall::Done(MutexOutcome::Released(first)) => first,
            _ => None,
        }
    }
}

/// Once a thread panics while it holds the mutex, the mutex is poisoned until that is cleared, and
/// it is poisoned for no other reason.
pub proof fn law_poison_lasts_until_cleared<T>(
    start: MutexView<T>,
    events: Seq<LockEvent<MutexWordsView, T>>,
)
    ensures
        start.after_all(events).poisoned == mutex_common::poisoned_after(start.poisoned, events),
    decreases events.len(),
{
    mutex_common::poison_after_one_more(start.poisoned, events);
    if events.len() > 0 {
        law_poison_lasts_until_cleared(start, events.drop_last());
    }
}

/// The data is as it was last changed: it stays through every call that does not change it.
pub proof fn law_data_stays_as_last_changed<T>(
    start: MutexView<T>,
    events: Seq<LockEvent<MutexWordsView, T>>,
    k: int,
)
    requires
        0 <= k < events.len(),
        events[k] is Change,
        forall|i: int| k < i < events.len() ==> !(#[trigger] events[i] is Change),
    ensures
        start.after_all(events).data == events[k]->Change_0,
    decreases events.len(),
{
    if k < events.len() - 1 {
        assert(events[events.len() - 1] == events.last());
        law_data_stays_as_last_changed(start, events.drop_last(), k);
    }
}

/// What becomes of a mutex when it is released, and the thread that is unparked gets it before any
/// other thread asks for it.
pub open spec fn handed_over(words: MutexWordsView) -> MutexWordsView {
    let freed = MutexCall::DequeueLook.alone(words).0;
    match words.first_in_queue() {
        Some(thread) => freed.locks(thread, true).0,
        None => freed,
    }
}

/// What becomes of a mutex when it is handed over this many times.
pub open spec fn handed_over_times(words: MutexWordsView, times: nat) -> MutexWordsView
    decreases times,
{
    if times == 0 {
        words
    } else {
        handed_over(handed_over_times(words, (times - 1) as nat))
    }
}

/// What becomes of a taken mutex when threads ask for it, one after the other.
pub open spec fn asked_by(words: MutexWordsView, threads: Seq<usize>) -> MutexWordsView
    decreases threads.len(),
{
    if threads.len() == 0 {
        words
    } else {
        asked_by(words, threads.drop_last()).locks(threads.last(), false).0
    }
}

/// Threads that ask for a taken mutex stand in the queue in the order in which they ask.
pub proof fn law_queue_is_in_order_of_asking(words: MutexWordsView, threads: Seq<usize>)
    requires
        words.state == LOCKED,
    ensures
        asked_by(words, threads) == (MutexWordsView { queue: words.queue + threads, ..words }),
    decreases threads.len(),
{
    if threads.len() == 0 {
        assert(words.queue + threads =~= words.queue);
    } else {
        law_queue_is_in_order_of_asking(words, threads.drop_last());
        assert((words.queue + threads.drop_last()).push(threads.last()) =~= words.queue + threads);
    }
}

/// First come, first served: the mutex is granted in the order of the queue, which is that of
/// asking. After each release the thread that has waited longest is unparked, and gets the mutex.
/// Another thread can get it first only by asking between the release and the unparked thread's
/// taking it.
pub proof fn law_first_come_first_served(words: MutexWordsView, times: nat)
    requires
        words.at_rest(),
        words.state == LOCKED,
        words.queue.no_duplicates(),
        times < words.queue.len(),
    ensures
        ({
            let before = handed_over_times(words, times);
            &&& before.state == LOCKED
            &&& before.queue == words.queue.skip(times as int)
            &&& MutexCall::DequeueLook.alone(before).1 == MutexCall::Done(
                MutexOutcome::Released(Some(words.queue[times as int])),
            )
            &&& MutexCall::DequeueLook.alone(before).0.locks(words.queue[times as int], true) == (
                MutexWordsView { queue: words.queue.skip((times + 1) as int), ..words },
                MutexCall::Done(MutexOutcome::Acquired),
            )
        }),
    decreases times,
{
    let before = handed_over_times(words, times);
    if times == 0 {
        assert(words.queue.skip(0) =~= words.queue);
    } else {
        law_first_come_first_served(words, (times - 1) as nat);
        let earlier = handed_over_times(words, (times - 1) as nat);
        assert(earlier.queue[0] == words.queue[times - 1]);
    }
    let rest = words.queue.skip((times + 1) as int);
    assert(before.rest_of_queue() =~= rest);
    place_is_first(rest, words.queue[times as int], 0);
}

impl RawMutex {
    /// The atomic that holds the state.
    pub closed spec fn state_atomic(self) -> AtomicU8 {
        self.state
    }

    /// The atomic that holds the flag of the queue.
    pub closed spec fn flag_atomic(self) -> AtomicBool {
        self.queue_is_accessed
    }
}

/// On the atomics, the state and the flag start as those of a free mutex. They are taken only from
/// unlocked to locked, and from down to up, with acquiring operations, and freed with releasing
/// ones; so what is done under the mutex, or at the queue, is seen by the thread that comes next.
pub proof fn law_atomics_order_memory(
    made: RawMutex,
    raw: RawMutex,
    action: MutexAction,
    reply: MutexReply,
)
    requires
        call_ensures(RawMutex::new, (), made),
        call_ensures(RawMutex::perform, (&raw, action), Some(reply)),
    ensures
        call_ensures(AtomicU8::new, (UNLOCKED,), made.state_atomic()),
        call_ensures(AtomicBool::new, (false,), made.flag_atomic()),
        action is LoadState ==> call_ensures(
            AtomicU8::load,
            (&raw.state_atomic(), Ordering::Relaxed),
            reply->State_0,
        ),
        action is LoadFlag ==> call_ensures(
            AtomicBool::load,
            (&raw.flag_atomic(), Ordering::Relaxed),
            reply->Flag_0,
        ),
        action is TakeState ==> exists|result: Result<u8, u8>|
            {
                &&& #[trigger] call_ensures(
                    AtomicU8::compare_exchange,
                    (&raw.state_atomic(), UNLOCKED, LOCKED, Ordering::Acquire, Ordering::Relaxed),
                    result,
                )
                &&& reply == MutexReply::Taken(result is Ok)
            },
        action is TakeStateWeak ==> exists|result: Result<u8, u8>|
            {
                &&& #[trigger] call_ensures(
                    AtomicU8::compare_exchange_weak,
                    (&raw.state_atomic(), UNLOCKED, LOCKED, Ordering::Acquire, Ordering::Relaxed),
                    result,
                )
                &&& reply == MutexReply::Taken(result is Ok)
            },
        action is TakeFlag ==> exists|result: Result<bool, bool>|
            {
                &&& #[trigger] call_ensures(
                    AtomicBool::compare_exchange_weak,
                    (&raw.flag_atomic(), false, true, Ordering::Acquire, Ordering::Relaxed),
                    result,
                )
                &&& reply == MutexReply::Taken(result is Ok)
            },
        action is FreeState ==> call_ensures(
            AtomicU8::store,
            (&raw.state_atomic(), UNLOCKED, Ordering::Release),
            (),
        ),
        action is FreeFlag ==> call_ensures(
            AtomicBool::store,
            (&raw.flag_atomic(), false, Ordering::Release),
            (),
        ),
{
}

} // verus!
