//! A read-write lock that prefers writers.
//!
//! The state word counts the readers in steps of two; its lowest bit is set while a writer waits,
//! and keeps further readers out. [`WRITE_LOCKED`] says that a writer has the lock. Readers sleep
//! on the state word and writers on a second word, which counts the releases of writers; a third
//! word counts the writers that wait. The protocol of the words is [`RwCall`]. It runs on ordinary
//! words ([`RwWords`]), one call at a time, as [`RwLock`] does, and on atomic words, step by step,
//! as [`RawRwLock`] does.

use crate::utils::mutex_common;
use crate::utils::mutex_common::{HeldLocks, Identities, LockEvent, Progress};
use crate::word::{Action, Op, Order, Reply};
use std::sync::atomic::AtomicU32;
use vstd::prelude::*;

verus! {

/// The state word while a writer has the lock.
pub const WRITE_LOCKED: u32 = 0xffff_ffff;

/// The state word when there is no room for another reader.
pub const MOST_READERS: u32 = 0xffff_fffe;

/// The words of the lock.
#[derive(Clone, Copy, Debug, PartialEq, Eq)]
pub enum RwWord {
    State,
    WritersNumber,
    WaitingWriters,
}

/// Who has to be woken after the lock was released.
#[derive(Clone, Copy, Debug, PartialEq, Eq)]
pub enum RwWake {
    Nobody,
    OneWriter,
    AllReaders,
}

/// How a call ends.
#[derive(Clone, Copy, Debug, PartialEq, Eq)]
pub enum RwOutcome {
    Reading,
    Writing,
    WouldBlock,
    TooManyReaders,
    Released(RwWake),
}

/// Where a call stands: the step that it takes next, or how it ended.
#[derive(Clone, Copy, Debug, PartialEq, Eq)]
pub enum RwCall {
    /// `read`: look at the state.
    ReadLook,
    /// `read`: sleep while a writer waits.
    ReadSleep { state: u32 },
    /// `read`: count one more reader.
    ReadTake { state: u32 },
    /// `read`: sleep while a writer has the lock.
    ReadAwaitWriter,
    /// `write`: look at the state.
    WriteLook,
    /// `write`: take the lock, which was free.
    WriteTake { state: u32 },
    /// `write`: note that a writer waits.
    WriteMark { state: u32 },
    /// `write`: count one more writer that waits.
    WriteEnter,
    /// `write`: look at the number of releases of writers.
    WriteCount,
    /// `write`: see whether the state still says that a writer waits or has the lock.
    WriteCheck { count: u32 },
    /// `write`: sleep until a release wakes the writer.
    WriteSleep { count: u32 },
    /// `write`: count one writer less that waits.
    WriteLeave,
    /// `try_write`: look at the state.
    TryWriteLook,
    /// `try_write`: take the lock, which was free.
    TryWriteTake { state: u32 },
    /// `try_read`: look at the state.
    TryReadLook,
    /// `try_read`: count one more reader.
    TryReadTake { state: u32 },
    /// Read unlock: count one reader less.
    ReadUnlock,
    /// Read unlock: wake the writer that waits for the last reader.
    ReadUnlockWake,
    /// Write unlock: free the lock.
    WriteUnlock,
    /// Write unlock: count one more release.
    WriteUnlockCount,
    /// Write unlock: see whether writers wait.
    WriteUnlockLook,
    /// Write unlock: wake a writer.
    WriteUnlockWakeWriter,
    /// Write unlock: wake the readers.
    WriteUnlockWakeReaders,
    /// The call is over.
    Done(RwOutcome),
}

impl RwCall {
    /// What `read` does with a state that it saw.
    pub open spec fn spec_reader(state: u32) -> RwCall {
        if state == WRITE_LOCKED {
            RwCall::ReadAwaitWriter
        } else if state == MOST_READERS {
            RwCall::Done(RwOutcome::TooManyReaders)
        } else if state % 2 == 1 {
            RwCall::ReadSleep { state }
        } else {
            RwCall::ReadTake { state }
        }
    }

    /// What `write` does with a state that it saw.
    pub open spec fn spec_writer(state: u32) -> RwCall {
        if state <= 1 {
            RwCall::WriteTake { state }
        } else if state % 2 == 0 {
            RwCall::WriteMark { state }
        } else {
            RwCall::WriteEnter
        }
    }

    /// The action of the step; `None` when the call is over.
    pub open spec fn spec_action(self) -> Option<Action<RwWord>> {
        match self {
            RwCall::ReadLook | RwCall::WriteLook | RwCall::WriteCheck { .. } | RwCall::TryReadLook
            | RwCall::TryWriteLook => Some(Action::Word(RwWord::State, Op::Load(Order::Relaxed))),
            RwCall::ReadSleep { state } => Some(Action::Wait(RwWord::State, state)),
            RwCall::ReadAwaitWriter => Some(Action::Wait(RwWord::State, WRITE_LOCKED)),
            RwCall::ReadTake { state } => Some(
                Action::Word(
                    RwWord::State,
                    Op::CompareExchangeWeak {
                        current: state,
                        new: state.wrapping_add(2),
                        order: Order::Acquire,
                    },
                ),
            ),
            RwCall::TryReadTake { state } => Some(
                Action::Word(
                    RwWord::State,
                    Op::CompareExchange {
                        current: state,
                        new: state.wrapping_add(2),
                        order: Order::Acquire,
                    },
                ),
            ),
            RwCall::WriteTake { state } | RwCall::TryWriteTake { state } => Some(
                Action::Word(
                    RwWord::State,
                    Op::CompareExchange {
                        current: state,
                        new: WRITE_LOCKED,
                        order: Order::Acquire,
                    },
                ),
            ),
            RwCall::WriteMark { state } => Some(
                Action::Word(
                    RwWord::State,
                    Op::CompareExchange {
                        current: state,
                        new: state.wrapping_add(1),
                        order: Order::Relaxed,
                    },
                ),
            ),
            RwCall::WriteEnter => Some(
                Action::Word(RwWord::WaitingWriters, Op::FetchAdd(1, Order::AcqRel)),
            ),
            RwCall::WriteCount => Some(
                Action::Word(RwWord::WritersNumber, Op::Load(Order::Acquire)),
            ),
            RwCall::WriteSleep { count } => Some(Action::Wait(RwWord::WritersNumber, count)),
            RwCall::WriteLeave => Some(
                Action::Word(RwWord::WaitingWriters, Op::FetchSub(1, Order::AcqRel)),
            ),
            RwCall::ReadUnlock => Some(
                Action::Word(RwWord::State, Op::FetchSub(2, Order::Release)),
            ),
            RwCall::ReadUnlockWake | RwCall::WriteUnlockWakeWriter => Some(
                Action::WakeOne(RwWord::WritersNumber),
            ),
            RwCall::WriteUnlock => Some(
                Action::Word(RwWord::State, Op::Store(0, Order::Release)),
            ),
            RwCall::WriteUnlockCount => Some(
                Action::Word(RwWord::WritersNumber, Op::FetchAdd(1, Order::Release)),
            ),
            RwCall::WriteUnlockLook => Some(
                Action::Word(RwWord::WaitingWriters, Op::Load(Order::Acquire)),
            ),
            RwCall::WriteUnlockWakeReaders => Some(Action::WakeAll(RwWord::State)),
            RwCall::Done(_) => None,
        }
    }

    /// Where the call stands after the reply to its action.
    pub open spec fn spec_advance(self, reply: Reply<u32>) -> RwCall {
        match (self, reply) {
            (RwCall::ReadLook, Reply::Value(state)) => RwCall::spec_reader(state),
            (RwCall::ReadSleep { .. }, Reply::Done) => RwCall::ReadLook,
            (RwCall::ReadTake { .. }, Reply::Swapped) => RwCall::Done(RwOutcome::Reading),
            (RwCall::ReadTake { .. }, Reply::Changed(state)) => RwCall::spec_reader(state),
            (RwCall::ReadAwaitWriter, Reply::Done) => RwCall::ReadLook,
            (RwCall::WriteLook, Reply::Value(state)) => RwCall::spec_writer(state),
            (RwCall::WriteTake { .. }, Reply::Swapped) => RwCall::Done(RwOutcome::Writing),
            (RwCall::WriteTake { .. }, Reply::Changed(state)) => RwCall::spec_writer(state),
            (RwCall::WriteMark { .. }, Reply::Swapped) => RwCall::WriteEnter,
            (RwCall::WriteMark { .. }, Reply::Changed(state)) => RwCall::spec_writer(state),
            (RwCall::WriteEnter, _) => RwCall::WriteCount,
            (RwCall::WriteCount, Reply::Value(count)) => RwCall::WriteCheck { count },
            (RwCall::WriteCheck { count }, Reply::Value(state)) => {
                if state > 1 && state % 2 == 1 {
                    RwCall::WriteSleep { count }
                } else {
                    RwCall::WriteLeave
                }
            },
            (RwCall::WriteSleep { .. }, Reply::Done) => RwCall::WriteLeave,
            (RwCall::WriteLeave, _) => RwCall::WriteLook,
            (RwCall::TryWriteLook, Reply::Value(state)) => {
                if state <= 1 {
                    RwCall::TryWriteTake { state }
                } else {
                    RwCall::Done(RwOutcome::WouldBlock)
                }
            },
            (RwCall::TryWriteTake { .. }, Reply::Swapped) => RwCall::Done(RwOutcome::Writing),
            (RwCall::TryWriteTake { .. }, _) => RwCall::Done(RwOutcome::WouldBlock),
            (RwCall::TryReadLook, Reply::Value(state)) => {
                if state == MOST_READERS {
                    RwCall::Done(RwOutcome::TooManyReaders)
                } else if state % 2 == 1 {
                    RwCall::Done(RwOutcome::WouldBlock)
                } else {
                    RwCall::TryReadTake { state }
                }
            },
            (RwCall::TryReadTake { .. }, Reply::Swapped) => RwCall::Done(RwOutcome::Reading),
            (RwCall::TryReadTake { .. }, _) => RwCall::Done(RwOutcome::WouldBlock),
            (RwCall::ReadUnlock, Reply::Value(state)) => {
                if state == 3 {
                    RwCall::ReadUnlockWake
                } else {
                    RwCall::Done(RwOutcome::Released(RwWake::Nobody))
                }
            },
            (RwCall::ReadUnlockWake, _) | (RwCall::WriteUnlockWakeWriter, _) => {
                RwCall::Done(RwOutcome::Released(RwWake::OneWriter))
            },
            (RwCall::WriteUnlock, _) => RwCall::WriteUnlockCount,
            (RwCall::WriteUnlockCount, _) => RwCall::WriteUnlockLook,
            (RwCall::WriteUnlockLook, Reply::Value(waiting)) => {
                if waiting != 0 {
                    RwCall::WriteUnlockWakeWriter
                } else {
                    RwCall::WriteUnlockWakeReaders
                }
            },
            (RwCall::WriteUnlockWakeReaders, _) => {
                RwCall::Done(RwOutcome::Released(RwWake::AllReaders))
            },
            (_, _) => self,
        }
    }

    /// What `read` does with a state that it saw.
    fn reader(state: u32) -> (call: RwCall)
        ensures
            call == RwCall::spec_reader(state),
    {
        if state == WRITE_LOCKED {
            RwCall::ReadAwaitWriter
        } else if state == MOST_READERS {
            RwCall::Done(RwOutcome::TooManyReaders)
        } else if state % 2 == 1 {
            RwCall::ReadSleep { state }
        } else {
            RwCall::ReadTake { state }
        }
    }

    /// What `write` does with a state that it saw.
    fn writer(state: u32) -> (call: RwCall)
        ensures
            call == RwCall::spec_writer(state),
    {
        if state <= 1 {
            RwCall::WriteTake { state }
        } else if state % 2 == 0 {
            RwCall::WriteMark { state }
        } else {
            RwCall::WriteEnter
        }
    }

    /// The action of the step.
    pub fn action(&self) -> (action: Option<Action<RwWord>>)
        ensures
            action == self.spec_action(),
            action matches Some(act) ==> act.legal(),
    {
        match *self {
            RwCall::ReadLook | RwCall::WriteLook | RwCall::WriteCheck { .. } | RwCall::TryReadLook
            | RwCall::TryWriteLook => Some(Action::Word(RwWord::State, Op::Load(Order::Relaxed))),
            RwCall::ReadSleep { state } => Some(Action::Wait(RwWord::State, state)),
            RwCall::ReadAwaitWriter => Some(Action::Wait(RwWord::State, WRITE_LOCKED)),
            RwCall::ReadTake { state } => Some(
                Action::Word(
                    RwWord::State,
                    Op::CompareExchangeWeak {
                        current: state,
                        new: state.wrapping_add(2),
                        order: Order::Acquire,
                    },
                ),
            ),
            RwCall::TryReadTake { state } => Some(
                Action::Word(
                    RwWord::State,
                    Op::CompareExchange {
                        current: state,
                        new: state.wrapping_add(2),
                        order: Order::Acquire,
                    },
                ),
            ),
            RwCall::WriteTake { state } | RwCall::TryWriteTake { state } => Some(
                Action::Word(
                    RwWord::State,
                    Op::CompareExchange {
                        current: state,
                        new: WRITE_LOCKED,
                        order: Order::Acquire,
                    },
                ),
            ),
            RwCall::WriteMark { state } => Some(
                Action::Word(
                    RwWord::State,
                    Op::CompareExchange {
                        current: state,
                        new: state.wrapping_add(1),
                        order: Order::Relaxed,
                    },
                ),
            ),
            RwCall::WriteEnter => Some(
                Action::Word(RwWord::WaitingWriters, Op::FetchAdd(1, Order::AcqRel)),
            ),
            RwCall::WriteCount => Some(
                Action::Word(RwWord::WritersNumber, Op::Load(Order::Acquire)),
            ),
            RwCall::WriteSleep { count } => Some(Action::Wait(RwWord::WritersNumber, count)),
            RwCall::WriteLeave => Some(
                Action::Word(RwWord::WaitingWriters, Op::FetchSub(1, Order::AcqRel)),
            ),
            RwCall::ReadUnlock => Some(
                Action::Word(RwWord::State, Op::FetchSub(2, Order::Release)),
            ),
            RwCall::ReadUnlockWake | RwCall::WriteUnlockWakeWriter => Some(
                Action::WakeOne(RwWord::WritersNumber),
            ),
            RwCall::WriteUnlock => Some(
                Action::Word(RwWord::State, Op::Store(0, Order::Release)),
            ),
            RwCall::WriteUnlockCount => Some(
                Action::Word(RwWord::WritersNumber, Op::FetchAdd(1, Order::Release)),
            ),
            RwCall::WriteUnlockLook => Some(
                Action::Word(RwWord::WaitingWriters, Op::Load(Order::Acquire)),
            ),
            RwCall::WriteUnlockWakeReaders => Some(Action::WakeAll(RwWord::State)),
            RwCall::Done(_) => None,
        }
    }

    /// The words and the call after all the steps that the call can take alone: it is over then, or
    /// asleep.
    pub open spec fn alone(self, words: RwWords) -> (RwWords, RwCall) {
        match self {
            RwCall::ReadLook => words.reads(),
            RwCall::ReadSleep { state } =>
                if words.state == state {
                    (words, self)
                } else {
                    words.reads()
                },
            RwCall::ReadTake { state } =>
                if words.state == state {
                    (
                        RwWords { state: state.wrapping_add(2), ..words },
                        RwCall::Done(RwOutcome::Reading),
                    )
                } else {
                    words.reads()
                },
            RwCall::ReadAwaitWriter =>
                if words.state == WRITE_LOCKED {
                    (words, self)
                } else {
                    words.reads()
                },
            RwCall::WriteLook => words.writes(),
            RwCall::WriteTake { state } =>
                if words.state == state {
                    (
                        RwWords { state: WRITE_LOCKED, ..words },
                        RwCall::Done(RwOutcome::Writing),
                    )
                } else {
                    words.writes()
                },
            RwCall::WriteMark { state } =>
                if words.state == state {
                    RwWords { state: state.wrapping_add(1), ..words }.enters_as_writer()
                } else {
                    words.writes()
                },
            RwCall::WriteEnter => words.enters_as_writer(),
            RwCall::WriteCount => words.waits_as_writer(words.writers_number),
            RwCall::WriteCheck { count } => words.waits_as_writer(count),
            RwCall::WriteSleep { count } =>
                if words.writers_number == count {
                    (words, self)
                } else {
                    words.resumes_write()
                },
            RwCall::WriteLeave => words.resumes_write(),
            RwCall::TryWriteLook => words.tries_write(),
            RwCall::TryWriteTake { state } =>
                if words.state == state {
                    (
                        RwWords { state: WRITE_LOCKED, ..words },
                        RwCall::Done(RwOutcome::Writing),
                    )
                } else {
                    (words, RwCall::Done(RwOutcome::WouldBlock))
                },
            RwCall::TryReadLook => words.tries_read(),
            RwCall::TryReadTake { state } =>
                if words.state == state {
                    (
                        RwWords { state: state.wrapping_add(2), ..words },
                        RwCall::Done(RwOutcome::Reading),
                    )
                } else {
                    (words, RwCall::Done(RwOutcome::WouldBlock))
                },
            RwCall::ReadUnlock => words.read_unlocks(),
            RwCall::ReadUnlockWake | RwCall::WriteUnlockWakeWriter => (
                words,
                RwCall::Done(RwOutcome::Released(RwWake::OneWriter)),
            ),
            RwCall::WriteUnlock => words.write_unlocks(),
            RwCall::WriteUnlockCount => (
                RwWords { writers_number: words.writers_number.wrapping_add(1), ..words },
                RwCall::Done(RwOutcome::Released(words.whom_to_wake())),
            ),
            RwCall::WriteUnlockLook => (
                words,
                RwCall::Done(RwOutcome::Released(words.whom_to_wake())),
            ),
            RwCall::WriteUnlockWakeReaders => (
                words,
                RwCall::Done(RwOutcome::Released(RwWake::AllReaders)),
            ),
            RwCall::Done(_) => (words, self),
        }
    }

    /// A bound on the steps that the call can take alone.
    spec fn steps_left(self, words: RwWords) -> int {
        match self {
            RwCall::ReadLook => 6,
            RwCall::ReadSleep { state } => if words.state == state {
                0
            } else {
                8
            },
            RwCall::ReadTake { state } => if words.state == state {
                1
            } else {
                5
            },
            RwCall::ReadAwaitWriter => if words.state == WRITE_LOCKED {
                0
            } else {
                8
            },
            RwCall::WriteLook => 22,
            RwCall::WriteTake { state } => if words.state == state {
                1
            } else {
                21
            },
            RwCall::WriteMark { state } => if words.state != state {
                21
            } else if state.wrapping_add(1) > 1 && state.wrapping_add(1) % 2 == 1 {
                19
            } else {
                40
            },
            RwCall::WriteEnter => if words.keeps_writers_out() {
                4
            } else {
                32
            },
            RwCall::WriteCount => if words.keeps_writers_out() {
                3
            } else {
                31
            },
            RwCall::WriteCheck { count } => if words.keeps_writers_out() && words.writers_number
                == count {
                2
            } else {
                30
            },
            RwCall::WriteSleep { count } => if words.writers_number == count {
                0
            } else {
                28
            },
            RwCall::WriteLeave => 25,
            RwCall::TryWriteLook | RwCall::TryReadLook => 2,
            RwCall::TryWriteTake { .. } | RwCall::TryReadTake { .. } => 1,
            RwCall::ReadUnlock => 2,
            RwCall::WriteUnlock => 4,
            RwCall::WriteUnlockCount => 3,
            RwCall::WriteUnlockLook => 2,
            RwCall::ReadUnlockWake
            | RwCall::WriteUnlockWakeWriter
            | RwCall::WriteUnlockWakeReaders => 1,
            RwCall::Done(_) => 0,
        }
    }

    /// A step that the call takes alone does not change what it comes to, and brings it closer. A
    /// call that falls asleep has come to that.
    spec fn comes_closer(self, words: RwWords) -> bool {
        let (next, reply) = words.effect(self.spec_action()->Some_0);
        let call = self.spec_advance(reply);
        if reply is Asleep {
            self.alone(words) == (words, self)
        } else {
            &&& call.alone(next) == self.alone(words)
            &&& 0 <= call.steps_left(next) < self.steps_left(words)
        }
    }

    proof fn starting_writer_comes_closer(self, words: RwWords)
        requires
            self is WriteLook || self is WriteTake || self is WriteMark,
        ensures
            self.comes_closer(words),
    {
    }

    proof fn waiting_writer_comes_closer(self, words: RwWords)
        requires
            self is WriteEnter || self is WriteCount || self is WriteCheck || self is WriteSleep
                || self is WriteLeave,
        ensures
            self.comes_closer(words),
    {
    }

    proof fn call_comes_closer(self, words: RwWords)
        requires
            self.spec_action() is Some,
        ensures
            self.comes_closer(words),
    {
        match self {
            RwCall::WriteLook | RwCall::WriteTake { .. } | RwCall::WriteMark { .. } => {
                self.starting_writer_comes_closer(words);
            },
            RwCall::WriteEnter
            | RwCall::WriteCount
            | RwCall::WriteCheck { .. }
            | RwCall::WriteSleep { .. }
            | RwCall::WriteLeave => {
                self.waiting_writer_comes_closer(words);
            },
            _ => {},
        }
    }

    /// Takes the reply to the action and moves on.
    pub fn advance(self, reply: Reply<u32>) -> (next: RwCall)
        ensures
            next == self.spec_advance(reply),
    {
        match (self, reply) {
            (RwCall::ReadLook, Reply::Value(state)) => RwCall::reader(state),
            (RwCall::ReadSleep { .. }, Reply::Done) => RwCall::ReadLook,
            (RwCall::ReadTake { .. }, Reply::Swapped) => RwCall::Done(RwOutcome::Reading),
            (RwCall::ReadTake { .. }, Reply::Changed(state)) => RwCall::reader(state),
            (RwCall::ReadAwaitWriter, Reply::Done) => RwCall::ReadLook,
            (RwCall::WriteLook, Reply::Value(state)) => RwCall::writer(state),
            (RwCall::WriteTake { .. }, Reply::Swapped) => RwCall::Done(RwOutcome::Writing),
            (RwCall::WriteTake { .. }, Reply::Changed(state)) => RwCall::writer(state),
            (RwCall::WriteMark { .. }, Reply::Swapped) => RwCall::WriteEnter,
            (RwCall::WriteMark { .. }, Reply::Changed(state)) => RwCall::writer(state),
            (RwCall::WriteEnter, _) => RwCall::WriteCount,
            (RwCall::WriteCount, Reply::Value(count)) => RwCall::WriteCheck { count },
            (RwCall::WriteCheck { count }, Reply::Value(state)) => {
                if state > 1 && state % 2 == 1 {
                    RwCall::WriteSleep { count }
                } else {
                    RwCall::WriteLeave
                }
            },
            (RwCall::WriteSleep { .. }, Reply::Done) => RwCall::WriteLeave,
            (RwCall::WriteLeave, _) => RwCall::WriteLook,
            (RwCall::TryWriteLook, Reply::Value(state)) => {
                if state <= 1 {
                    RwCall::TryWriteTake { state }
                } else {
                    RwCall::Done(RwOutcome::WouldBlock)
                }
            },
            (RwCall::TryWriteTake { .. }, Reply::Swapped) => RwCall::Done(RwOutcome::Writing),
            (RwCall::TryWriteTake { .. }, _) => RwCall::Done(RwOutcome::WouldBlock),
            (RwCall::TryReadLook, Reply::Value(state)) => {
                if state == MOST_READERS {
                    RwCall::Done(RwOutcome::TooManyReaders)
                } else if state % 2 == 1 {
                    RwCall::Done(RwOutcome::WouldBlock)
                } else {
                    RwCall::TryReadTake { state }
                }
            },
            (RwCall::TryReadTake { .. }, Reply::Swapped) => RwCall::Done(RwOutcome::Reading),
            (RwCall::TryReadTake { .. }, _) => RwCall::Done(RwOutcome::WouldBlock),
            (RwCall::ReadUnlock, Reply::Value(state)) => {
                if state == 3 {
                    RwCall::ReadUnlockWake
                } else {
                    RwCall::Done(RwOutcome::Released(RwWake::Nobody))
                }
            },
            (RwCall::ReadUnlockWake, _) | (RwCall::WriteUnlockWakeWriter, _) => {
                RwCall::Done(RwOutcome::Released(RwWake::OneWriter))
            },
            (RwCall::WriteUnlock, _) => RwCall::WriteUnlockCount,
            (RwCall::WriteUnlockCount, _) => RwCall::WriteUnlockLook,
            (RwCall::WriteUnlockLook, Reply::Value(waiting)) => {
                if waiting != 0 {
                    RwCall::WriteUnlockWakeWriter
                } else {
                    RwCall::WriteUnlockWakeReaders
                }
            },
            (RwCall::WriteUnlockWakeReaders, _) => {
                RwCall::Done(RwOutcome::Released(RwWake::AllReaders))
            },
            (_, _) => self,
        }
    }
}

/// The words of a lock that one call at a time uses.
#[derive(Clone, Copy, Debug, PartialEq, Eq)]
pub struct RwWords {
    pub state: u32,
    pub writers_number: u32,
    pub waiting_writers: u32,
}

impl RwWords {
    /// The value of a word.
    pub open spec fn get(self, word: RwWord) -> u32 {
        match word {
            RwWord::State => self.state,
            RwWord::WritersNumber => self.writers_number,
            RwWord::WaitingWriters => self.waiting_writers,
        }
    }

    /// The words with another value of one of them.
    pub open spec fn set(self, word: RwWord, value: u32) -> RwWords {
        match word {
            RwWord::State => RwWords { state: value, ..self },
            RwWord::WritersNumber => RwWords { writers_number: value, ..self },
            RwWord::WaitingWriters => RwWords { waiting_writers: value, ..self },
        }
    }

    /// The words after an action, and its reply.
    pub open spec fn effect(self, action: Action<RwWord>) -> (RwWords, Reply<u32>) {
        match action {
            Action::Word(word, op) => (
                self.set(word, op.effect(self.get(word)).0),
                op.effect(self.get(word)).1,
            ),
            Action::Wait(word, value) => (
                self,
                if self.get(word) == value {
                    Reply::Asleep
                } else {
                    Reply::Done
                },
            ),
            Action::WakeOne(_) | Action::WakeAll(_) => (self, Reply::Done),
        }
    }

    /// Performs an action.
    pub fn perform(&mut self, action: Action<RwWord>) -> (reply: Reply<u32>)
        ensures
            (*final(self), reply) == old(self).effect(action),
    {
        match action {
            Action::Word(RwWord::State, op) => op.apply(&mut self.state),
            Action::Word(RwWord::WritersNumber, op) => op.apply(&mut self.writers_number),
            Action::Word(RwWord::WaitingWriters, op) => op.apply(&mut self.waiting_writers),
            Action::Wait(word, value) => {
                let found: u32 = match word {
                    RwWord::State => self.state,
                    RwWord::WritersNumber => self.writers_number,
                    RwWord::WaitingWriters => self.waiting_writers,
                };
                if found == value {
                    Reply::Asleep
                } else {
                    Reply::Done
                }
            },
            Action::WakeOne(_) | Action::WakeAll(_) => Reply::Done,
        }
    }

    /// What `read` comes to alone when it looks at the state: it counts a reader, is refused, or
    /// falls asleep.
    pub open spec fn reads(self) -> (RwWords, RwCall) {
        if self.state == WRITE_LOCKED {
            (self, RwCall::ReadAwaitWriter)
        } else if self.state == MOST_READERS {
            (self, RwCall::Done(RwOutcome::TooManyReaders))
        } else if self.state % 2 == 1 {
            (self, RwCall::ReadSleep { state: self.state })
        } else {
            (
                RwWords { state: (self.state + 2) as u32, ..self },
                RwCall::Done(RwOutcome::Reading),
            )
        }
    }

    /// The state says that a writer waits for readers or has the lock.
    pub open spec fn keeps_writers_out(self) -> bool {
        self.state > 1 && self.state % 2 == 1
    }

    /// A writer joins those that wait and falls asleep.
    pub open spec fn joins_writers(self) -> (RwWords, RwCall) {
        (
            RwWords { waiting_writers: self.waiting_writers.wrapping_add(1), ..self },
            RwCall::WriteSleep { count: self.writers_number },
        )
    }

    /// What a writer comes to alone that is counted among those that wait and saw this number of
    /// releases: it falls asleep if the state and the number are such, and otherwise goes on.
    pub open spec fn waits_as_writer(self, count: u32) -> (RwWords, RwCall) {
        if self.keeps_writers_out() && self.writers_number == count {
            (self, RwCall::WriteSleep { count })
        } else {
            self.resumes_write()
        }
    }

    /// What a writer comes to alone that is about to be counted among those that wait.
    pub open spec fn enters_as_writer(self) -> (RwWords, RwCall) {
        RwWords {
            waiting_writers: self.waiting_writers.wrapping_add(1),
            ..self
        }.waits_as_writer(self.writers_number)
    }

    /// What `write` comes to alone when it looks at the state: it takes a free lock, and otherwise
    /// makes sure that the state says that a writer waits, and falls asleep.
    pub open spec fn writes(self) -> (RwWords, RwCall) {
        if self.state <= 1 {
            (RwWords { state: WRITE_LOCKED, ..self }, RwCall::Done(RwOutcome::Writing))
        } else if self.state % 2 == 0 {
            RwWords { state: (self.state + 1) as u32, ..self }.joins_writers()
        } else {
            self.joins_writers()
        }
    }

    /// What a `write` comes to alone that was woken: it leaves those that wait, and looks at the
    /// state anew.
    pub open spec fn resumes_write(self) -> (RwWords, RwCall) {
        RwWords { waiting_writers: self.waiting_writers.wrapping_sub(1), ..self }.writes()
    }

    /// What `try_read` comes to alone.
    pub open spec fn tries_read(self) -> (RwWords, RwCall) {
        if self.state == MOST_READERS {
            (self, RwCall::Done(RwOutcome::TooManyReaders))
        } else if self.state % 2 == 1 {
            (self, RwCall::Done(RwOutcome::WouldBlock))
        } else {
            (
                RwWords { state: (self.state + 2) as u32, ..self },
                RwCall::Done(RwOutcome::Reading),
            )
        }
    }

    /// What `try_write` comes to alone.
    pub open spec fn tries_write(self) -> (RwWords, RwCall) {
        if self.state <= 1 {
            (RwWords { state: WRITE_LOCKED, ..self }, RwCall::Done(RwOutcome::Writing))
        } else {
            (self, RwCall::Done(RwOutcome::WouldBlock))
        }
    }

    /// What a read unlock comes to alone: one reader less, and if it was the last one and a writer
    /// waits, that writer has to be woken.
    pub open spec fn read_unlocks(self) -> (RwWords, RwCall) {
        if self.state == 3 {
            (
                RwWords { state: 1, ..self },
                RwCall::Done(RwOutcome::Released(RwWake::OneWriter)),
            )
        } else {
            (
                RwWords { state: self.state.wrapping_sub(2), ..self },
                RwCall::Done(RwOutcome::Released(RwWake::Nobody)),
            )
        }
    }

    /// Whom a write unlock wakes: a writer if one waits, and otherwise the readers.
    pub open spec fn whom_to_wake(self) -> RwWake {
        if self.waiting_writers != 0 {
            RwWake::OneWriter
        } else {
            RwWake::AllReaders
        }
    }

    /// What a write unlock comes to alone.
    pub open spec fn write_unlocks(self) -> (RwWords, RwCall) {
        (
            RwWords { state: 0, writers_number: self.writers_number.wrapping_add(1), ..self },
            RwCall::Done(RwOutcome::Released(self.whom_to_wake())),
        )
    }

    /// Lets a call take steps until it is over or asleep.
    pub fn run(&mut self, start: RwCall) -> (end: RwCall)
        ensures
            (*final(self), end) == start.alone(*old(self)),
    {
        let mut call = start;
        loop
            invariant
                call.alone(*self) == start.alone(*old(self)),
            decreases call.steps_left(*self),
        {
            match call.action() {
                None => {
                    return call;
                },
                Some(action) => {
                    proof {
                        call.call_comes_closer(*self);
                    }
                    let reply = self.perform(action);
                    if matches!(reply, Reply::Asleep) {
                        return call;
                    }
                    call = call.advance(reply);
                },
            }
        }
    }
}

/// The words of a lock that many threads use at the same time.
#[derive(Debug)]
pub struct RawRwLock {
    state: AtomicU32,
    writers_number: AtomicU32,
    waiting_writers: AtomicU32,
}

impl RawRwLock {
    /// The atomics are what the standard library's `new` returns for these values. What they hold
    /// later is up to the threads.
    pub closed spec fn made_with(self, words: RwWords) -> bool {
        &&& call_ensures(AtomicU32::new, (words.state,), self.state)
        &&& call_ensures(AtomicU32::new, (words.writers_number,), self.writers_number)
        &&& call_ensures(AtomicU32::new, (words.waiting_writers,), self.waiting_writers)
    }

    /// A lock that nobody holds.
    pub fn new() -> (raw: RawRwLock)
        ensures
            raw.made_with((RwWords { state: 0, writers_number: 0, waiting_writers: 0 })),
    {
        RawRwLock {
            state: AtomicU32::new(0),
            writers_number: AtomicU32::new(0),
            waiting_writers: AtomicU32::new(0),
        }
    }

    /// The atomic behind a word.
    spec fn atomic(self, word: RwWord) -> AtomicU32 {
        match word {
            RwWord::State => self.state,
            RwWord::WritersNumber => self.writers_number,
            RwWord::WaitingWriters => self.waiting_writers,
        }
    }

    /// The action was performed on the atomic behind its word, with this reply.
    pub closed spec fn performed(self, action: Action<RwWord>, reply: Reply<u32>) -> bool {
        action.performed(self.atomic(action.word()), reply)
    }

    /// The atomic behind a word.
    fn word(&self, word: RwWord) -> (atomic: &AtomicU32)
        ensures
            *atomic == self.atomic(word),
    {
        match word {
            RwWord::State => &self.state,
            RwWord::WritersNumber => &self.writers_number,
            RwWord::WaitingWriters => &self.waiting_writers,
        }
    }

    /// Performs an action on the atomic words. A wait comes back once the thread is awake again.
    fn perform(&self, action: Action<RwWord>) -> (reply: Reply<u32>)
        requires
            action.legal(),
        ensures
            self.performed(action, reply),
            action.fits(reply),
            !(reply is Asleep),
    {
        let word = match action {
            Action::Word(word, _)
            | Action::Wait(word, _)
            | Action::WakeOne(word)
            | Action::WakeAll(word) => word,
        };
        action.apply_atomic(self.word(word))
    }

    /// Takes the next step of a call: performs its action and moves on with the reply. Which reply
    /// comes depends on the other threads; the call moves as the protocol says for that reply.
    pub fn step(&self, call: RwCall) -> (next: RwCall)
        ensures
            call.spec_action() is None ==> next == call,
            call.spec_action() matches Some(action) ==> exists|reply: Reply<u32>|
                {
                    &&& #[trigger] self.performed(action, reply)
                    &&& action.fits(reply) && !(reply is Asleep)
                    &&& next == call.spec_advance(reply)
                },
    {
        match call.action() {
            None => call,
            Some(action) => {
                let reply = self.perform(action);
                call.advance(reply)
            },
        }
    }
}

/// What the locking calls hand out.
pub type LockResult<Guard> = Result<Guard, RwLockError<Guard>>;

/// Why a lock was not handed out, or was handed out with a warning.
#[derive(Debug)]
pub enum RwLockError<Guard> {
    /// The lock is taken, or this thread holds it already.
    WouldBlock,
    /// There is no room for another reader.
    TooManyReaders,
    /// The lock was acquired, but a thread panicked while it held it for writing.
    Poisoned(PoisonedLock<Guard>),
}

/// The guard of a lock that is poisoned.
pub struct PoisonedLock<Guard> {
    pub guard: Guard,
}

impl<Guard> std::fmt::Debug for PoisonedLock<Guard> {
    /// Writes a fixed text; the guard is not shown.
    fn fmt(&self, f: &mut std::fmt::Formatter<'_>) -> (res: std::fmt::Result)
        ensures
            exists|formatter: &mut std::fmt::Formatter|
                {
                    &&& #[trigger] call_ensures(
                        std::fmt::Formatter::write_str,
                        (formatter, "Lock is poisoned!"),
                        res,
                    )
                    &&& *formatter == *old(f)
                    &&& *final(formatter) == *final(f)
                },
    {
        f.write_str("Lock is poisoned!")
    }
}

impl<Guard> PartialEq for RwLockError<Guard> {
    /// Two errors are equal when they are of the same kind; the guards are not compared.
    fn eq(&self, other: &Self) -> (res: bool) {
        match self {
            RwLockError::WouldBlock => matches!(other, RwLockError::WouldBlock),
            RwLockError::TooManyReaders => matches!(other, RwLockError::TooManyReaders),
            RwLockError::Poisoned(_) => matches!(other, RwLockError::Poisoned(_)),
        }
    }
}

impl<Guard> vstd::std_specs::cmp::PartialEqSpecImpl for RwLockError<Guard> {
    open spec fn obeys_eq_spec() -> bool {
        true
    }

    open spec fn eq_spec(&self, other: &Self) -> bool {
        &&& self is WouldBlock == other is WouldBlock
        &&& self is TooManyReaders == other is TooManyReaders
    }
}

impl<Guard> RwLockError<Guard> {
    /// The text that describes the error.
    pub fn message(&self) -> (text: String)
        ensures
            self is WouldBlock ==> text@ == "Error: Can cause blocking"@,
            self is TooManyReaders ==> text@ == "Error: RwLock has too many readers"@,
            self is Poisoned ==> text@ == "Error: RwLock is poisoned"@,
    {
        match self {
            RwLockError::WouldBlock => "Error: Can cause blocking".to_owned(),
            RwLockError::TooManyReaders => "Error: RwLock has too many readers".to_owned(),
            RwLockError::Poisoned(_) => "Error: RwLock is poisoned".to_owned(),
        }
    }
}

impl<Guard> PoisonedLock<Guard> {
    /// The text that describes the poisoned lock.
    pub fn message(&self) -> (text: String)
        ensures
            text@ == "Lock is poisoned!"@,
    {
        "Lock is poisoned!".to_owned()
    }
}

/// A read-write lock together with the data that it guards.
///
/// The value is the state that the threads share; every call takes the state of the calling thread,
/// [`HeldLocks`], besides. Calls of different threads follow each other, and a call that has to
/// wait comes back asleep, to be resumed once it is woken.
#[derive(Debug)]
pub struct RwLock<T> {
    rwlock_id: u64,
    data: T,
    words: RwWords,
    poisoned: bool,
}

/// What a lock is, to those who use it.
pub struct RwLockView<T> {
    /// The identity of the lock.
    pub id: u64,
    /// The guarded data.
    pub data: T,
    /// The words.
    pub words: RwWords,
    /// Whether a thread panicked while it held the lock for writing.
    pub poisoned: bool,
}

impl<T> View for RwLock<T> {
    type V = RwLockView<T>;

    closed spec fn view(&self) -> RwLockView<T> {
        RwLockView {
            id: self.rwlock_id,
            data: self.data,
            words: self.words,
            poisoned: self.poisoned,
        }
    }
}

impl<T> RwLockView<T> {
    /// The lock after a call that does this.
    pub open spec fn after(self, event: LockEvent<RwWords, T>) -> RwLockView<T> {
        match event {
            LockEvent::Words(words) => RwLockView { words: words, ..self },
            LockEvent::Change(data) => RwLockView { data, ..self },
            LockEvent::Release { words, panicking } => RwLockView {
                words: words,
                poisoned: self.poisoned || panicking,
                ..self
            },
            LockEvent::ClearPoison => RwLockView { poisoned: false, ..self },
        }
    }

    /// The lock after calls that do this, one after the other.
    pub open spec fn after_all(self, events: Seq<LockEvent<RwWords, T>>) -> RwLockView<T>
        decreases events.len(),
    {
        if events.len() == 0 {
            self
        } else {
            self.after_all(events.drop_last()).after(events.last())
        }
    }
}

/// Whether a result hands out the lock with this identity: the guard itself, or the guard inside
/// the error if the lock is poisoned.
pub open spec fn grants<Guard: View<V = u64>>(
    res: LockResult<Guard>,
    id: u64,
    poisoned: bool,
) -> bool {
    match res {
        Ok(guard) => !poisoned && guard@ == id,
        Err(RwLockError::Poisoned(lock)) => poisoned && lock.guard@ == id,
        Err(_) => false,
    }
}

/// Refuses a thread that holds the lock with this identity.
pub fn refuse_holder<Guard>(id: u64, me: &HeldLocks) -> (res: Result<(), RwLockError<Guard>>)
    ensures
        res == if me@.contains(id) {
            Err::<(), RwLockError<Guard>>(RwLockError::WouldBlock)
        } else {
            Ok(())
        },
{
    if me.contains(id) {
        return Err(RwLockError::WouldBlock);
    }
    Ok(())
}

/// Whether a call that ended like this acquired the lock with this identity, which the thread holds
/// from then on, and why not.
pub fn claim<Guard>(outcome: RwOutcome, id: u64, me: &mut HeldLocks) -> (res: Result<
    (),
    RwLockError<Guard>,
>)
    ensures
        match outcome {
            RwOutcome::Reading | RwOutcome::Writing => {
                &&& res == Ok::<(), RwLockError<Guard>>(())
                &&& final(me)@ == old(me)@.insert(id)
            },
            RwOutcome::TooManyReaders => {
                &&& res == Err::<(), RwLockError<Guard>>(RwLockError::TooManyReaders)
                &&& final(me)@ == old(me)@
            },
            _ => {
                &&& res == Err::<(), RwLockError<Guard>>(RwLockError::WouldBlock)
                &&& final(me)@ == old(me)@
            },
        },
{
    match outcome {
        RwOutcome::Reading | RwOutcome::Writing => {
            me.insert(id);
            Ok(())
        },
        RwOutcome::TooManyReaders => Err(RwLockError::TooManyReaders),
        _ => Err(RwLockError::WouldBlock),
    }
}

/// Hands out the guard of a lock that was just acquired.
pub fn hand_out<Guard>(guard: Guard, poisoned: bool) -> (res: LockResult<Guard>)
    ensures
        res == if poisoned {
            Err(RwLockError::Poisoned(PoisonedLock { guard }))
        } else {
            Ok(guard)
        },
{
    if poisoned {
        Err(RwLockError::Poisoned(PoisonedLock { guard }))
    } else {
        Ok(guard)
    }
}

/// What a thread that does not hold the lock gets of a call that came to this end: the lock, which
/// the thread holds from then on; an error; or a call that sleeps.
pub open spec fn settles<T, Guard: View<V = u64>>(
    end: RwCall,
    lock: RwLockView<T>,
    me_before: Set<u64>,
    me_after: Set<u64>,
    res: Progress<LockResult<Guard>, RwCall>,
) -> bool {
    match end {
        RwCall::Done(RwOutcome::Reading) | RwCall::Done(RwOutcome::Writing) => {
            &&& me_after == me_before.insert(lock.id)
            &&& res matches Progress::Finished(handed) && grants(handed, lock.id, lock.poisoned)
        },
        RwCall::Done(RwOutcome::TooManyReaders) => {
            &&& me_after == me_before
            &&& res == Progress::<LockResult<Guard>, RwCall>::Finished(
                Err(RwLockError::TooManyReaders),
            )
        },
        RwCall::Done(_) => {
            &&& me_after == me_before
            &&& res == Progress::<LockResult<Guard>, RwCall>::Finished(Err(RwLockError::WouldBlock))
        },
        _ => {
            &&& me_after == me_before
            &&& res == Progress::<LockResult<Guard>, RwCall>::Pending(end)
        },
    }
}

impl<T> RwLock<T> {
    /// A lock that nobody holds.
    pub fn new(ids: &mut Identities, data: T) -> (lock: RwLock<T>)
        ensures
            lock@ == (RwLockView {
                id: old(ids)@,
                data,
                words: RwWords { state: 0, writers_number: 0, waiting_writers: 0 },
                poisoned: false,
            }),
            final(ids)@ == old(ids)@.wrapping_add(1),
    {
        RwLock {
            rwlock_id: ids.fresh(),
            data,
            words: RwWords { state: 0, writers_number: 0, waiting_writers: 0 },
            poisoned: false,
        }
    }

    /// Acquires the lock for reading, or goes to sleep while a writer waits or has the lock. A
    /// thread that holds the lock is refused.
    pub fn read(&mut self, me: &mut HeldLocks) -> (res: Progress<
        LockResult<RwLockReadGuard>,
        RwCall,
    >)
        ensures
            old(me)@.contains(old(self)@.id) ==> {
                &&& res == Progress::<LockResult<RwLockReadGuard>, RwCall>::Finished(
                    Err(RwLockError::WouldBlock),
                )
                &&& final(self)@ == old(self)@
                &&& final(me)@ == old(me)@
            },
            !old(me)@.contains(old(self)@.id) ==> {
                &&& final(self)@ == old(self)@.after(
                    LockEvent::Words(old(self)@.words.reads().0),
                )
                &&& settles(old(self)@.words.reads().1, old(self)@, old(me)@, final(me)@, res)
            },
    {
        if let Err(error) = self.acquired_check(me) {
            return Progress::Finished(Err(error));
        }
        let end = self.words.run(RwCall::ReadLook);
        self.settle_read(end, me)
    }

    /// Goes on with a `read` that was woken.
    pub fn resume_read(&mut self, call: RwCall, me: &mut HeldLocks) -> (res: Progress<
        LockResult<RwLockReadGuard>,
        RwCall,
    >)
        requires
            call is ReadSleep || call is ReadAwaitWriter,
        ensures
            final(self)@ == old(self)@.after(LockEvent::Words(old(self)@.words.reads().0)),
            settles(old(self)@.words.reads().1, old(self)@, old(me)@, final(me)@, res),
    {
        let end = self.words.run(call.advance(Reply::Done));
        self.settle_read(end, me)
    }

    /// Acquires the lock for writing, or goes to sleep while others have it. A thread that holds
    /// the lock is refused.
    pub fn write(&mut self, me: &mut HeldLocks) -> (res: Progress<
        LockResult<RwLockWriteGuard>,
        RwCall,
    >)
        ensures
            old(me)@.contains(old(self)@.id) ==> {
                &&& res == Progress::<LockResult<RwLockWriteGuard>, RwCall>::Finished(
                    Err(RwLockError::WouldBlock),
                )
                &&& final(self)@ == old(self)@
                &&& final(me)@ == old(me)@
            },
            !old(me)@.contains(old(self)@.id) ==> {
                &&& final(self)@ == old(self)@.after(
                    LockEvent::Words(old(self)@.words.writes().0),
                )
                &&& settles(old(self)@.words.writes().1, old(self)@, old(me)@, final(me)@, res)
            },
    {
        if let Err(error) = self.acquired_check(me) {
            return Progress::Finished(Err(error));
        }
        let end = self.words.run(RwCall::WriteLook);
        self.settle_write(end, me)
    }

    /// Goes on with a `write` that was woken.
    pub fn resume_write(&mut self, call: RwCall, me: &mut HeldLocks) -> (res: Progress<
        LockResult<RwLockWriteGuard>,
        RwCall,
    >)
        requires
            call is WriteSleep,
        ensures
            final(self)@ == old(self)@.after(
                LockEvent::Words(old(self)@.words.resumes_write().0),
            ),
            settles(
                old(self)@.words.resumes_write().1,
                old(self)@,
                old(me)@,
                final(me)@,
                res,
            ),
    {
        let end = self.words.run(call.advance(Reply::Done));
        self.settle_write(end, me)
    }

    /// Acquires the lock for writing if nobody has it.
    pub fn try_write(&mut self, me: &mut HeldLocks) -> (res: LockResult<RwLockWriteGuard>)
        ensures
            old(me)@.contains(old(self)@.id) || old(self)@.words.state > 1 ==> {
                &&& res == LockResult::<RwLockWriteGuard>::Err(RwLockError::WouldBlock)
                &&& final(self)@ == old(self)@
                &&& final(me)@ == old(me)@
            },
            !old(me)@.contains(old(self)@.id) && old(self)@.words.state <= 1 ==> {
                &&& grants(res, old(self)@.id, old(self)@.poisoned)
                &&& final(self)@ == old(self)@.after(
                    LockEvent::Words(RwWords { state: WRITE_LOCKED, ..old(self)@.words }),
                )
                &&& final(me)@ == old(me)@.insert(old(self)@.id)
            },
    {
        if let Err(error) = self.acquired_check(me) {
            return Err(error);
        }
        let end = self.words.run(RwCall::TryWriteLook);
        self.settle_write(end, me).finished()
    }

    /// Acquires the lock for reading if no writer has it or waits for it.
    pub fn try_read(&mut self, me: &mut HeldLocks) -> (res: LockResult<RwLockReadGuard>)
        ensures
            old(me)@.contains(old(self)@.id) || old(self)@.words.state % 2 == 1 ==> {
                &&& res == LockResult::<RwLockReadGuard>::Err(RwLockError::WouldBlock)
                &&& final(self)@ == old(self)@
                &&& final(me)@ == old(me)@
            },
            !old(me)@.contains(old(self)@.id) && old(self)@.words.state == MOST_READERS ==> {
                &&& res == LockResult::<RwLockReadGuard>::Err(RwLockError::TooManyReaders)
                &&& final(self)@ == old(self)@
                &&& final(me)@ == old(me)@
            },
            !old(me)@.contains(old(self)@.id) && old(self)@.words.state % 2 == 0 && old(
                self,
            )@.words.state != MOST_READERS ==> {
                &&& grants(res, old(self)@.id, old(self)@.poisoned)
                &&& final(self)@ == old(self)@.after(
                    LockEvent::Words(
                        RwWords { state: (old(self)@.words.state + 2) as u32, ..old(self)@.words },
                    ),
                )
                &&& final(me)@ == old(me)@.insert(old(self)@.id)
            },
    {
        if let Err(error) = self.acquired_check(me) {
            return Err(error);
        }
        let end = self.words.run(RwCall::TryReadLook);
        self.settle_read(end, me).finished()
    }

    /// The data of a lock that no other thread can reach.
    pub fn get_mut(&mut self) -> (data: &mut T)
        ensures
            *data == old(self)@.data,
            final(self)@ == old(self)@.after(LockEvent::Change(*final(data))),
    {
        &mut self.data
    }

    /// Gives up the lock for its data.
    pub fn into_inner(self) -> (data: T)
        ensures
            data == self@.data,
    {
        self.data
    }

    /// Whether a thread panicked while it held the lock for writing.
    pub fn is_poisoned(&self) -> (res: bool)
        ensures
            res == self@.poisoned,
    {
        self.poisoned
    }

    /// Forgets that a thread panicked while it held the lock for writing.
    pub fn clear_poison(&mut self)
        ensures
            final(self)@ == old(self)@.after(LockEvent::ClearPoison),
    {
        self.poisoned = false;
    }

    /// Turns the end of a read call into its result.
    fn settle_read(&self, end: RwCall, me: &mut HeldLocks) -> (res: Progress<
        LockResult<RwLockReadGuard>,
        RwCall,
    >)
        requires
            end is Done ==> end == RwCall::Done(RwOutcome::Reading) || end == RwCall::Done(
                RwOutcome::TooManyReaders,
            ) || end == RwCall::Done(RwOutcome::WouldBlock),
        ensures
            settles(end, self@, old(me)@, final(me)@, res),
    {
        match end {
            RwCall::Done(outcome) => match claim(outcome, self.rwlock_id, me) {
                Ok(()) => Progress::Finished(
                    hand_out(RwLockReadGuard { rwlock_id: self.rwlock_id }, self.poisoned),
                ),
                Err(error) => Progress::Finished(Err(error)),
            },
            _ => Progress::Pending(end),
        }
    }

    /// Turns the end of a write call into its result.
    fn settle_write(&self, end: RwCall, me: &mut HeldLocks) -> (res: Progress<
        LockResult<RwLockWriteGuard>,
        RwCall,
    >)
        requires
            end is Done ==> end == RwCall::Done(RwOutcome::Writing) || end == RwCall::Done(
                RwOutcome::TooManyReaders,
            ) || end == RwCall::Done(RwOutcome::WouldBlock),
        ensures
            settles(end, self@, old(me)@, final(me)@, res),
    {
        match end {
            RwCall::Done(outcome) => match claim(outcome, self.rwlock_id, me) {
                Ok(()) => Progress::Finished(
                    hand_out(RwLockWriteGuard { rwlock_id: self.rwlock_id }, self.poisoned),
                ),
                Err(error) => Progress::Finished(Err(error)),
            },
            _ => Progress::Pending(end),
        }
    }

    /// Refuses a thread that holds the lock.
    fn acquired_check<Guard>(&self, me: &HeldLocks) -> (res: Result<(), RwLockError<Guard>>)
        ensures
            res == if me@.contains(self@.id) {
                Err::<(), RwLockError<Guard>>(RwLockError::WouldBlock)
            } else {
                Ok(())
            },
    {
        refuse_holder(self.rwlock_id, me)
    }

    /// Notes that the thread does not hold the lock.
    fn remove_acquired(&self, me: &mut HeldLocks)
        ensures
            final(me)@ == old(me)@.remove(self@.id),
    {
        me.remove(self.rwlock_id);
    }
}

/// The right to read and change the data of a lock.
#[derive(Debug)]
pub struct RwLockWriteGuard {
    rwlock_id: u64,
}

impl View for RwLockWriteGuard {
    type V = u64;

    /// The identity of the lock that the guard belongs to.
    closed spec fn view(&self) -> u64 {
        self.rwlock_id
    }
}

impl RwLockWriteGuard {
    /// The data of the lock.
    pub fn deref<'a, T>(&self, lock: &'a RwLock<T>) -> (data: &'a T)
        requires
            self@ == lock@.id,
        ensures
            *data == lock@.data,
    {
        &lock.data
    }

    /// The data of the lock, to be changed.
    pub fn deref_mut<'a, T>(&mut self, lock: &'a mut RwLock<T>) -> (data: &'a mut T)
        requires
            old(self)@ == old(lock)@.id,
        ensures
            *data == old(lock)@.data,
            final(lock)@ == old(lock)@.after(LockEvent::Change(*final(data))),
            final(self)@ == old(self)@,
    {
        &mut lock.data
    }

    /// Releases the lock, and poisons it if the thread is panicking. The result says who has to be
    /// woken: a writer if one waits, and otherwise the readers.
    pub fn unlock<T>(self, lock: &mut RwLock<T>, me: &mut HeldLocks, panicking: bool) -> (wake:
        RwWake)
        requires
            self@ == old(lock)@.id,
        ensures
            final(lock)@ == old(lock)@.after(
                LockEvent::Release { words: old(lock)@.words.write_unlocks().0, panicking },
            ),
            final(me)@ == old(me)@.remove(self@),
            wake == old(lock)@.words.whom_to_wake(),
    {
        if panicking {
            lock.poisoned = true;
        }
        lock.remove_acquired(me);
        match lock.words.run(RwCall::WriteUnlock) {
            RwCall::Done(RwOutcome::Released(wake)) => wake,
            _ => RwWake::Nobody,
        }
    }
}

/// The right to read the data of a lock.
#[derive(Debug)]
pub struct RwLockReadGuard {
    rwlock_id: u64,
}

impl View for RwLockReadGuard {
    type V = u64;

    /// The identity of the lock that the guard belongs to.
    closed spec fn view(&self) -> u64 {
        self.rwlock_id
    }
}

impl RwLockReadGuard {
    /// The data of the lock.
    pub fn deref<'a, T>(&self, lock: &'a RwLock<T>) -> (data: &'a T)
        requires
            self@ == lock@.id,
        ensures
            *data == lock@.data,
    {
        &lock.data
    }

    /// Releases the lock. The result says who has to be woken: the writer that waits for the last
    /// reader.
    pub fn unlock<T>(self, lock: &mut RwLock<T>, me: &mut HeldLocks) -> (wake: RwWake)
        requires
            self@ == old(lock)@.id,
        ensures
            final(lock)@ == old(lock)@.after(
                LockEvent::Words(old(lock)@.words.read_unlocks().0),
            ),
            final(me)@ == old(me)@.remove(self@),
            wake == if old(lock)@.words.state == 3 {
                RwWake::OneWriter
            } else {
                RwWake::Nobody
            },
    {
        lock.remove_acquired(me);
        match lock.words.run(RwCall::ReadUnlock) {
            RwCall::Done(RwOutcome::Released(wake)) => wake,
            _ => RwWake::Nobody,
        }
    }
}

/// Once a thread panics while it holds the lock for writing, the lock is poisoned until that is
/// cleared, and it is poisoned for no other reason.
pub proof fn law_poison_lasts_until_cleared<T>(
    start: RwLockView<T>,
    events: Seq<LockEvent<RwWords, T>>,
)
    ensures
        start.after_all(events).poisoned == mutex_common::poisoned_after(start.poisoned, events),
    decreases events.len(),
{
    mutex_common::poison_after_one_more(start.poisoned, events);
    if events.len() > 0 {
        law_poison_lasts_until_cleared(start, events.drop_last());
    }
}

/// The data is as it was last changed: it stays through every call that does not change it.
pub proof fn law_data_stays_as_last_changed<T>(
    start: RwLockView<T>,
    events: Seq<LockEvent<RwWords, T>>,
    k: int,
)
    requires
        0 <= k < events.len(),
        events[k] is Change,
        forall|i: int| k < i < events.len() ==> !(#[trigger] events[i] is Change),
    ensures
        start.after_all(events).data == events[k]->Change_0,
    decreases events.len(),
{
    if k < events.len() - 1 {
        assert(events[events.len() - 1] == events.last());
        law_data_stays_as_last_changed(start, events.drop_last(), k);
    }
}

/// Who acquires the lock for reading and releases it leaves the words as they were.
pub proof fn law_read_unlock_undoes_read(words: RwWords)
    requires
        words.reads().1 == RwCall::Done(RwOutcome::Reading),
    ensures
        words.reads().0.read_unlocks().0 == words,
{
}

/// Who acquires the lock for writing and releases it leaves it free, and counted one more time.
pub proof fn law_write_unlock_frees(words: RwWords)
    requires
        words.writes().1 == RwCall::Done(RwOutcome::Writing),
    ensures
        words.writes().0.write_unlocks().0 == (RwWords {
            state: 0,
            writers_number: words.writers_number.wrapping_add(1),
            ..words
        }),
{
}

/// Readers are not woken needlessly: a release wakes all of them only when no writer waits.
pub proof fn law_readers_are_woken_only_without_writers(words: RwWords)
    ensures
        words.whom_to_wake() == RwWake::AllReaders <==> words.waiting_writers == 0,
        words.read_unlocks().1 != RwCall::Done(RwOutcome::Released(RwWake::AllReaders)),
{
}

/// A `read` that finds a writer in possession of the lock waits, and reads once the writer has
/// released the lock.
pub proof fn law_blocked_read_gets_on(words: RwWords)
    requires
        words.state == WRITE_LOCKED,
    ensures
        words.reads() == (words, RwCall::ReadAwaitWriter),
        words.write_unlocks().0.reads() == (
            RwWords { state: 2, ..words.write_unlocks().0 },
            RwCall::Done(RwOutcome::Reading),
        ),
{
}

/// A `write` that finds another writer in possession of the lock waits. The release wakes a writer,
/// and the one that was woken then has the lock.
pub proof fn law_blocked_write_gets_on(words: RwWords)
    requires
        words.state == WRITE_LOCKED,
        words.waiting_writers < u32::MAX,
    ensures
        words.writes().1 == (RwCall::WriteSleep { count: words.writers_number }),
        words.writes().0.write_unlocks().1 == RwCall::Done(
            RwOutcome::Released(RwWake::OneWriter),
        ),
        words.writes().0.write_unlocks().0.writers_number != words.writers_number,
        words.writes().0.write_unlocks().0.resumes_write() == (
            RwWords { writers_number: words.writers_number.wrapping_add(1), ..words },
            RwCall::Done(RwOutcome::Writing),
        ),
{
}

/// A `write` that finds a last reader in possession of the lock waits, and keeps further readers
/// out. The release wakes a writer, and the one that was woken then has the lock.
pub proof fn law_write_follows_the_last_reader(words: RwWords)
    requires
        words.state == 2,
        words.waiting_writers < u32::MAX,
    ensures
        words.writes().1 == (RwCall::WriteSleep { count: words.writers_number }),
        words.writes().0.reads().1 == (RwCall::ReadSleep { state: 3 }),
        words.writes().0.read_unlocks().1 == RwCall::Done(
            RwOutcome::Released(RwWake::OneWriter),
        ),
        words.writes().0.read_unlocks().0.resumes_write() == (
            RwWords { state: WRITE_LOCKED, ..words },
            RwCall::Done(RwOutcome::Writing),
        ),
{
}

impl RawRwLock {
    /// The atomic that holds the state.
    pub closed spec fn state_atomic(self) -> AtomicU32 {
        self.state
    }

    /// The atomic that holds the number of releases of writers.
    pub closed spec fn writers_number_atomic(self) -> AtomicU32 {
        self.writers_number
    }

    /// The atomic that holds the number of writers that wait.
    pub closed spec fn waiting_writers_atomic(self) -> AtomicU32 {
        self.waiting_writers
    }
}

/// Each word is held by its own atomic, which starts with the value of a new lock; an action on a
/// word is performed on that atomic and on no other.
pub proof fn law_every_word_has_its_atomic(
    made: RawRwLock,
    raw: RawRwLock,
    action: Action<RwWord>,
    reply: Reply<u32>,
)
    requires
        call_ensures(RawRwLock::new, (), made),
        raw.performed(action, reply),
    ensures
        made.made_with((RwWords { state: 0, writers_number: 0, waiting_writers: 0 })),
        call_ensures(AtomicU32::new, (0u32,), made.state_atomic()),
        call_ensures(AtomicU32::new, (0u32,), made.writers_number_atomic()),
        call_ensures(AtomicU32::new, (0u32,), made.waiting_writers_atomic()),
        action.word() is State ==> action.performed(raw.state_atomic(), reply),
        action.word() is WritersNumber ==> action.performed(raw.writers_number_atomic(), reply),
        action.word() is WaitingWriters ==> action.performed(raw.waiting_writers_atomic(), reply),
{
}

} // verus!
