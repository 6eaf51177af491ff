//! Shared ownership by reference counting.
//!
//! A block holds the data and two counts: the strong handles, which keep the data, and the weak
//! handles, which keep the block; the strong handles together count as one weak handle. The second
//! count is [`usize::MAX`] while somebody checks that a handle is the only one. The protocol of the
//! counts is [`ArcCall`]. It runs on ordinary counts, one call at a time, as [`Arc`] and [`Weak`]
//! do on an [`ArcInner`]; [`RawArc`] performs the actions on the counts where they are atomics.

use crate::utils::mutex_common::Identities;
use crate::word::{Op, Order, Reply};
use std::sync::atomic::{AtomicUsize, Ordering};
use vstd::prelude::*;

verus! {

/// How many handles of a kind there may be before another one is added.
pub const MAX_REF_COUNT: usize = usize::MAX / 2;

/// The words of the block.
#[derive(Clone, Copy, Debug, PartialEq, Eq)]
pub enum ArcWord {
    StrongCount,
    RefCount,
}

/// An action of a call.
#[derive(Debug, PartialEq, Eq)]
pub enum ArcAction {
    /// An atomic operation on a count.
    Word(ArcWord, Op<usize>),
    /// An acquire fence.
    Fence,
    /// Drop the data in the block.
    DropData,
    /// Move the data out of the block and free the block.
    TakeData,
    /// Free the block.
    Free,
}

impl ArcAction {
    /// The orderings of the operation are legal.
    pub open spec fn legal(self) -> bool {
        self matches ArcAction::Word(_, op) ==> op.legal()
    }

    /// The replies that fit an action, whatever the counts are.
    pub open spec fn fits(self, reply: Reply<usize>) -> bool {
        match self {
            ArcAction::Word(_, op) => op.fits(reply),
            _ => reply is Done,
        }
    }
}

/// How a call ends.
#[derive(Clone, Copy, Debug, PartialEq, Eq)]
pub enum ArcOutcome {
    /// There is another strong handle.
    NewStrong,
    /// There is another weak handle.
    NewWeak,
    /// The data is gone.
    NoData,
    /// The handle is the only one.
    Unique,
    /// There are other handles.
    Shared,
    /// The handle is gone, and the data was moved out.
    Taken,
    /// The handle is gone.
    Dropped,
    /// There are too many handles.
    TooMany,
}

/// Where a call stands: the step that it takes next, or how it ended.
#[derive(Clone, Copy, Debug, PartialEq, Eq)]
pub enum ArcCall {
    /// `clone`: count one more strong handle.
    Clone,
    /// `downgrade`: look at the count of weak handles.
    DowngradeLook,
    /// `downgrade`: count one more weak handle.
    DowngradeTake { count: usize },
    /// `upgrade`: look at the count of strong handles.
    UpgradeLook,
    /// `upgrade`: count one more strong handle.
    UpgradeTake { count: usize },
    /// `get_mut`: keep others from adding weak handles, if there are none.
    GetMutLock,
    /// `get_mut`: look at the count of strong handles.
    GetMutLook,
    /// `get_mut`: let others add weak handles again.
    GetMutUnlock { unique: bool },
    /// `get_mut`: see what those did that are gone.
    GetMutFence,
    /// `into_inner`: keep others from adding weak handles, if there are none.
    IntoLock,
    /// `into_inner`: look at the count of strong handles.
    IntoLook,
    /// `into_inner`: let others add weak handles again.
    IntoUnlock,
    /// `into_inner`: see what those did that are gone.
    IntoFence,
    /// `into_inner`: move the data out and free the block.
    IntoTake,
    /// Drop of a strong handle: count one strong handle less.
    DropStrong,
    /// Drop of the last strong handle: drop the data.
    DropData,
    /// Drop of a weak handle, or of that of the strong handles: count one weak handle less.
    DropWeak,
    /// Drop of the last handle: see what those did that are gone.
    DropFence,
    /// Drop of the last handle: free the block.
    Free,
    /// The call is over.
    Done(ArcOutcome),
}

impl ArcCall {
    /// What `downgrade` does with a count that it saw.
    pub open spec fn spec_downgrader(count: usize) -> ArcCall {
        if count == usize::MAX {
            ArcCall::DowngradeLook
        } else if count > MAX_REF_COUNT {
            ArcCall::Done(ArcOutcome::TooMany)
        } else {
            ArcCall::DowngradeTake { count }
        }
    }

    /// What `upgrade` does with a count that it saw.
    pub open spec fn spec_upgrader(count: usize) -> ArcCall {
        if count == 0 {
            ArcCall::Done(ArcOutcome::NoData)
        } else if count > MAX_REF_COUNT {
            ArcCall::Done(ArcOutcome::TooMany)
        } else {
            ArcCall::UpgradeTake { count }
        }
    }

    /// The action of the step; `None` when the call is over.
    pub open spec fn spec_action(self) -> Option<ArcAction> {
        match self {
            ArcCall::Clone => Some(
                ArcAction::Word(ArcWord::StrongCount, Op::FetchAdd(1, Order::Relaxed)),
            ),
            ArcCall::DowngradeLook => Some(
                ArcAction::Word(ArcWord::RefCount, Op::Load(Order::Relaxed)),
            ),
            ArcCall::DowngradeTake { count } => Some(
                ArcAction::Word(
                    ArcWord::RefCount,
                    Op::CompareExchange {
                        current: count,
                        new: count.wrapping_add(1),
                        order: Order::Relaxed,
                    },
                ),
            ),
            ArcCall::UpgradeLook => Some(
                ArcAction::Word(ArcWord::StrongCount, Op::Load(Order::Relaxed)),
            ),
            ArcCall::UpgradeTake { count } => Some(
                ArcAction::Word(
                    ArcWord::StrongCount,
                    Op::CompareExchange {
                        current: count,
                        new: count.wrapping_add(1),
                        order: Order::Relaxed,
                    },
                ),
            ),
            ArcCall::GetMutLock | ArcCall::IntoLock => Some(
                ArcAction::Word(
                    ArcWord::RefCount,
                    Op::CompareExchange {
                        current: 1,
                        new: usize::MAX,
                        order: Order::Acquire,
                    },
                ),
            ),
            ArcCall::GetMutLook | ArcCall::IntoLook => Some(
                ArcAction::Word(ArcWord::StrongCount, Op::Load(Order::Relaxed)),
            ),
            ArcCall::GetMutUnlock { .. } | ArcCall::IntoUnlock => Some(
                ArcAction::Word(ArcWord::RefCount, Op::Store(1, Order::Release)),
            ),
            ArcCall::GetMutFence | ArcCall::IntoFence | ArcCall::DropFence => {
                Some(ArcAction::Fence)
            },
            ArcCall::IntoTake => Some(ArcAction::TakeData),
            ArcCall::DropStrong => Some(
                ArcAction::Word(ArcWord::StrongCount, Op::FetchSub(1, Order::AcqRel)),
            ),
            ArcCall::DropData => Some(ArcAction::DropData),
            ArcCall::DropWeak => Some(
                ArcAction::Word(ArcWord::RefCount, Op::FetchSub(1, Order::Release)),
            ),
            ArcCall::Free => Some(ArcAction::Free),
            ArcCall::Done(_) => None,
        }
    }

    /// Where the call stands after the reply to its action. An `into_inner` that finds other
    /// handles drops its own.
    pub open spec fn spec_advance(self, reply: Reply<usize>) -> ArcCall {
        match (self, reply) {
            (ArcCall::Clone, Reply::Value(count)) => {
                if count > MAX_REF_COUNT {
                    ArcCall::Done(ArcOutcome::TooMany)
                } else {
                    ArcCall::Done(ArcOutcome::NewStrong)
                }
            },
            (ArcCall::DowngradeLook, Reply::Value(count)) => ArcCall::spec_downgrader(count),
            (ArcCall::DowngradeTake { .. }, Reply::Swapped) => ArcCall::Done(ArcOutcome::NewWeak),
            (ArcCall::DowngradeTake { .. }, Reply::Changed(count)) => {
                ArcCall::spec_downgrader(count)
            },
            (ArcCall::UpgradeLook, Reply::Value(count)) => ArcCall::spec_upgrader(count),
            (ArcCall::UpgradeTake { .. }, Reply::Swapped) => ArcCall::Done(ArcOutcome::NewStrong),
            (ArcCall::UpgradeTake { .. }, Reply::Changed(count)) => ArcCall::spec_upgrader(count),
            (ArcCall::GetMutLock, Reply::Swapped) => ArcCall::GetMutLook,
            (ArcCall::GetMutLock, _) => ArcCall::Done(ArcOutcome::Shared),
            (ArcCall::GetMutLook, Reply::Value(count)) => {
                ArcCall::GetMutUnlock { unique: count == 1 }
            },
            (ArcCall::GetMutUnlock { unique }, _) => {
                if unique {
                    ArcCall::GetMutFence
                } else {
                    ArcCall::Done(ArcOutcome::Shared)
                }
            },
            (ArcCall::GetMutFence, _) => ArcCall::Done(ArcOutcome::Unique),
            (ArcCall::IntoLock, Reply::Swapped) => ArcCall::IntoLook,
            (ArcCall::IntoLock, _) => ArcCall::DropStrong,
            (ArcCall::IntoLook, Reply::Value(count)) => {
                if count != 1 {
                    ArcCall::IntoUnlock
                } else {
                    ArcCall::IntoFence
                }
            },
            (ArcCall::IntoUnlock, _) => ArcCall::DropStrong,
            (ArcCall::IntoFence, _) => ArcCall::IntoTake,
            (ArcCall::IntoTake, _) => ArcCall::Done(ArcOutcome::Taken),
            (ArcCall::DropStrong, Reply::Value(count)) => {
                if count == 1 {
                    ArcCall::DropData
                } else {
                    ArcCall::Done(ArcOutcome::Dropped)
                }
            },
            (ArcCall::DropData, _) => ArcCall::DropWeak,
            (ArcCall::DropWeak, Reply::Value(count)) => {
                if count == 1 {
                    ArcCall::DropFence
                } else {
                    ArcCall::Done(ArcOutcome::Dropped)
                }
            },
            (ArcCall::DropFence, _) => ArcCall::Free,
            (ArcCall::Free, _) => ArcCall::Done(ArcOutcome::Dropped),
            (_, _) => self,
        }
    }

    /// What `downgrade` does with a count that it saw.
    fn downgrader(count: usize) -> (call: ArcCall)
        ensures
            call == ArcCall::spec_downgrader(count),
    {
        if count == usize::MAX {
            ArcCall::DowngradeLook
        } else if count > MAX_REF_COUNT {
            ArcCall::Done(ArcOutcome::TooMany)
        } else {
            ArcCall::DowngradeTake { count }
        }
    }

    /// What `upgrade` does with a count that it saw.
    fn upgrader(count: usize) -> (call: ArcCall)
        ensures
            call == ArcCall::spec_upgrader(count),
    {
        if count == 0 {
            ArcCall::Done(ArcOutcome::NoData)
        } else if count > MAX_REF_COUNT {
            ArcCall::Done(ArcOutcome::TooMany)
        } else {
            ArcCall::UpgradeTake { count }
        }
    }

    /// The action of the step.
    pub fn action(&self) -> (action: Option<ArcAction>)
        ensures
            action == self.spec_action(),
            action matches Some(act) ==> act.legal(),
    {
        match *self {
            ArcCall::Clone => Some(
                ArcAction::Word(ArcWord::StrongCount, Op::FetchAdd(1, Order::Relaxed)),
            ),
            ArcCall::DowngradeLook => Some(
                ArcAction::Word(ArcWord::RefCount, Op::Load(Order::Relaxed)),
            ),
            ArcCall::DowngradeTake { count } => Some(
                ArcAction::Word(
                    ArcWord::RefCount,
                    Op::CompareExchange {
                        current: count,
                        new: count.wrapping_add(1),
                        order: Order::Relaxed,
                    },
                ),
            ),
            ArcCall::UpgradeLook => Some(
                ArcAction::Word(ArcWord::StrongCount, Op::Load(Order::Relaxed)),
            ),
            ArcCall::UpgradeTake { count } => Some(
                ArcAction::Word(
                    ArcWord::StrongCount,
                    Op::CompareExchange {
                        current: count,
                        new: count.wrapping_add(1),
                        order: Order::Relaxed,
                    },
                ),
            ),
            ArcCall::GetMutLock | ArcCall::IntoLock => Some(
                ArcAction::Word(
                    ArcWord::RefCount,
                    Op::CompareExchange {
                        current: 1,
                        new: usize::MAX,
                        order: Order::Acquire,
                    },
                ),
            ),
            ArcCall::GetMutLook | ArcCall::IntoLook => Some(
                ArcAction::Word(ArcWord::StrongCount, Op::Load(Order::Relaxed)),
            ),
            ArcCall::GetMutUnlock { .. } | ArcCall::IntoUnlock => Some(
                ArcAction::Word(ArcWord::RefCount, Op::Store(1, Order::Release)),
            ),
            ArcCall::GetMutFence | ArcCall::IntoFence | ArcCall::DropFence => {
                Some(ArcAction::Fence)
            },
            ArcCall::IntoTake => Some(ArcAction::TakeData),
            ArcCall::DropStrong => Some(
                ArcAction::Word(ArcWord::StrongCount, Op::FetchSub(1, Order::AcqRel)),
            ),
            ArcCall::DropData => Some(ArcAction::DropData),
            ArcCall::DropWeak => Some(
                ArcAction::Word(ArcWord::RefCount, Op::FetchSub(1, Order::Release)),
            ),
            ArcCall::Free => Some(ArcAction::Free),
            ArcCall::Done(_) => None,
        }
    }

    /// Takes the reply to the action and moves on.
    pub fn advance(self, reply: Reply<usize>) -> (next: ArcCall)
        ensures
            next == self.spec_advance(reply),
    {
        match (self, reply) {
            (ArcCall::Clone, Reply::Value(count)) => {
                if count > MAX_REF_COUNT {
                    ArcCall::Done(ArcOutcome::TooMany)
                } else {
                    ArcCall::Done(ArcOutcome::NewStrong)
                }
            },
            (ArcCall::DowngradeLook, Reply::Value(count)) => ArcCall::downgrader(count),
            (ArcCall::DowngradeTake { .. }, Reply::Swapped) => ArcCall::Done(ArcOutcome::NewWeak),
            (ArcCall::DowngradeTake { .. }, Reply::Changed(count)) => ArcCall::downgrader(count),
            (ArcCall::UpgradeLook, Reply::Value(count)) => ArcCall::upgrader(count),
            (ArcCall::UpgradeTake { .. }, Reply::Swapped) => ArcCall::Done(ArcOutcome::NewStrong),
            (ArcCall::UpgradeTake { .. }, Reply::Changed(count)) => ArcCall::upgrader(count),
            (ArcCall::GetMutLock, Reply::Swapped) => ArcCall::GetMutLook,
            (ArcCall::GetMutLock, _) => ArcCall::Done(ArcOutcome::Shared),
            (ArcCall::GetMutLook, Reply::Value(count)) => {
                ArcCall::GetMutUnlock { unique: count == 1 }
            },
            (ArcCall::GetMutUnlock { unique }, _) => {
                if unique {
                    ArcCall::GetMutFence
                } else {
                    ArcCall::Done(ArcOutcome::Shared)
                }
            },
            (ArcCall::GetMutFence, _) => ArcCall::Done(ArcOutcome::Unique),
            (ArcCall::IntoLock, Reply::Swapped) => ArcCall::IntoLook,
            (ArcCall::IntoLock, _) => ArcCall::DropStrong,
            (ArcCall::IntoLook, Reply::Value(count)) => {
                if count != 1 {
                    ArcCall::IntoUnlock
                } else {
                    ArcCall::IntoFence
                }
            },
            (ArcCall::IntoUnlock, _) => ArcCall::DropStrong,
            (ArcCall::IntoFence, _) => ArcCall::IntoTake,
            (ArcCall::IntoTake, _) => ArcCall::Done(ArcOutcome::Taken),
            (ArcCall::DropStrong, Reply::Value(count)) => {
                if count == 1 {
                    ArcCall::DropData
                } else {
                    ArcCall::Done(ArcOutcome::Dropped)
                }
            },
            (ArcCall::DropData, _) => ArcCall::DropWeak,
            (ArcCall::DropWeak, Reply::Value(count)) => {
                if count == 1 {
                    ArcCall::DropFence
                } else {
                    ArcCall::Done(ArcOutcome::Dropped)
                }
            },
            (ArcCall::DropFence, _) => ArcCall::Free,
            (ArcCall::Free, _) => ArcCall::Done(ArcOutcome::Dropped),
            (_, _) => self,
        }
    }
}

/// Calls `std::sync::atomic::fence` with the acquire ordering. It orders memory accesses and has no
/// result, so nothing is claimed about it.
#[verifier::external_body]
pub(crate) fn acquire_fence() {
    std::sync::atomic::fence(Ordering::Acquire)
}

/// The counts of a block that many threads use at the same time. The data is kept elsewhere.
pub struct RawArc {
    strong_count: AtomicUsize,
    ref_count: AtomicUsize,
}

impl RawArc {
    /// The atomics are what the standard library's `new` returns for these values. What they hold
    /// later is up to the threads.
    pub closed spec fn made_with(self, strong_count: usize, ref_count: usize) -> bool {
        &&& call_ensures(AtomicUsize::new, (strong_count,), self.strong_count)
        &&& call_ensures(AtomicUsize::new, (ref_count,), self.ref_count)
    }

    /// The counts of a block with one strong handle.
    pub fn new() -> (raw: RawArc)
        ensures
            raw.made_with(1, 1),
    {
        RawArc { strong_count: AtomicUsize::new(1), ref_count: AtomicUsize::new(1) }
    }

    /// The action was performed on the count that it names, or the fence was, with this reply.
    pub closed spec fn performed(self, action: ArcAction, reply: Reply<usize>) -> bool {
        match action {
            ArcAction::Word(ArcWord::StrongCount, op) => op.performed(self.strong_count, reply),
            ArcAction::Word(ArcWord::RefCount, op) => op.performed(self.ref_count, reply),
            ArcAction::Fence => reply is Done && call_ensures(acquire_fence, (), ()),
            ArcAction::DropData | ArcAction::TakeData | ArcAction::Free => false,
        }
    }

    /// Performs an action on the counts. `None` says that the action is about the data or the
    /// block.
    pub fn perform(&self, action: ArcAction) -> (reply: Option<Reply<usize>>)
        requires
            action.legal(),
        ensures
            reply is None <==> action is DropData || action is TakeData || action is Free,
            reply matches Some(rep) ==> self.performed(action, rep) && action.fits(rep),
    {
        match action {
            ArcAction::Word(ArcWord::StrongCount, op) => Some(op.apply_atomic(&self.strong_count)),
            ArcAction::Word(ArcWord::RefCount, op) => Some(op.apply_atomic(&self.ref_count)),
            ArcAction::Fence => {
                acquire_fence();
                Some(Reply::Done)
            },
            ArcAction::DropData | ArcAction::TakeData | ArcAction::Free => None,
        }
    }
}

/// A block: the data and the counts of its handles.
///
/// The value is the state that the handles share. Calls on the handles follow each other.
pub struct ArcInner<T> {
    block_id: u64,
    strong_count: usize,
    ref_count: usize,
    data: Option<T>,
    freed: bool,
}

/// What a block is, to those who use it.
pub struct ArcView<T> {
    /// The identity of the block.
    pub id: u64,
    /// The number of strong handles.
    pub strong_count: usize,
    /// The number of weak handles, counting the strong ones together as one.
    pub ref_count: usize,
    /// The data, while it is there.
    pub data: Option<T>,
    /// Whether the block was freed.
    pub freed: bool,
}

impl<T> View for ArcInner<T> {
    type V = ArcView<T>;

    closed spec fn view(&self) -> ArcView<T> {
        ArcView {
            id: self.block_id,
            strong_count: self.strong_count,
            ref_count: self.ref_count,
            data: self.data,
            freed: self.freed,
        }
    }
}

impl<T> ArcView<T> {
    /// A block whose counts make sense: the data is there as long as there are strong handles, and
    /// the block as long as there are handles of any kind.
    pub open spec fn wf(self) -> bool {
        &&& self.strong_count > 0 ==> self.ref_count > 0
        &&& self.strong_count > 0 <==> self.data is Some
        &&& self.ref_count > 0 <==> !self.freed
        &&& self.ref_count < usize::MAX
    }

    /// The value of a count.
    pub open spec fn get(self, word: ArcWord) -> usize {
        match word {
            ArcWord::StrongCount => self.strong_count,
            ArcWord::RefCount => self.ref_count,
        }
    }

    /// The block with another value of a count.
    pub open spec fn set(self, word: ArcWord, value: usize) -> ArcView<T> {
        match word {
            ArcWord::StrongCount => ArcView { strong_count: value, ..self },
            ArcWord::RefCount => ArcView { ref_count: value, ..self },
        }
    }

    /// The only handle of the block is a strong one.
    pub open spec fn is_unique(self) -> bool {
        self.strong_count == 1 && self.ref_count == 1
    }

    /// The block with a weak handle less: without handles it is freed.
    pub open spec fn weak_dropped(self) -> ArcView<T> {
        ArcView {
            ref_count: self.ref_count.wrapping_sub(1),
            freed: self.freed || self.ref_count == 1,
            ..self
        }
    }

    /// The block with a strong handle less: without strong handles the data is dropped, and the
    /// weak handle that they count as.
    pub open spec fn strong_dropped(self) -> ArcView<T> {
        let fewer = ArcView { strong_count: self.strong_count.wrapping_sub(1), ..self };
        if self.strong_count == 1 {
            ArcView { data: None, ..fewer }.weak_dropped()
        } else {
            fewer
        }
    }

    /// The block after the data was moved out. The counts are left as they are found in the freed
    /// block.
    pub open spec fn taken(self) -> ArcView<T> {
        ArcView { ref_count: usize::MAX, data: None, freed: true, ..self }
    }
}

impl ArcCall {
    /// The block, the call and the data in hand after all the steps that the call can take alone:
    /// it is over then. A `downgrade` waits for ever while the count of weak handles is kept from
    /// changing.
    pub open spec fn alone<T>(self, block: ArcView<T>, hand: Option<T>) -> (
        ArcView<T>,
        ArcCall,
        Option<T>,
    ) {
        match self {
            ArcCall::Clone => (
                ArcView { strong_count: block.strong_count.wrapping_add(1), ..block },
                if block.strong_count > MAX_REF_COUNT {
                    ArcCall::Done(ArcOutcome::TooMany)
                } else {
                    ArcCall::Done(ArcOutcome::NewStrong)
                },
                hand,
            ),
            ArcCall::DowngradeLook => block.downgrades(hand),
            ArcCall::DowngradeTake { count } =>
                if block.ref_count == count {
                    (
                        ArcView { ref_count: count.wrapping_add(1), ..block },
                        ArcCall::Done(ArcOutcome::NewWeak),
                        hand,
                    )
                } else {
                    block.downgrades(hand)
                },
            ArcCall::UpgradeLook => block.upgrades(hand),
            ArcCall::UpgradeTake { count } =>
                if block.strong_count == count {
                    (
                        ArcView { strong_count: count.wrapping_add(1), ..block },
                        ArcCall::Done(ArcOutcome::NewStrong),
                        hand,
                    )
                } else {
                    block.upgrades(hand)
                },
            ArcCall::GetMutLock =>
                if block.is_unique() {
                    (block, ArcCall::Done(ArcOutcome::Unique), hand)
                } else {
                    (block, ArcCall::Done(ArcOutcome::Shared), hand)
                },
            ArcCall::GetMutLook => (
                ArcView { ref_count: 1, ..block },
                ArcCall::Done(
                    if block.strong_count == 1 {
                        ArcOutcome::Unique
                    } else {
                        ArcOutcome::Shared
                    },
                ),
                hand,
            ),
            ArcCall::GetMutUnlock { unique } => (
                ArcView { ref_count: 1, ..block },
                ArcCall::Done(
                    if unique {
                        ArcOutcome::Unique
                    } else {
                        ArcOutcome::Shared
                    },
                ),
                hand,
            ),
            ArcCall::GetMutFence => (block, ArcCall::Done(ArcOutcome::Unique), hand),
            ArcCall::IntoLock =>
                if block.is_unique() {
                    (block.taken(), ArcCall::Done(ArcOutcome::Taken), block.data)
                } else {
                    (block.strong_dropped(), ArcCall::Done(ArcOutcome::Dropped), hand)
                },
            ArcCall::IntoLook =>
                if block.strong_count == 1 {
                    (
                        ArcView { data: None, freed: true, ..block },
                        ArcCall::Done(ArcOutcome::Taken),
                        block.data,
                    )
                } else {
                    (
                        ArcView { ref_count: 1, ..block }.strong_dropped(),
                        ArcCall::Done(ArcOutcome::Dropped),
                        hand,
                    )
                },
            ArcCall::IntoUnlock => (
                ArcView { ref_count: 1, ..block }.strong_dropped(),
                ArcCall::Done(ArcOutcome::Dropped),
                hand,
            ),
            ArcCall::IntoFence | ArcCall::IntoTake => (
                ArcView { data: None, freed: true, ..block },
                ArcCall::Done(ArcOutcome::Taken),
                block.data,
            ),
            ArcCall::DropStrong => (
                block.strong_dropped(),
                ArcCall::Done(ArcOutcome::Dropped),
                hand,
            ),
            ArcCall::DropData => (
                ArcView { data: None, ..block }.weak_dropped(),
                ArcCall::Done(ArcOutcome::Dropped),
                hand,
            ),
            ArcCall::DropWeak => (
                block.weak_dropped(),
                ArcCall::Done(ArcOutcome::Dropped),
                hand,
            ),
            ArcCall::DropFence | ArcCall::Free => (
                ArcView { freed: true, ..block },
                ArcCall::Done(ArcOutcome::Dropped),
                hand,
            ),
            ArcCall::Done(_) => (block, self, hand),
        }
    }

    /// A bound on the steps that the call can take alone.
    spec fn steps_left<T>(self, block: ArcView<T>) -> int {
        match self {
            ArcCall::DowngradeLook | ArcCall::UpgradeLook => 10,
            ArcCall::DowngradeTake { count } => if block.ref_count == count {
                1
            } else {
                5
            },
            ArcCall::UpgradeTake { count } => if block.strong_count == count {
                1
            } else {
                5
            },
            ArcCall::GetMutLock => 4,
            ArcCall::GetMutLook => 3,
            ArcCall::GetMutUnlock { .. } => 2,
            ArcCall::GetMutFence | ArcCall::Clone => 1,
            ArcCall::IntoLock => 20,
            ArcCall::IntoLook => 19,
            ArcCall::IntoUnlock => 18,
            ArcCall::IntoFence => 2,
            ArcCall::IntoTake => 1,
            ArcCall::DropStrong => 5,
            ArcCall::DropData => 4,
            ArcCall::DropWeak => 3,
            ArcCall::DropFence => 2,
            ArcCall::Free => 1,
            ArcCall::Done(_) => 0,
        }
    }
}

impl<T> ArcView<T> {
    /// What `downgrade` comes to alone, unless it waits.
    pub open spec fn downgrades(self, hand: Option<T>) -> (ArcView<T>, ArcCall, Option<T>) {
        if self.ref_count > MAX_REF_COUNT {
            (self, ArcCall::Done(ArcOutcome::TooMany), hand)
        } else {
            (
                ArcView { ref_count: (self.ref_count + 1) as usize, ..self },
                ArcCall::Done(ArcOutcome::NewWeak),
                hand,
            )
        }
    }

    /// What `upgrade` comes to alone.
    pub open spec fn upgrades(self, hand: Option<T>) -> (ArcView<T>, ArcCall, Option<T>) {
        if self.strong_count == 0 {
            (self, ArcCall::Done(ArcOutcome::NoData), hand)
        } else if self.strong_count > MAX_REF_COUNT {
            (self, ArcCall::Done(ArcOutcome::TooMany), hand)
        } else {
            (
                ArcView { strong_count: (self.strong_count + 1) as usize, ..self },
                ArcCall::Done(ArcOutcome::NewStrong),
                hand,
            )
        }
    }
}

impl<T> ArcInner<T> {
    /// Performs an action. The data that is moved out comes into the hand.
    fn perform(&mut self, action: ArcAction, hand: &mut Option<T>) -> (reply: Reply<usize>)
        ensures
            match action {
                ArcAction::Word(word, op) => {
                    let effect = op.effect(old(self)@.get(word));
                    &&& final(self)@ == old(self)@.set(word, effect.0)
                    &&& reply == effect.1
                    &&& *final(hand) == *old(hand)
                },
                ArcAction::Fence => {
                    &&& final(self)@ == old(self)@
                    &&& reply is Done
                    &&& *final(hand) == *old(hand)
                },
                ArcAction::DropData => {
                    &&& final(self)@ == (ArcView { data: None, ..old(self)@ })
                    &&& reply is Done
                    &&& *final(hand) == *old(hand)
                },
                ArcAction::TakeData => {
                    &&& final(self)@ == (ArcView { data: None, freed: true, ..old(self)@ })
                    &&& reply is Done
                    &&& *final(hand) == old(self)@.data
                },
                ArcAction::Free => {
                    &&& final(self)@ == (ArcView { freed: true, ..old(self)@ })
                    &&& reply is Done
                    &&& *final(hand) == *old(hand)
                },
            },
    {
        match action {
            ArcAction::Word(ArcWord::StrongCount, op) => op.apply(&mut self.strong_count),
            ArcAction::Word(ArcWord::RefCount, op) => op.apply(&mut self.ref_count),
            ArcAction::Fence => Reply::Done,
            ArcAction::DropData => {
                self.data = None;
                Reply::Done
            },
            ArcAction::TakeData => {
                *hand = self.data.take();
                self.freed = true;
                Reply::Done
            },
            ArcAction::Free => {
                self.freed = true;
                Reply::Done
            },
        }
    }

    /// Lets a call take steps until it is over.
    #[verifier::rlimit(60)]
    fn run(&mut self, start: ArcCall, hand: &mut Option<T>) -> (end: ArcCall)
        requires
            start is DowngradeLook ==> old(self)@.ref_count != usize::MAX,
            !(start is DowngradeTake),
        ensures
            (final(self)@, end, *final(hand)) == start.alone(old(self)@, *old(hand)),
            end is Done,
    {
        let mut call = start;
        loop
            invariant
                call is DowngradeLook || call is DowngradeTake ==> self@.ref_count != usize::MAX,
                call.alone(self@, *hand) == start.alone(old(self)@, *old(hand)),
            decreases call.steps_left(self@),
        {
            match call.action() {
                None => {
                    return call;
                },
                Some(action) => {
                    let reply = self.perform(action, hand);
                    call = call.advance(reply);
                },
            }
        }
    }
}

/// A strong handle of a block: it keeps the data.
#[derive(Debug)]
pub struct Arc {
    block_id: u64,
}

impl View for Arc {
    type V = u64;

    /// The identity of the block.
    closed spec fn view(&self) -> u64 {
        self.block_id
    }
}

/// A weak handle of a block: it keeps the block.
#[derive(Debug)]
pub struct Weak {
    block_id: u64,
}

impl View for Weak {
    type V = u64;

    /// The identity of the block.
    closed spec fn view(&self) -> u64 {
        self.block_id
    }
}

impl Arc {
    /// A block with this data, and its first handle.
    pub fn new<T>(ids: &mut Identities, data: T) -> (res: (ArcInner<T>, Arc))
        ensures
            res.0@ == (ArcView {
                id: old(ids)@,
                strong_count: 1,
                ref_count: 1,
                data: Some(data),
                freed: false,
            }),
            res.0@.wf(),
            res.1@ == res.0@.id,
            final(ids)@ == old(ids)@.wrapping_add(1),
    {
        let block_id: u64 = ids.fresh();
        (
            ArcInner { block_id, strong_count: 1, ref_count: 1, data: Some(data), freed: false },
            Arc { block_id },
        )
    }

    /// The data.
    pub fn deref<'a, T>(&self, block: &'a ArcInner<T>) -> (data: &'a T)
        requires
            self@ == block@.id,
            block@.wf(),
            block@.strong_count > 0,
        ensures
            Some(*data) == block@.data,
    {
        match &block.data {
            Some(data) => data,
            None => vstd::pervasive::unreached(),
        }
    }

    /// A weak handle for the same block.
    pub fn downgrade<T>(&self, block: &mut ArcInner<T>) -> (weak: Weak)
        requires
            self@ == old(block)@.id,
            old(block)@.wf(),
            old(block)@.strong_count > 0,
            old(block)@.ref_count <= MAX_REF_COUNT,
        ensures
            final(block)@.wf(),
            final(block)@ == (ArcView {
                ref_count: (old(block)@.ref_count + 1) as usize,
                ..old(block)@
            }),
            weak@ == self@,
    {
        let mut hand: Option<T> = None;
        let _end = block.run(ArcCall::DowngradeLook, &mut hand);
        Weak { block_id: self.block_id }
    }

    /// Another strong handle for the same block.
    pub fn clone<T>(this: &Self, block: &mut ArcInner<T>) -> (arc: Arc)
        requires
            this@ == old(block)@.id,
            old(block)@.wf(),
            old(block)@.strong_count > 0,
            old(block)@.strong_count <= MAX_REF_COUNT,
        ensures
            final(block)@.wf(),
            final(block)@ == (ArcView {
                strong_count: (old(block)@.strong_count + 1) as usize,
                ..old(block)@
            }),
            arc@ == this@,
    {
        let mut hand: Option<T> = None;
        let _end = block.run(ArcCall::Clone, &mut hand);
        Arc { block_id: this.block_id }
    }

    /// The data, to be changed, if this handle is the only one of its block.
    pub fn get_mut<'a, T>(&mut self, block: &'a mut ArcInner<T>) -> (res: Option<&'a mut T>)
        requires
            old(self)@ == old(block)@.id,
            old(block)@.wf(),
            old(block)@.strong_count > 0,
        ensures
            match res {
                Some(data) => {
                    &&& old(block)@.is_unique()
                    &&& Some(*data) == old(block)@.data
                    &&& final(block)@ == (ArcView { data: Some(*final(data)), ..old(block)@ })
                },
                None => !old(block)@.is_unique() && final(block)@ == old(block)@,
            },
            final(block)@.wf(),
            final(self)@ == old(self)@,
    {
        let mut hand: Option<T> = None;
        let end = block.run(ArcCall::GetMutLock, &mut hand);
        match end {
            ArcCall::Done(ArcOutcome::Unique) => match &mut block.data {
                Some(data) => Some(data),
                None => vstd::pervasive::unreached(),
            },
            _ => None,
        }
    }

    /// Gives up the handle. The data comes back if it was the only handle of its block; otherwise
    /// the handle is dropped.
    pub fn into_inner<T>(self, block: &mut ArcInner<T>) -> (res: Option<T>)
        requires
            self@ == old(block)@.id,
            old(block)@.wf(),
            old(block)@.strong_count > 0,
        ensures
            if old(block)@.is_unique() {
                &&& res == old(block)@.data
                &&& res is Some
                &&& final(block)@ == old(block)@.taken()
            } else {
                &&& res is None
                &&& final(block)@ == old(block)@.strong_dropped()
                &&& final(block)@.wf()
            },
    {
        let mut hand: Option<T> = None;
        let _end = block.run(ArcCall::IntoLock, &mut hand);
        hand
    }

    /// Gives up the handle. The data is dropped with the last strong handle.
    pub fn release<T>(self, block: &mut ArcInner<T>)
        requires
            self@ == old(block)@.id,
            old(block)@.wf(),
            old(block)@.strong_count > 0,
        ensures
            final(block)@ == old(block)@.strong_dropped(),
            final(block)@.wf(),
    {
        let mut hand: Option<T> = None;
        let _end = block.run(ArcCall::DropStrong, &mut hand);
    }
}

impl Weak {
    /// A strong handle for the same block, if the data is still there.
    pub fn upgrade<T>(&self, block: &mut ArcInner<T>) -> (res: Option<Arc>)
        requires
            self@ == old(block)@.id,
            old(block)@.wf(),
            old(block)@.strong_count <= MAX_REF_COUNT,
        ensures
            final(block)@.wf(),
            res is Some <==> old(block)@.strong_count > 0,
            res matches Some(arc) ==> arc@ == self@,
            final(block)@ == if old(block)@.strong_count > 0 {
                ArcView { strong_count: (old(block)@.strong_count + 1) as usize, ..old(block)@ }
            } else {
                old(block)@
            },
    {
        let mut hand: Option<T> = None;
        match block.run(ArcCall::UpgradeLook, &mut hand) {
            ArcCall::Done(ArcOutcome::NewStrong) => Some(Arc { block_id: self.block_id }),
            _ => None,
        }
    }

    /// Gives up the handle. The block is freed with the last handle.
    pub fn release<T>(self, block: &mut ArcInner<T>)
        requires
            self@ == old(block)@.id,
            old(block)@.wf(),
            old(block)@.ref_count > if old(block)@.strong_count > 0 {
                1int
            } else {
                0
            },
        ensures
            final(block)@ == old(block)@.weak_dropped(),
            final(block)@.wf(),
    {
        let mut hand: Option<T> = None;
        let _end = block.run(ArcCall::DropWeak, &mut hand);
    }
}

impl RawArc {
    /// The atomic that holds the number of strong handles.
    pub closed spec fn strong_atomic(self) -> AtomicUsize {
        self.strong_count
    }

    /// The atomic that holds the number of weak handles.
    pub closed spec fn weak_atomic(self) -> AtomicUsize {
        self.ref_count
    }
}

/// The fence that orders memory was made.
pub closed spec fn fenced() -> bool {
    call_ensures(acquire_fence, (), ())
}

/// Each count is held by its own atomic, which starts at one; an action on a count is performed on
/// that atomic and on no other, and a fence is a fence.
pub proof fn law_every_count_has_its_atomic(
    made: RawArc,
    raw: RawArc,
    action: ArcAction,
    reply: Reply<usize>,
)
    requires
        call_ensures(RawArc::new, (), made),
        call_requires(RawArc::perform, (&raw, action)),
        call_ensures(RawArc::perform, (&raw, action), Some(reply)),
    ensures
        call_ensures(AtomicUsize::new, (1usize,), made.strong_atomic()),
        call_ensures(AtomicUsize::new, (1usize,), made.weak_atomic()),
        action matches ArcAction::Word(ArcWord::StrongCount, op) ==> op.performed(
            raw.strong_atomic(),
            reply,
        ),
        action matches ArcAction::Word(ArcWord::RefCount, op) ==> op.performed(
            raw.weak_atomic(),
            reply,
        ),
        action is Fence ==> fenced(),
{
}

} // verus!
