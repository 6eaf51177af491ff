//! What the handles of an [`arc`](crate::arc) are for.

use crate::arc::{
    Arc, ArcAction, ArcCall, ArcInner, ArcOutcome, ArcView, ArcWord, RawArc, Weak, MAX_REF_COUNT,
};
use crate::interleaving;
use crate::utils::mutex_common::Identities;
use crate::word::{Op, Order, Reply};
use vstd::prelude::*;

verus! {

/// How many weak handles there are, the strong ones not counted.
pub open spec fn weak_handles<T>(block: ArcView<T>) -> int {
    if block.strong_count > 0 {
        block.ref_count - 1
    } else {
        block.ref_count as int
    }
}

/// A new block has one strong handle and no weak one, and the handle shows the data.
pub proof fn law_new_handle_is_the_only_one<T>(
    ids: &mut Identities,
    data: T,
    made: (ArcInner<T>, Arc),
    shown: T,
    handle: &mut Arc,
    block: &mut ArcInner<T>,
    res: Option<&mut T>,
)
    requires
        call_ensures(Arc::new::<T>, (ids, data), made),
        call_ensures(Arc::deref::<T>, (&made.1, &made.0), &shown),
        *old(handle) == made.1,
        *old(block) == made.0,
        call_ensures(Arc::get_mut::<T>, (handle, block), res),
    ensures
        made.1@ == made.0@.id,
        made.0@.id == old(ids)@,
        final(ids)@ != old(ids)@,
        made.0@.strong_count == 1,
        weak_handles(made.0@) == 0,
        !made.0@.freed,
        shown == data,
        res is Some,
{
}

/// A handle shows the data that is in its block.
pub proof fn law_handles_show_the_data<T>(handle: Arc, block: ArcInner<T>, shown: T)
    requires
        handle@ == block@.id,
        block@.wf(),
        block@.strong_count > 0,
        call_ensures(Arc::deref::<T>, (&handle, &block), &shown),
    ensures
        block@.data == Some(shown),
{
}

/// A clone is one more strong handle of the same block, and nothing else. When it is given up, the
/// block is as it was.
pub proof fn law_clone_is_one_more_handle<T>(
    handle: Arc,
    cloned: &mut ArcInner<T>,
    another: Arc,
    released: &mut ArcInner<T>,
)
    requires
        handle@ == old(cloned)@.id,
        old(cloned)@.wf(),
        0 < old(cloned)@.strong_count <= MAX_REF_COUNT,
        call_ensures(Arc::clone::<T>, (&handle, cloned), another),
        *old(released) == *final(cloned),
        call_ensures(Arc::release::<T>, (another, released), ()),
    ensures
        another@ == handle@,
        final(cloned)@.strong_count == old(cloned)@.strong_count + 1,
        weak_handles(final(cloned)@) == weak_handles(old(cloned)@),
        final(cloned)@.data == old(cloned)@.data,
        final(cloned)@.id == old(cloned)@.id,
        final(released)@ == old(cloned)@,
{
}

/// A downgrade is one more weak handle of the same block, and nothing else. When it is given up,
/// the block is as it was.
pub proof fn law_downgrade_is_one_more_weak_handle<T>(
    handle: Arc,
    downgraded: &mut ArcInner<T>,
    weak: Weak,
    released: &mut ArcInner<T>,
)
    requires
        handle@ == old(downgraded)@.id,
        old(downgraded)@.wf(),
        old(downgraded)@.strong_count > 0,
        old(downgraded)@.ref_count <= MAX_REF_COUNT,
        call_ensures(Arc::downgrade::<T>, (&handle, downgraded), weak),
        *old(released) == *final(downgraded),
        call_ensures(Weak::release::<T>, (weak, released), ()),
    ensures
        weak@ == handle@,
        weak_handles(final(downgraded)@) == weak_handles(old(downgraded)@) + 1,
        final(downgraded)@.strong_count == old(downgraded)@.strong_count,
        final(downgraded)@.data == old(downgraded)@.data,
        final(downgraded)@.id == old(downgraded)@.id,
        final(released)@ == old(downgraded)@,
{
}

/// An upgrade gives a strong handle of the same block exactly while there is a strong handle, and
/// so the data. It is one more strong handle then, and nothing else; otherwise nothing changes.
pub proof fn law_upgrade_succeeds_while_the_data_is_there<T>(
    weak: Weak,
    block: &mut ArcInner<T>,
    res: Option<Arc>,
)
    requires
        weak@ == old(block)@.id,
        old(block)@.wf(),
        old(block)@.strong_count <= MAX_REF_COUNT,
        call_ensures(Weak::upgrade::<T>, (&weak, block), res),
    ensures
        res is Some <==> old(block)@.data is Some,
        res is Some <==> old(block)@.strong_count > 0,
        res matches Some(handle) ==> {
            &&& handle@ == weak@
            &&& final(block)@.strong_count == old(block)@.strong_count + 1
            &&& weak_handles(final(block)@) == weak_handles(old(block)@)
            &&& final(block)@.data == old(block)@.data
            &&& final(block)@.id == old(block)@.id
            &&& final(block)@.freed == old(block)@.freed
        },
        res is None ==> final(block)@ == old(block)@,
{
}

/// A strong handle that is given up leaves the data while there are others. With the last one the
/// data goes, and a weak handle finds nothing any more; the block stays for the weak handles, and
/// goes with the strong one if there are none.
pub proof fn law_data_goes_with_the_last_strong_handle<T>(
    handle: Arc,
    block: &mut ArcInner<T>,
    weak: Weak,
    upgraded: &mut ArcInner<T>,
    res: Option<Arc>,
)
    requires
        handle@ == old(block)@.id,
        weak@ == old(block)@.id,
        old(block)@.wf(),
        0 < old(block)@.strong_count <= MAX_REF_COUNT,
        call_ensures(Arc::release::<T>, (handle, block), ()),
        *old(upgraded) == *final(block),
        call_ensures(Weak::upgrade::<T>, (&weak, upgraded), res),
    ensures
        final(block)@.strong_count == old(block)@.strong_count - 1,
        weak_handles(final(block)@) == weak_handles(old(block)@),
        old(block)@.strong_count > 1 ==> final(block)@.data == old(block)@.data,
        old(block)@.strong_count == 1 ==> final(block)@.data is None,
        final(block)@.freed <==> old(block)@.strong_count == 1 && weak_handles(old(block)@) == 0,
        final(block)@.id == old(block)@.id,
        res is Some <==> old(block)@.strong_count > 1,
{
}

/// A weak handle that is given up leaves the data alone. The block goes with the last handle of
/// either kind.
pub proof fn law_block_goes_with_the_last_handle<T>(weak: Weak, block: &mut ArcInner<T>)
    requires
        weak@ == old(block)@.id,
        old(block)@.wf(),
        weak_handles(old(block)@) > 0,
        call_ensures(Weak::release::<T>, (weak, block), ()),
    ensures
        weak_handles(final(block)@) == weak_handles(old(block)@) - 1,
        final(block)@.strong_count == old(block)@.strong_count,
        final(block)@.data == old(block)@.data,
        final(block)@.id == old(block)@.id,
        final(block)@.freed <==> old(block)@.strong_count == 0 && weak_handles(old(block)@) == 1,
{
}

/// The data can be changed through a handle exactly if it is the only one of either kind. What is
/// changed is the data, and nothing else; other handles change nothing.
pub proof fn law_only_handle_changes_the_data<T>(
    handle: &mut Arc,
    block: &mut ArcInner<T>,
    res: Option<&mut T>,
)
    requires
        old(handle)@ == old(block)@.id,
        old(block)@.wf(),
        old(block)@.strong_count > 0,
        call_ensures(Arc::get_mut::<T>, (handle, block), res),
    ensures
        res is Some <==> old(block)@.strong_count == 1 && weak_handles(old(block)@) == 0,
        res matches Some(data) ==> {
            &&& old(block)@.data == Some(*data)
            &&& final(block)@.data == Some(*final(data))
            &&& final(block)@.strong_count == old(block)@.strong_count
            &&& final(block)@.ref_count == old(block)@.ref_count
            &&& final(block)@.id == old(block)@.id
            &&& final(block)@.freed == old(block)@.freed
        },
        res is None ==> final(block)@ == old(block)@,
        final(handle)@ == old(handle)@,
{
}

/// The data comes back from a handle that is given up exactly if it is the only one of either kind;
/// the block goes then. Otherwise the handle is given up as any other.
pub proof fn law_only_handle_takes_the_data<T>(
    handle: Arc,
    block: &mut ArcInner<T>,
    res: Option<T>,
    same: Arc,
    released: &mut ArcInner<T>,
)
    requires
        handle@ == old(block)@.id,
        old(block)@.wf(),
        old(block)@.strong_count > 0,
        call_ensures(Arc::into_inner::<T>, (handle, block), res),
        same@ == handle@,
        *old(released) == *old(block),
        call_ensures(Arc::release::<T>, (same, released), ()),
    ensures
        res is Some <==> old(block)@.strong_count == 1 && weak_handles(old(block)@) == 0,
        res is Some ==> res == old(block)@.data && final(block)@.data is None
            && final(block)@.freed,
        res is None ==> final(block)@ == final(released)@,
{
}

/// Which call a step belongs to.
pub enum ArcKind {
    Clone,
    Downgrade,
    Upgrade,
    GetMut,
    IntoInner,
    Drop,
}

/// The steps of each call, and the ways in which it can end.
pub open spec fn is_of_kind(call: ArcCall, kind: ArcKind) -> bool {
    match kind {
        ArcKind::Clone => call is Clone || call is Done && (call->Done_0 is NewStrong
            || call->Done_0 is TooMany),
        ArcKind::Downgrade => call is DowngradeLook || call is DowngradeTake || call is Done && (
        call->Done_0 is NewWeak || call->Done_0 is TooMany),
        ArcKind::Upgrade => call is UpgradeLook || call is UpgradeTake || call is Done && (
        call->Done_0 is NewStrong || call->Done_0 is NoData || call->Done_0 is TooMany),
        ArcKind::GetMut => call is GetMutLock || call is GetMutLook || call is GetMutUnlock
            || call is GetMutFence || call is Done && (call->Done_0 is Unique
            || call->Done_0 is Shared),
        ArcKind::IntoInner => call is IntoLock || call is IntoLook || call is IntoUnlock
            || call is IntoFence || call is IntoTake || call is DropStrong || call is DropData
            || call is DropWeak || call is DropFence || call is Free || call is Done && (
        call->Done_0 is Taken || call->Done_0 is Dropped),
        ArcKind::Drop => call is DropStrong || call is DropData || call is DropWeak
            || call is DropFence || call is Free || call is Done && call->Done_0 is Dropped,
    }
}

/// Every step leads to a step of the same call, or to one of its ends, whatever the other handles
/// do.
pub proof fn law_calls_keep_their_kind(
    call: ArcCall,
    kind: ArcKind,
    reply: Reply<usize>,
    next: ArcCall,
)
    requires
        is_of_kind(call, kind),
        call_ensures(ArcCall::advance, (call, reply), next),
    ensures
        is_of_kind(next, kind),
{
}

/// A call that is over takes no step, and every other call does.
pub proof fn law_calls_go_on_until_they_are_over(call: ArcCall, action: Option<ArcAction>)
    requires
        call_ensures(ArcCall::action, (&call,), action),
    ensures
        action is None <==> call is Done,
{
}

/// What one step does among handles that interleave. A strong handle is counted exactly in the step
/// in which a call gets it, and one that comes of an upgrade only where there is one already; a
/// weak handle is counted exactly in the step in which a call gets it. A call is told that the data
/// is gone exactly where it sees no strong handle, that there are too many handles only where it
/// sees that, and that the handle is not the only one only where it sees another one. In every
/// other case it goes on.
pub proof fn law_handles_are_counted_in_one_step<T>(
    call: ArcCall,
    action: ArcAction,
    block: ArcView<T>,
    after: ArcView<T>,
    reply: Reply<usize>,
    next: ArcCall,
)
    requires
        call_ensures(ArcCall::action, (&call,), Some(action)),
        interleaving::arc::possible(block, action, after, reply),
        call_ensures(ArcCall::advance, (call, reply), next),
        call matches ArcCall::UpgradeTake { count } ==> 0 < count <= MAX_REF_COUNT,
        call matches ArcCall::DowngradeTake { count } ==> count <= MAX_REF_COUNT,
        block.strong_count < usize::MAX,
        call is DropStrong ==> block.strong_count > 0,
        call is DropWeak ==> block.ref_count > 0,
    ensures
        next == ArcCall::Done(ArcOutcome::NewStrong) ==> {
            &&& after.strong_count == block.strong_count + 1
            &&& call is Clone || block.strong_count > 0
        },
        after.strong_count > block.strong_count ==> next == ArcCall::Done(ArcOutcome::NewStrong)
            || call is Clone,
        after.strong_count < block.strong_count <==> call is DropStrong,
        call is DropStrong ==> after.strong_count == block.strong_count - 1,
        next == ArcCall::Done(ArcOutcome::NewWeak) ==> after.ref_count == block.ref_count + 1,
        after.ref_count != block.ref_count ==> {
            ||| next == ArcCall::Done(ArcOutcome::NewWeak)
            ||| next is GetMutLook && after.ref_count == usize::MAX && block.ref_count == 1
            ||| next is IntoLook && after.ref_count == usize::MAX && block.ref_count == 1
            ||| call is GetMutUnlock && after.ref_count == 1
            ||| call is IntoUnlock && after.ref_count == 1
            ||| call is DropWeak && after.ref_count == block.ref_count - 1
        },
        call is GetMutUnlock || call is IntoUnlock ==> after.ref_count == 1,
        next == ArcCall::Done(ArcOutcome::NoData) <==> (call is UpgradeLook || call is UpgradeTake)
            && block.strong_count == 0,
        next == ArcCall::Done(ArcOutcome::TooMany) ==> block.strong_count > MAX_REF_COUNT
            || block.ref_count > MAX_REF_COUNT,
        (call is UpgradeLook || call is UpgradeTake) && 0 < block.strong_count <= MAX_REF_COUNT
            ==> next == ArcCall::Done(ArcOutcome::NewStrong) || next == (ArcCall::UpgradeTake {
            count: block.strong_count,
        }),
        (call is DowngradeLook || call is DowngradeTake) && block.ref_count <= MAX_REF_COUNT
            ==> next == ArcCall::Done(ArcOutcome::NewWeak) || next == (ArcCall::DowngradeTake {
            count: block.ref_count,
        }),
        (call is DowngradeLook || call is DowngradeTake) && block.ref_count == usize::MAX
            ==> next is DowngradeLook,
        next == ArcCall::Done(ArcOutcome::Shared) ==> {
            ||| call is GetMutLock && block.ref_count != 1
            ||| call == (ArcCall::GetMutUnlock { unique: false })
        },
        call is GetMutLook ==> next == (ArcCall::GetMutUnlock { unique: block.strong_count == 1 }),
        next == ArcCall::Done(ArcOutcome::Unique) ==> call is GetMutFence,
        next is GetMutFence ==> call == (ArcCall::GetMutUnlock { unique: true }),
        next is IntoFence ==> call is IntoLook && block.strong_count == 1,
        next is IntoUnlock ==> call is IntoLook && block.strong_count != 1,
        next is DropStrong ==> call is IntoUnlock || call is IntoLock && block.ref_count != 1,
        next is DropData <==> call is DropStrong && block.strong_count == 1,
        next is DropFence <==> call is DropWeak && block.ref_count == 1,
{
}

/// What becomes of the data and the block. The data is dropped only by the call that found no other
/// strong handle, and moved out only by the call that found no other handle; the block is freed
/// only by a call that found no handle left, or with the data that is moved out.
pub proof fn law_data_and_block_go_in_one_step<T>(
    call: ArcCall,
    action: ArcAction,
    block: ArcView<T>,
    after: ArcView<T>,
    reply: Reply<usize>,
    next: ArcCall,
)
    requires
        call_ensures(ArcCall::action, (&call,), Some(action)),
        interleaving::arc::possible(block, action, after, reply),
        call_ensures(ArcCall::advance, (call, reply), next),
    ensures
        after.id == block.id,
        call is DropData ==> after.data is None && next is DropWeak && after.freed == block.freed,
        call is IntoTake ==> after.data is None && after.freed && next == ArcCall::Done(
            ArcOutcome::Taken,
        ),
        !(call is DropData) && !(call is IntoTake) ==> after.data == block.data,
        call is Free ==> after.freed && next == ArcCall::Done(ArcOutcome::Dropped),
        !(call is Free) && !(call is IntoTake) ==> after.freed == block.freed,
        next is Free ==> call is DropFence,
        next is IntoTake ==> call is IntoFence,
        call is DropFence ==> next is Free,
        call is IntoFence ==> next is IntoTake,
        call is GetMutFence ==> next == ArcCall::Done(ArcOutcome::Unique),
        next == ArcCall::Done(ArcOutcome::Taken) ==> call is IntoTake,
{
}

/// What was done through a handle before it was given up is seen by the one that finds itself the
/// only one, or the last one: giving up a handle releases, and there is a fence before the data is
/// changed or moved out, or the block is freed.
pub proof fn law_handles_order_memory(call: ArcCall, action: ArcAction)
    requires
        call_ensures(ArcCall::action, (&call,), Some(action)),
    ensures
        call is DropStrong ==> action == ArcAction::Word(
            ArcWord::StrongCount,
            Op::FetchSub(1, Order::AcqRel),
        ),
        call is DropWeak ==> action == ArcAction::Word(
            ArcWord::RefCount,
            Op::FetchSub(1, Order::Release),
        ),
        call is GetMutLock || call is IntoLock ==> action == ArcAction::Word(
            ArcWord::RefCount,
            Op::CompareExchange { current: 1, new: usize::MAX, order: Order::Acquire },
        ),
        call is GetMutUnlock || call is IntoUnlock ==> action == ArcAction::Word(
            ArcWord::RefCount,
            Op::Store(1, Order::Release),
        ),
        call is GetMutFence || call is IntoFence || call is DropFence <==> action is Fence,
        call is IntoTake <==> action is TakeData,
        call is DropData <==> action is DropData,
        call is Free <==> action is Free,
{
}

/// On the atomics, an action on a count answers, and one on the data or the block does not.
pub proof fn law_counts_answer(raw: RawArc, action: ArcAction, reply: Option<Reply<usize>>)
    requires
        call_requires(RawArc::perform, (&raw, action)),
        call_ensures(RawArc::perform, (&raw, action), reply),
    ensures
        reply is Some <==> action is Word || action is Fence,
        action is Fence ==> reply == Some(Reply::<usize>::Done),
        action matches ArcAction::Word(_, op) ==> op.fits(reply->Some_0),
{
}

/// Every call can be made on a handle of its block, as long as there are no more than half of the
/// handles that can be counted.
pub proof fn law_any_handle_can_be_used<T>(
    handle: Arc,
    owned: &mut Arc,
    weak: Weak,
    block: &mut ArcInner<T>,
)
    requires
        old(block)@.wf(),
        handle@ == old(block)@.id,
        old(owned)@ == old(block)@.id,
        weak@ == old(block)@.id,
    ensures
        old(block)@.strong_count > 0 ==> {
            &&& call_requires(Arc::deref::<T>, (&handle, &*old(block)))
            &&& call_requires(Arc::get_mut::<T>, (owned, block))
            &&& call_requires(Arc::into_inner::<T>, (handle, block))
            &&& call_requires(Arc::release::<T>, (handle, block))
            &&& old(block)@.strong_count <= usize::MAX / 2 ==> call_requires(
                Arc::clone::<T>,
                (&handle, block),
            )
            &&& old(block)@.ref_count <= usize::MAX / 2 ==> call_requires(
                Arc::downgrade::<T>,
                (&handle, block),
            )
        },
        old(block)@.strong_count <= usize::MAX / 2 ==> call_requires(
            Weak::upgrade::<T>,
            (&weak, block),
        ),
        weak_handles(old(block)@) > 0 ==> call_requires(Weak::release::<T>, (weak, block)),
        MAX_REF_COUNT == usize::MAX / 2,
{
}

/// Where each step leads with what it sees: a clone is a new handle unless there were too many; the
/// check for the only handle fails where it finds another, and otherwise ends with a fence; a
/// handle that is given up is gone, with the data if it was the last strong one, and with the block
/// if it was the last one.
pub proof fn law_calls_go_by_what_they_see(
    call: ArcCall,
    count: usize,
    seen: ArcCall,
    taken: ArcCall,
    missed: ArcCall,
    done: ArcCall,
)
    requires
        call_ensures(ArcCall::advance, (call, Reply::Value(count)), seen),
        call_ensures(ArcCall::advance, (call, Reply::Swapped), taken),
        call_ensures(ArcCall::advance, (call, Reply::Changed(count)), missed),
        call_ensures(ArcCall::advance, (call, Reply::Done), done),
    ensures
        call is Clone ==> seen == ArcCall::Done(
            if count > MAX_REF_COUNT {
                ArcOutcome::TooMany
            } else {
                ArcOutcome::NewStrong
            },
        ),
        call is DowngradeLook ==> {
            &&& count == usize::MAX ==> seen is DowngradeLook
            &&& MAX_REF_COUNT < count < usize::MAX ==> seen == ArcCall::Done(ArcOutcome::TooMany)
            &&& count <= MAX_REF_COUNT ==> seen == (ArcCall::DowngradeTake { count })
        },
        call is DowngradeTake ==> taken == ArcCall::Done(ArcOutcome::NewWeak) && {
            &&& count == usize::MAX ==> missed is DowngradeLook
            &&& MAX_REF_COUNT < count < usize::MAX ==> missed == ArcCall::Done(ArcOutcome::TooMany)
            &&& count <= MAX_REF_COUNT ==> missed == (ArcCall::DowngradeTake { count })
        },
        call is UpgradeLook ==> {
            &&& count == 0 ==> seen == ArcCall::Done(ArcOutcome::NoData)
            &&& count > MAX_REF_COUNT ==> seen == ArcCall::Done(ArcOutcome::TooMany)
            &&& 0 < count <= MAX_REF_COUNT ==> seen == (ArcCall::UpgradeTake { count })
        },
        call is UpgradeTake ==> taken == ArcCall::Done(ArcOutcome::NewStrong) && {
            &&& count == 0 ==> missed == ArcCall::Done(ArcOutcome::NoData)
            &&& count > MAX_REF_COUNT ==> missed == ArcCall::Done(ArcOutcome::TooMany)
            &&& 0 < count <= MAX_REF_COUNT ==> missed == (ArcCall::UpgradeTake { count })
        },
        call is GetMutLock ==> taken is GetMutLook && missed == ArcCall::Done(ArcOutcome::Shared),
        call is GetMutLook ==> seen == (ArcCall::GetMutUnlock { unique: count == 1 }),
        call matches ArcCall::GetMutUnlock { unique } ==> done == if unique {
            ArcCall::GetMutFence
        } else {
            ArcCall::Done(ArcOutcome::Shared)
        },
        call is IntoLock ==> taken is IntoLook && missed is DropStrong,
        call is IntoLook ==> seen == if count == 1 {
            ArcCall::IntoFence
        } else {
            ArcCall::IntoUnlock
        },
        call is IntoUnlock ==> done is DropStrong,
        call is DropStrong ==> seen == if count == 1 {
            ArcCall::DropData
        } else {
            ArcCall::Done(ArcOutcome::Dropped)
        },
        call is DropWeak ==> seen == if count == 1 {
            ArcCall::DropFence
        } else {
            ArcCall::Done(ArcOutcome::Dropped)
        },
        call is Done ==> seen == call && taken == call && missed == call && done == call,
{
}

} // verus!
