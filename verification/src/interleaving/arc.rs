//! Handles that share a block of an [`arc`](crate::arc).
//!
//! Here it is the handles that take steps, each in one call at a time. A call that adds a handle
//! adds it in the step that counts it. Where a `clone` finds too many handles, the process ends, so
//! no step follows.

use crate::arc::{ArcAction, ArcCall, ArcOutcome, ArcView, MAX_REF_COUNT};
use crate::interleaving;
use crate::word::Reply;
use vstd::prelude::*;

verus! {

/// Where a handle stands.
pub enum Handle {
    /// Strong, and in no call.
    Strong,
    /// Weak, and in no call.
    Weak,
    /// Strong, in a call.
    StrongCall(ArcCall),
    /// Weak, in a call.
    WeakCall(ArcCall),
    /// Strong, and its owner is changing the data after `get_mut`.
    Changing,
    /// Given up.
    Gone,
}

impl Handle {
    /// The handle keeps the data.
    pub open spec fn keeps_data(self) -> bool {
        match self {
            Handle::Strong | Handle::Changing => true,
            Handle::StrongCall(call) => !(call is DropData) && !(call is DropWeak) && !(
            call is DropFence) && !(call is Free),
            _ => false,
        }
    }

    /// The handle is a weak one and keeps the block.
    pub open spec fn is_weak(self) -> bool {
        match self {
            Handle::Weak => true,
            Handle::WeakCall(call) => !(call is DropFence) && !(call is Free),
            _ => false,
        }
    }

    /// The handle is about to drop the data.
    pub open spec fn is_dropping_data(self) -> bool {
        self == Handle::StrongCall(ArcCall::DropData)
    }

    /// The handle was the last strong one, and what the strong handles count as among the weak ones
    /// has yet to be given up.
    pub open spec fn is_last_strong(self) -> bool {
        self is StrongCall && (self->StrongCall_0 is DropData || self->StrongCall_0 is DropWeak)
    }

    /// The handle keeps others from adding weak handles.
    pub open spec fn is_locking(self) -> bool {
        match self {
            Handle::StrongCall(call) => call is GetMutLook || call is GetMutUnlock
                || call is IntoLook || call is IntoUnlock || call is IntoFence || call is IntoTake,
            _ => false,
        }
    }

    /// The handle was the last one of any kind and is about to free the block.
    pub open spec fn is_freeing(self) -> bool {
        match self {
            Handle::StrongCall(call) | Handle::WeakCall(call) => call is DropFence || call is Free,
            _ => false,
        }
    }

    /// The handle was found to be the only one.
    pub open spec fn is_sole(self) -> bool {
        match self {
            Handle::Changing => true,
            Handle::StrongCall(call) => match call {
                ArcCall::GetMutUnlock { unique } => unique,
                ArcCall::GetMutFence | ArcCall::IntoFence | ArcCall::IntoTake => true,
                _ => false,
            },
            _ => false,
        }
    }

    /// Where a strong handle stands once its call stands at `call`.
    pub open spec fn strong_at(call: ArcCall) -> Handle {
        match call {
            ArcCall::Done(ArcOutcome::Unique) => Handle::Changing,
            ArcCall::Done(ArcOutcome::Taken) | ArcCall::Done(ArcOutcome::Dropped) => Handle::Gone,
            ArcCall::Done(_) => Handle::Strong,
            _ => Handle::StrongCall(call),
        }
    }

    /// Where a weak handle stands once its call stands at `call`.
    pub open spec fn weak_at(call: ArcCall) -> Handle {
        match call {
            ArcCall::Done(ArcOutcome::Dropped) => Handle::Gone,
            ArcCall::Done(_) => Handle::Weak,
            _ => Handle::WeakCall(call),
        }
    }
}

/// The handle that there is once a call stands at `call`, beside the one that the call is on.
pub open spec fn born(call: ArcCall) -> Option<Handle> {
    match call {
        ArcCall::Done(ArcOutcome::NewStrong) => Some(Handle::Strong),
        ArcCall::Done(ArcOutcome::NewWeak) => Some(Handle::Weak),
        _ => None,
    }
}

/// What an action does to the block among handles that interleave.
pub open spec fn possible<T>(
    block: ArcView<T>,
    action: ArcAction,
    next: ArcView<T>,
    reply: Reply<usize>,
) -> bool {
    match action {
        ArcAction::Word(word, op) => {
            &&& op.possible(block.get(word), next.get(word), reply)
            &&& next == block.set(word, next.get(word))
        },
        ArcAction::Fence => next == block && reply is Done,
        ArcAction::DropData => next == ArcView { data: None, ..block } && reply is Done,
        ArcAction::TakeData => {
            &&& next == ArcView { data: None, freed: true, ..block }
            &&& reply is Done
        },
        ArcAction::Free => next == ArcView { freed: true, ..block } && reply is Done,
    }
}

/// The block and its handles.
pub struct System<T> {
    pub block: ArcView<T>,
    pub handles: Map<int, Handle>,
}

impl<T> System<T> {
    /// A new block with its first handle, `h`.
    pub open spec fn initial(self, h: int) -> bool {
        &&& self.block.strong_count == 1
        &&& self.block.ref_count == 1
        &&& self.block.data is Some
        &&& !self.block.freed
        &&& self.handles == map![h => Handle::Strong]
    }

    /// How many handles keep the data.
    pub open spec fn strong_handles(self) -> nat {
        interleaving::those(self.handles, |handle: Handle| handle.keeps_data()).len()
    }

    /// How many weak handles keep the block.
    pub open spec fn weak_handles(self) -> nat {
        interleaving::those(self.handles, |handle: Handle| handle.is_weak()).len()
    }

    spec fn dropping_data(self) -> nat {
        interleaving::those(self.handles, |handle: Handle| handle.is_dropping_data()).len()
    }

    spec fn last_strong(self) -> nat {
        interleaving::those(self.handles, |handle: Handle| handle.is_last_strong()).len()
    }

    spec fn locking(self) -> nat {
        interleaving::those(self.handles, |handle: Handle| handle.is_locking()).len()
    }

    spec fn freeing(self) -> nat {
        interleaving::those(self.handles, |handle: Handle| handle.is_freeing()).len()
    }

    /// Handle `h` moves to `to`.
    pub open spec fn moves(self, next: System<T>, h: int, to: Handle) -> bool {
        next.handles == self.handles.insert(h, to)
    }

    /// Handle `h` moves to `to` and there is another handle.
    pub open spec fn moves_and_adds(
        self,
        next: System<T>,
        h: int,
        to: Handle,
        added: Handle,
    ) -> bool {
        exists|g: int|
            !self.handles.contains_key(g) && next.handles == #[trigger] self.handles.insert(
                h,
                to,
            ).insert(g, added)
    }

    /// The call on handle `h` moves on to `call`, where the handle stands at `to`.
    pub open spec fn calls(self, next: System<T>, h: int, call: ArcCall, to: Handle) -> bool {
        match born(call) {
            Some(added) => self.moves_and_adds(next, h, to, added),
            None => self.moves(next, h, to),
        }
    }

    /// One step of handle `h`.
    pub open spec fn step(self, next: System<T>, h: int) -> bool {
        &&& self.handles.contains_key(h)
        &&& match self.handles[h] {
            Handle::Strong => {
                &&& next.block == self.block
                &&& {
                    ||| self.moves(next, h, Handle::StrongCall(ArcCall::Clone))
                    ||| self.moves(next, h, Handle::StrongCall(ArcCall::DowngradeLook))
                    ||| self.moves(next, h, Handle::StrongCall(ArcCall::GetMutLock))
                    ||| self.moves(next, h, Handle::StrongCall(ArcCall::IntoLock))
                    ||| self.moves(next, h, Handle::StrongCall(ArcCall::DropStrong))
                }
            },
            Handle::Weak => {
                &&& next.block == self.block
                &&& {
                    ||| self.moves(next, h, Handle::WeakCall(ArcCall::UpgradeLook))
                    ||| self.moves(next, h, Handle::WeakCall(ArcCall::DropWeak))
                }
            },
            Handle::Changing => {
                &&& next.block == ArcView { data: next.block.data, ..self.block }
                &&& next.block.data is Some
                &&& {
                    ||| self.moves(next, h, Handle::Changing)
                    ||| self.moves(next, h, Handle::Strong)
                }
            },
            Handle::StrongCall(call) => {
                &&& call is Clone ==> self.block.strong_count <= MAX_REF_COUNT
                &&& call.spec_action() matches Some(action) && exists|reply: Reply<usize>|
                    {
                        &&& #[trigger] possible(self.block, action, next.block, reply)
                        &&& self.calls(
                            next,
                            h,
                            call.spec_advance(reply),
                            Handle::strong_at(call.spec_advance(reply)),
                        )
                    }
            },
            Handle::WeakCall(call) => {
                &&& call.spec_action() matches Some(action) && exists|reply: Reply<usize>|
                    {
                        &&& #[trigger] possible(self.block, action, next.block, reply)
                        &&& self.calls(
                            next,
                            h,
                            call.spec_advance(reply),
                            Handle::weak_at(call.spec_advance(reply)),
                        )
                    }
            },
            Handle::Gone => false,
        }
    }

    /// What a handle may be in the middle of.
    spec fn in_order(self, h: int) -> bool {
        match self.handles[h] {
            Handle::StrongCall(call) => match call {
                ArcCall::DowngradeTake { count } => count <= MAX_REF_COUNT,
                ArcCall::UpgradeLook | ArcCall::UpgradeTake { .. } | ArcCall::Done(_) => false,
                _ => true,
            },
            Handle::WeakCall(call) => match call {
                ArcCall::UpgradeTake { count } => 0 < count <= MAX_REF_COUNT,
                ArcCall::UpgradeLook
                | ArcCall::DropWeak
                | ArcCall::DropFence
                | ArcCall::Free => true,
                _ => false,
            },
            _ => true,
        }
    }

    /// What every step keeps.
    spec fn inv(self) -> bool {
        &&& self.handles.dom().finite()
        &&& forall|h: int| #[trigger] self.handles.contains_key(h) ==> self.in_order(h)
        &&& forall|h: int| #[trigger]
            self.handles.contains_key(h) && self.handles[h].is_sole() ==> self.strong_handles() == 1
                && self.weak_handles() == 0
        &&& !self.block.freed ==> self.block.strong_count == self.strong_handles()
        &&& self.dropping_data() <= self.last_strong() <= 1
        &&& self.locking() <= 1
        &&& self.freeing() <= 1
        &&& self.last_strong() > 0 ==> self.strong_handles() == 0
        &&& self.locking() > 0 ==> {
            &&& self.block.ref_count == usize::MAX
            &&& self.weak_handles() == 0
            &&& self.strong_handles() > 0
        }
        &&& self.locking() == 0 && !self.block.freed ==> {
            &&& self.block.ref_count == self.weak_handles() + interleaving::one_if(
                self.strong_handles() > 0 || self.last_strong() > 0,
            )
            &&& self.block.ref_count <= MAX_REF_COUNT + 1
        }
        &&& self.freeing() > 0 || self.block.freed ==> {
            &&& self.strong_handles() == 0
            &&& self.weak_handles() == 0
            &&& self.last_strong() == 0
        }
        &&& self.freeing() > 0 ==> !self.block.freed
        &&& self.strong_handles() + self.weak_handles() + self.last_strong() + self.freeing() == 0
            ==> self.block.freed
        &&& self.block.data is Some <==> self.strong_handles() + self.dropping_data() > 0
    }
}

/// A run of the system: `states[k + 1]` comes from `states[k]` by a step of handle `who[k]`.
pub open spec fn run<T>(states: Seq<System<T>>, who: Seq<int>) -> bool {
    &&& states.len() == who.len() + 1
    &&& exists|h: int| states[0].initial(h)
    &&& forall|k: int| 0 <= k < who.len() ==> states[k].step(states[k + 1], #[trigger] who[k])
}

/// How the numbers of handles change when handle `h` moves or is added.
proof fn numbers_after<T>(s: System<T>, next: System<T>, h: int, to: Handle)
    requires
        s.handles.dom().finite(),
        next.handles == s.handles.insert(h, to),
    ensures
        ({
            let from = if s.handles.contains_key(h) {
                s.handles[h]
            } else {
                Handle::Gone
            };
            &&& next.handles.dom().finite()
            &&& next.strong_handles() == s.strong_handles() + interleaving::one_if(to.keeps_data())
                - interleaving::one_if(from.keeps_data())
            &&& next.weak_handles() == s.weak_handles() + interleaving::one_if(to.is_weak())
                - interleaving::one_if(from.is_weak())
            &&& next.dropping_data() == s.dropping_data() + interleaving::one_if(
                to.is_dropping_data(),
            ) - interleaving::one_if(from.is_dropping_data())
            &&& next.last_strong() == s.last_strong() + interleaving::one_if(to.is_last_strong())
                - interleaving::one_if(from.is_last_strong())
            &&& next.locking() == s.locking() + interleaving::one_if(to.is_locking())
                - interleaving::one_if(from.is_locking())
            &&& next.freeing() == s.freeing() + interleaving::one_if(to.is_freeing())
                - interleaving::one_if(from.is_freeing())
        }),
{
    let keeps_data = |handle: Handle| handle.keeps_data();
    let is_weak = |handle: Handle| handle.is_weak();
    let is_dropping_data = |handle: Handle| handle.is_dropping_data();
    let is_last_strong = |handle: Handle| handle.is_last_strong();
    let is_locking = |handle: Handle| handle.is_locking();
    let is_freeing = |handle: Handle| handle.is_freeing();
    if s.handles.contains_key(h) {
        interleaving::those_after_move(s.handles, h, to, keeps_data);
        interleaving::those_after_move(s.handles, h, to, is_weak);
        interleaving::those_after_move(s.handles, h, to, is_dropping_data);
        interleaving::those_after_move(s.handles, h, to, is_last_strong);
        interleaving::those_after_move(s.handles, h, to, is_locking);
        interleaving::those_after_move(s.handles, h, to, is_freeing);
    } else {
        interleaving::those_after_arrival(s.handles, h, to, keeps_data);
        interleaving::those_after_arrival(s.handles, h, to, is_weak);
        interleaving::those_after_arrival(s.handles, h, to, is_dropping_data);
        interleaving::those_after_arrival(s.handles, h, to, is_last_strong);
        interleaving::those_after_arrival(s.handles, h, to, is_locking);
        interleaving::those_after_arrival(s.handles, h, to, is_freeing);
    }
}

/// A handle is counted where it stands.
proof fn numbers_at<T>(s: System<T>, h: int)
    requires
        s.handles.dom().finite(),
        s.handles.contains_key(h),
    ensures
        s.handles[h].keeps_data() ==> s.strong_handles() > 0,
        s.handles[h].is_weak() ==> s.weak_handles() > 0,
        s.handles[h].is_dropping_data() ==> s.dropping_data() > 0,
        s.handles[h].is_last_strong() ==> s.last_strong() > 0,
        s.handles[h].is_locking() ==> s.locking() > 0,
        s.handles[h].is_freeing() ==> s.freeing() > 0,
{
    if s.handles[h].keeps_data() {
        interleaving::those_some(s.handles, h, |handle: Handle| handle.keeps_data());
    }
    if s.handles[h].is_weak() {
        interleaving::those_some(s.handles, h, |handle: Handle| handle.is_weak());
    }
    if s.handles[h].is_dropping_data() {
        interleaving::those_some(s.handles, h, |handle: Handle| handle.is_dropping_data());
    }
    if s.handles[h].is_last_strong() {
        interleaving::those_some(s.handles, h, |handle: Handle| handle.is_last_strong());
    }
    if s.handles[h].is_locking() {
        interleaving::those_some(s.handles, h, |handle: Handle| handle.is_locking());
    }
    if s.handles[h].is_freeing() {
        interleaving::those_some(s.handles, h, |handle: Handle| handle.is_freeing());
    }
}

proof fn initial_inv<T>(s: System<T>, h: int)
    requires
        s.initial(h),
    ensures
        s.inv(),
{
    let none = System { block: s.block, handles: Map::empty() };
    assert(interleaving::those(none.handles, |handle: Handle| handle.keeps_data())
        =~= Set::empty());
    assert(interleaving::those(none.handles, |handle: Handle| handle.is_weak()) =~= Set::empty());
    assert(interleaving::those(none.handles, |handle: Handle| handle.is_dropping_data())
        =~= Set::empty());
    assert(interleaving::those(none.handles, |handle: Handle| handle.is_last_strong())
        =~= Set::empty());
    assert(interleaving::those(none.handles, |handle: Handle| handle.is_locking())
        =~= Set::empty());
    assert(interleaving::those(none.handles, |handle: Handle| handle.is_freeing())
        =~= Set::empty());
    numbers_after(none, s, h, Handle::Strong);
}

/// Beside a handle that was found to be the only one, no other takes a step.
proof fn sole_is_alone<T>(s: System<T>, h: int, g: int)
    requires
        s.inv(),
        s.handles.contains_key(h),
        s.handles[h].is_sole(),
        s.handles.contains_key(g),
        g != h,
    ensures
        s.handles[g] is Gone,
{
    numbers_at(s, h);
    numbers_at(s, g);
    if s.handles[g].keeps_data() {
        interleaving::those_two(s.handles, h, g, |handle: Handle| handle.keeps_data());
    }
}

#[verifier::rlimit(60)]
proof fn step_keeps_inv<T>(s: System<T>, next: System<T>, h: int)
    requires
        s.inv(),
        s.step(next, h),
    ensures
        next.inv(),
{
    numbers_at(s, h);
    assert(s.in_order(h));
    let call = match s.handles[h] {
        Handle::StrongCall(call) | Handle::WeakCall(call) => call,
        _ => ArcCall::Free,
    };
    let strong = s.handles[h] is StrongCall;
    let reply = choose|reply: Reply<usize>|
        {
            let after = call.spec_advance(reply);
            &&& #[trigger] possible(s.block, call.spec_action().unwrap(), next.block, reply)
            &&& s.calls(
                next,
                h,
                after,
                if strong {
                    Handle::strong_at(after)
                } else {
                    Handle::weak_at(after)
                },
            )
        };
    let after = call.spec_advance(reply);
    let to = next.handles[h];
    let middle = System { block: next.block, handles: s.handles.insert(h, to) };
    numbers_after(s, middle, h, to);
    if (s.handles[h] is StrongCall || s.handles[h] is WeakCall) && born(after) is Some {
        let added = born(after).unwrap();
        let rest = if strong {
            Handle::strong_at(after)
        } else {
            Handle::weak_at(after)
        };
        let g = choose|g: int|
            !s.handles.contains_key(g) && next.handles == #[trigger] s.handles.insert(
                h,
                rest,
            ).insert(g, added);
        assert(to == rest);
        numbers_after(middle, next, g, added);
    }
    interleaving::those_fewer(
        next.handles,
        |handle: Handle| handle.is_dropping_data(),
        |handle: Handle| handle.is_last_strong(),
    );
    interleaving::those_fewer(
        next.handles,
        |handle: Handle| handle.is_locking(),
        |handle: Handle| handle.keeps_data(),
    );
    assert forall|g: int| #[trigger] next.handles.contains_key(g) implies next.in_order(g) by {
        if s.handles.contains_key(g) {
            assert(s.in_order(g));
        }
    }
    assert forall|g: int| #[trigger]
        next.handles.contains_key(g) && next.handles[g].is_sole() implies next.strong_handles() == 1
        && next.weak_handles() == 0 by {
        if s.handles.contains_key(g) && g != h {
            sole_is_alone(s, g, h);
        }
    }
}

proof fn run_keeps_inv<T>(states: Seq<System<T>>, who: Seq<int>, k: int)
    requires
        run(states, who),
        0 <= k < states.len(),
    ensures
        states[k].inv(),
    decreases k,
{
    if k > 0 {
        run_keeps_inv(states, who, k - 1);
        assert(states[k - 1].step(states[k - 1 + 1], who[k - 1]));
        step_keeps_inv(states[k - 1], states[k], who[k - 1]);
    } else {
        initial_inv(states[0], choose|h: int| states[0].initial(h));
    }
}

/// The first count is the number of strong handles.
pub proof fn law_strong_handles_are_counted<T>(states: Seq<System<T>>, who: Seq<int>, k: int)
    requires
        run(states, who),
        0 <= k < states.len(),
        !states[k].block.freed,
    ensures
        states[k].block.strong_count == states[k].strong_handles(),
{
    run_keeps_inv(states, who, k);
}

/// The second count, unless a handle keeps it from changing, is the number of weak handles, and one
/// more while there is a strong handle.
pub proof fn law_weak_handles_are_counted<T>(states: Seq<System<T>>, who: Seq<int>, k: int)
    requires
        run(states, who),
        0 <= k < states.len(),
        !states[k].block.freed,
        states[k].block.ref_count != usize::MAX,
    ensures
        states[k].strong_handles() > 0 ==> states[k].block.ref_count == states[k].weak_handles()
            + 1,
        states[k].block.ref_count >= states[k].weak_handles(),
        states[k].block.ref_count <= states[k].weak_handles() + 1,
{
    run_keeps_inv(states, who, k);
}

/// The data is there as long as there is a strong handle.
pub proof fn law_data_outlives_strong_handles<T>(
    states: Seq<System<T>>,
    who: Seq<int>,
    k: int,
    h: int,
)
    requires
        run(states, who),
        0 <= k < states.len(),
        states[k].handles.contains_key(h),
        states[k].handles[h].keeps_data(),
    ensures
        states[k].block.data is Some,
        !states[k].block.freed,
{
    run_keeps_inv(states, who, k);
    numbers_at(states[k], h);
}

/// The block is there as long as there is a handle of either kind: no step is taken on a block that
/// was freed.
pub proof fn law_block_outlives_handles<T>(
    states: Seq<System<T>>,
    who: Seq<int>,
    k: int,
    h: int,
)
    requires
        run(states, who),
        0 <= k < states.len(),
        states[k].handles.contains_key(h),
        !(states[k].handles[h] is Gone),
    ensures
        !states[k].block.freed,
{
    run_keeps_inv(states, who, k);
    numbers_at(states[k], h);
    assert(states[k].in_order(h));
}

/// While the owner of a handle changes the data, there is no other handle.
pub proof fn law_change_is_exclusive<T>(
    states: Seq<System<T>>,
    who: Seq<int>,
    k: int,
    h: int,
    g: int,
)
    requires
        run(states, who),
        0 <= k < states.len(),
        states[k].handles.contains_key(h),
        states[k].handles[h] is Changing,
        states[k].handles.contains_key(g),
        g != h,
    ensures
        states[k].handles[g] is Gone,
{
    run_keeps_inv(states, who, k);
    sole_is_alone(states[k], h, g);
}

/// The data is moved out only from under the last handle.
pub proof fn law_data_is_taken_by_the_last_handle<T>(
    states: Seq<System<T>>,
    who: Seq<int>,
    k: int,
    h: int,
    g: int,
)
    requires
        run(states, who),
        0 <= k < states.len(),
        states[k].handles.contains_key(h),
        states[k].handles[h] == Handle::StrongCall(ArcCall::IntoTake),
        states[k].handles.contains_key(g),
        g != h,
    ensures
        states[k].handles[g] is Gone,
        states[k].block.data is Some,
{
    run_keeps_inv(states, who, k);
    sole_is_alone(states[k], h, g);
    numbers_at(states[k], h);
}

/// The data leaves the block once: it is there when a handle comes to drop it, and once it has left
/// it is never there again.
pub proof fn law_data_leaves_once<T>(states: Seq<System<T>>, who: Seq<int>, k: int, later: int)
    requires
        run(states, who),
        0 <= k <= later < states.len(),
    ensures
        forall|h: int| #[trigger]
            states[k].handles.contains_key(h) && states[k].handles[h].is_dropping_data()
                ==> states[k].block.data is Some,
        states[k].block.data is None ==> states[later].block.data is None,
    decreases later,
{
    run_keeps_inv(states, who, k);
    assert forall|h: int| #[trigger]
        states[k].handles.contains_key(h) && states[k].handles[h].is_dropping_data() implies
        states[k].block.data is Some by {
        numbers_at(states[k], h);
    }
    if k < later {
        law_data_leaves_once(states, who, k, later - 1);
        assert(states[later - 1].step(states[later - 1 + 1], who[later - 1]));
        run_keeps_inv(states, who, later - 1);
        numbers_at(states[later - 1], who[later - 1]);
    }
}

/// Nothing leaks: once every handle is given up, the data has left the block and the block is
/// freed.
pub proof fn law_nothing_leaks<T>(states: Seq<System<T>>, who: Seq<int>, k: int)
    requires
        run(states, who),
        0 <= k < states.len(),
        forall|h: int| #[trigger]
            states[k].handles.contains_key(h) ==> states[k].handles[h] is Gone,
    ensures
        states[k].block.data is None,
        states[k].block.freed,
{
    run_keeps_inv(states, who, k);
    let s = states[k];
    assert(interleaving::those(s.handles, |handle: Handle| handle.keeps_data()) =~= Set::empty());
    assert(interleaving::those(s.handles, |handle: Handle| handle.is_weak()) =~= Set::empty());
    assert(interleaving::those(s.handles, |handle: Handle| handle.is_last_strong())
        =~= Set::empty());
    assert(interleaving::those(s.handles, |handle: Handle| handle.is_freeing()) =~= Set::empty());
}

/// The handles stay with their block: whatever they do, the block keeps the identity by which they
/// know it.
pub proof fn law_identity_is_kept<T>(states: Seq<System<T>>, who: Seq<int>, k: int)
    requires
        run(states, who),
        0 <= k < states.len(),
    ensures
        states[k].block.id == states[0].block.id,
    decreases k,
{
    if k > 0 {
        law_identity_is_kept(states, who, k - 1);
        assert(states[k - 1].step(states[k - 1 + 1], who[k - 1]));
    }
}

/// While there is a strong handle, an upgrade does not find the data gone: when it ends, there is a
/// new strong handle. It is a step of the system in which the call ends with anything else only
/// where there are no strong handles, or too many.
pub proof fn law_upgrade_succeeds_beside_a_strong_handle<T>(
    states: Seq<System<T>>,
    who: Seq<int>,
    k: int,
    g: int,
    call: ArcCall,
)
    requires
        run(states, who),
        0 <= k < who.len(),
        states[k].handles[who[k]] == Handle::WeakCall(call),
        call is UpgradeLook || call is UpgradeTake,
        states[k + 1].handles[who[k]] is Weak,
        states[k].handles.contains_key(g),
        states[k].handles[g].keeps_data(),
        states[k].strong_handles() <= MAX_REF_COUNT,
    ensures
        states[k + 1].strong_handles() == states[k].strong_handles() + 1,
        exists|n: int|
            {
                &&& !states[k].handles.contains_key(n)
                &&& #[trigger] states[k + 1].handles.contains_key(n)
                &&& states[k + 1].handles[n] is Strong
            },
{
    run_keeps_inv(states, who, k);
    run_keeps_inv(states, who, k + 1);
    let s = states[k];
    let next = states[k + 1];
    let h = who[k];
    assert(s.step(next, h));
    assert(s.in_order(h));
    numbers_at(s, g);
    numbers_at(s, h);
    let reply = choose|reply: Reply<usize>|
        {
            &&& #[trigger] possible(s.block, call.spec_action().unwrap(), next.block, reply)
            &&& s.calls(
                next,
                h,
                call.spec_advance(reply),
                Handle::weak_at(call.spec_advance(reply)),
            )
        };
    assert(call.spec_advance(reply) == ArcCall::Done(ArcOutcome::NewStrong));
    let n = choose|n: int|
        !s.handles.contains_key(n) && next.handles == #[trigger] s.handles.insert(
            h,
            Handle::Weak,
        ).insert(n, Handle::Strong);
    assert(next.handles.contains_key(n));
    numbers_at(next, n);
    assert(next.block.strong_count == s.block.strong_count + 1);
}

/// An upgrade ends without a new handle only in a step in which there is no strong handle, or in
/// which there are too many.
pub proof fn law_upgrade_fails_only_without_strong_handles<T>(
    states: Seq<System<T>>,
    who: Seq<int>,
    k: int,
    call: ArcCall,
)
    requires
        run(states, who),
        0 <= k < who.len(),
        states[k].handles[who[k]] == Handle::WeakCall(call),
        call is UpgradeLook || call is UpgradeTake,
        states[k + 1].handles[who[k]] is Weak,
        states[k + 1].strong_handles() == states[k].strong_handles(),
    ensures
        states[k].strong_handles() == 0 || states[k].strong_handles() > MAX_REF_COUNT,
{
    if 0 < states[k].strong_handles() <= MAX_REF_COUNT {
        let strong = interleaving::those(states[k].handles, |handle: Handle| handle.keeps_data());
        run_keeps_inv(states, who, k);
        let g = strong.choose();
        assert(strong.contains(g));
        law_upgrade_succeeds_beside_a_strong_handle(states, who, k, g, call);
    }
}

/// The owner of a handle is told that it is not the only one only where that is so: when a check
/// ends without the right to change the data, there is another handle, or there was one when the
/// strong handles were counted.
pub proof fn law_check_fails_only_beside_others<T>(
    states: Seq<System<T>>,
    who: Seq<int>,
    k: int,
)
    requires
        run(states, who),
        0 <= k < who.len(),
        states[k].handles[who[k]] == Handle::StrongCall(ArcCall::GetMutLock),
        states[k + 1].handles[who[k]] is Strong,
    ensures
        states[k].weak_handles() > 0 || states[k].strong_handles() > 1,
{
    run_keeps_inv(states, who, k);
    let s = states[k];
    let h = who[k];
    assert(s.step(states[k + 1], h));
    numbers_at(s, h);
    assert(s.in_order(h));
    if s.block.ref_count == usize::MAX && s.weak_handles() == 0 {
        let locking = interleaving::those(s.handles, |handle: Handle| handle.is_locking());
        assert(s.locking() > 0);
        let g = locking.choose();
        assert(locking.contains(g));
        interleaving::those_two(s.handles, h, g, |handle: Handle| handle.keeps_data());
    }
}

} // verus!
