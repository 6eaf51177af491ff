//! What the parts are for that the [primitives have in common](crate::utils::mutex_common).

use crate::utils::mutex_common::{
    HeldLocks, Identities, LockError, PoisonedLock, Progress,
};
use vstd::prelude::*;

verus! {

/// A thread holds no lock at first, and then those that it has acquired and not released since.
pub proof fn law_held_locks_are_those_acquired(
    new: HeldLocks,
    in_new: bool,
    any: u64,
    inserted: &mut HeldLocks,
    id: u64,
    in_inserted: bool,
    removed: &mut HeldLocks,
    in_removed: bool,
    before: bool,
)
    requires
        call_ensures(HeldLocks::new, (), new),
        call_ensures(HeldLocks::contains, (&new, any), in_new),
        call_ensures(HeldLocks::insert, (inserted, id), ()),
        call_ensures(HeldLocks::contains, (&*old(inserted), any), before),
        call_ensures(HeldLocks::contains, (&*final(inserted), any), in_inserted),
        *old(removed) == *old(inserted),
        call_ensures(HeldLocks::remove, (removed, id), ()),
        call_ensures(HeldLocks::contains, (&*final(removed), any), in_removed),
    ensures
        !in_new,
        in_inserted == (any == id || before),
        in_removed == (any != id && before),
{
}

/// The identities of one source differ: the next one is never the same, and the first is zero.
pub proof fn law_fresh_identities_differ(
    new: Identities,
    ids: &mut Identities,
    one: u64,
    later: &mut Identities,
    two: u64,
)
    requires
        call_ensures(Identities::new, (), new),
        call_ensures(Identities::fresh, (ids,), one),
        *old(later) == *final(ids),
        call_ensures(Identities::fresh, (later,), two),
    ensures
        new@ == 0,
        one == old(ids)@,
        two != one,
        one < u64::MAX ==> two == one + 1,
{
}

/// What is handed out comes with a warning exactly if the lock is poisoned.
pub proof fn law_poisoned_guards_come_with_a_warning<Guard>(
    guard: Guard,
    poisoned: bool,
    handed: Result<Guard, LockError<Guard>>,
)
    requires
        call_ensures(crate::utils::mutex_common::hand_out::<Guard>, (guard, poisoned), handed),
    ensures
        handed is Ok <==> !poisoned,
        handed matches Ok(out) ==> out == guard,
        handed matches Err(error) ==> error is Poisoned && error->Poisoned_0.guard == guard,
{
}

/// Errors are equal exactly if they are of one kind, and each kind has its own text.
pub proof fn law_errors_tell_what_is_wrong<Guard>(
    one: LockError<Guard>,
    other: LockError<Guard>,
    text: String,
    poisoned: PoisonedLock<Guard>,
    warning: String,
)
    requires
        call_ensures(LockError::<Guard>::message, (&one,), text),
        call_ensures(PoisonedLock::<Guard>::message, (&poisoned,), warning),
    ensures
        vstd::std_specs::cmp::PartialEqSpec::eq_spec(&one, &other) <==> {
            ||| one is WouldBlock && other is WouldBlock
            ||| one is Poisoned && other is Poisoned
        },
        one is WouldBlock ==> text@ == "Error: Can cause blocking"@,
        one is Poisoned ==> text@ == "Error: Lock is poisoned"@,
        warning@ == "Lock is poisoned!"@,
{
}

/// A call is over or waits, and one that is over has its result.
pub proof fn law_progress_is_an_end_or_a_wait<Res, Call>(
    progress: Progress<Res, Call>,
    pending: bool,
    res: Res,
)
    requires
        call_ensures(Progress::<Res, Call>::is_pending, (&progress,), pending),
        progress is Finished ==> call_ensures(Progress::<Res, Call>::finished, (progress,), res),
    ensures
        pending <==> progress is Pending,
        progress is Finished ==> progress->Finished_0 == res,
{
}

} // verus!
