//! What the primitives have in common: the errors of locks, the locks that a thread holds, and
//! identities.

use std::collections::HashSet;
use vstd::prelude::*;

verus! {

/// Why a lock was not handed out, or was handed out with a warning.
#[derive(Debug)]
pub enum LockError<Guard> {
    /// The lock is taken, or this thread holds it already.
    WouldBlock,
    /// The lock was acquired, but a thread panicked while it held it.
    Poisoned(PoisonedLock<Guard>),
}

/// The guard of a lock that is poisoned.
pub struct PoisonedLock<Guard> {
    pub guard: Guard,
}

/// The formatter of the standard library.
#[verifier::external_type_specification]
#[verifier::external_body]
pub struct ExFormatter<'a>(std::fmt::Formatter<'a>);

/// The error of the standard library's formatter.
#[verifier::external_type_specification]
#[verifier::external_body]
pub struct ExFormatError(std::fmt::Error);

/// `std::fmt::Formatter::write_str` hands a text to what the formatter writes to. Whether that
/// takes it is not known here, so nothing is claimed about the result.
pub assume_specification<'a>[ std::fmt::Formatter::<'a>::write_str ](
    formatter: &mut std::fmt::Formatter<'a>,
    data: &str,
) -> (res: Result<(), std::fmt::Error>);

impl<Guard> std::fmt::Debug for PoisonedLock<Guard> {
    /// Writes a fixed text; the guard is not shown.
    fn fmt(&self, f: &mut std::fmt::Formatter<'_>) -> (res: std::fmt::Result)
        ensures
            exists|formatter: &mut std::fmt::Formatter|
                {
                    &&& #[trigger] call_ensures(
                        std::fmt::Formatter::write_str,
                        (formatter, "Lock is poisoned!"),
                        res,
                    )
                    &&& *formatter == *old(f)
                    &&& *final(formatter) == *final(f)
                },
    {
        f.write_str("Lock is poisoned!")
    }
}

impl<Guard> PartialEq for LockError<Guard> {
    /// Two errors are equal when they are of the same kind; the guards are not compared.
    fn eq(&self, other: &Self) -> (res: bool) {
        match self {
            LockError::WouldBlock => matches!(other, LockError::WouldBlock),
            LockError::Poisoned(_) => !matches!(other, LockError::WouldBlock),
        }
    }
}

impl<Guard> vstd::std_specs::cmp::PartialEqSpecImpl for LockError<Guard> {
    open spec fn obeys_eq_spec() -> bool {
        true
    }

    open spec fn eq_spec(&self, other: &Self) -> bool {
        self is WouldBlock == other is WouldBlock
    }
}

impl<Guard> LockError<Guard> {
    /// The text that describes the error.
    pub fn message(&self) -> (text: String)
        ensures
            self is WouldBlock ==> text@ == "Error: Can cause blocking"@,
            self is Poisoned ==> text@ == "Error: Lock is poisoned"@,
    {
        match self {
            LockError::WouldBlock => "Error: Can cause blocking".to_owned(),
            LockError::Poisoned(_) => "Error: Lock is poisoned".to_owned(),
        }
    }
}

impl<Guard> PoisonedLock<Guard> {
    /// The text that describes the poisoned lock.
    pub fn message(&self) -> (text: String)
        ensures
            text@ == "Lock is poisoned!"@,
    {
        "Lock is poisoned!".to_owned()
    }
}

/// Whether a result hands out the lock with this identity: the guard itself, or the guard inside
/// the error if the lock is poisoned.
pub open spec fn grants<Guard: View<V = u64>>(
    res: Result<Guard, LockError<Guard>>,
    id: u64,
    poisoned: bool,
) -> bool {
    match res {
        Ok(guard) => !poisoned && guard@ == id,
        Err(LockError::Poisoned(lock)) => poisoned && lock.guard@ == id,
        Err(LockError::WouldBlock) => false,
    }
}

/// Hands out the guard of a lock that was just acquired.
pub fn hand_out<Guard>(guard: Guard, poisoned: bool) -> (res: Result<Guard, LockError<Guard>>)
    ensures
        res == if poisoned {
            Err(LockError::Poisoned(PoisonedLock { guard }))
        } else {
            Ok(guard)
        },
{
    if poisoned {
        Err(LockError::Poisoned(PoisonedLock { guard }))
    } else {
        Ok(guard)
    }
}

/// Who has to be woken after a lock was released.
#[derive(Clone, Copy, Debug, PartialEq, Eq)]
pub enum Wake {
    Nobody,
    One,
    All,
}

/// How far a call got that may have to wait: it is over, or it waits and can be resumed.
#[derive(Debug)]
pub enum Progress<Res, Call> {
    Finished(Res),
    Pending(Call),
}

impl<Res, Call> Progress<Res, Call> {
    /// The result of a call that is over.
    pub fn finished(self) -> (res: Res)
        requires
            self is Finished,
        ensures
            self == Progress::<Res, Call>::Finished(res),
    {
        match self {
            Progress::Finished(res) => res,
            Progress::Pending(_) => {
                assert(false);
                vstd::pervasive::unreached()
            },
        }
    }

    /// Whether the call waits.
    pub fn is_pending(&self) -> (res: bool)
        ensures
            res == (self is Pending),
    {
        matches!(self, Progress::Pending(_))
    }
}

/// What a call does to a lock and its data.
pub enum LockEvent<Words, T> {
    /// The words change: the lock is acquired, waited for, or released by a reader.
    Words(Words),
    /// The data is changed.
    Change(T),
    /// The lock is released by a thread that could change the data, and the words become these.
    Release { words: Words, panicking: bool },
    /// The lock is no longer poisoned.
    ClearPoison,
}

/// Whether a lock is poisoned after these events, if it was or was not before: a thread panicked
/// while it held the lock, and nobody cleared that since.
pub open spec fn poisoned_after<Words, T>(
    poisoned_before: bool,
    events: Seq<LockEvent<Words, T>>,
) -> bool {
    ||| poisoned_before && forall|i: int|
        0 <= i < events.len() ==> !(#[trigger] events[i] is ClearPoison)
    ||| exists|j: int|
        {
            &&& 0 <= j < events.len()
            &&& #[trigger] events[j] matches LockEvent::Release { panicking: true, .. }
            &&& forall|i: int| j < i < events.len() ==> !(#[trigger] events[i] is ClearPoison)
        }
}

/// What one more event does to whether a lock is poisoned.
pub proof fn poison_after_one_more<Words, T>(
    poisoned_before: bool,
    events: Seq<LockEvent<Words, T>>,
)
    ensures
        events.len() == 0 ==> poisoned_after(poisoned_before, events) == poisoned_before,
        events.len() > 0 ==> poisoned_after(poisoned_before, events) == match events.last() {
            LockEvent::ClearPoison => false,
            LockEvent::Release { panicking, .. } => panicking || poisoned_after(
                poisoned_before,
                events.drop_last(),
            ),
            _ => poisoned_after(poisoned_before, events.drop_last()),
        },
{
    if events.len() > 0 {
        let earlier = events.drop_last();
        let n = earlier.len() as int;
        assert forall|i: int| 0 <= i < n implies #[trigger] events[i] == earlier[i] by {}
        let cleared = exists|i: int| 0 <= i < events.len() && #[trigger] events[i] is ClearPoison;
        if poisoned_after(poisoned_before, events) && !(poisoned_before && !cleared) {
            let j = choose|j: int|
                {
                    &&& 0 <= j < events.len()
                    &&& #[trigger] events[j] matches LockEvent::Release { panicking: true, .. }
                    &&& forall|i: int|
                        j < i < events.len() ==> !(#[trigger] events[i] is ClearPoison)
                };
            assert(j < n ==> earlier[j] == events[j]);
            assert(j < n ==> !(events[n] is ClearPoison));
        }
        assert(events[n] == events.last());
    }
}

/// The identities of the locks that one thread holds.
pub struct HeldLocks {
    ids: HashSet<u64>,
}

impl View for HeldLocks {
    type V = Set<u64>;

    closed spec fn view(&self) -> Set<u64> {
        self.ids@
    }
}

impl HeldLocks {
    /// A thread that holds no lock.
    pub fn new() -> (res: HeldLocks)
        ensures
            res@ == Set::<u64>::empty(),
    {
        HeldLocks { ids: HashSet::new() }
    }

    /// Whether the thread holds the lock.
    pub fn contains(&self, id: u64) -> (res: bool)
        ensures
            res == self@.contains(id),
    {
        broadcast use vstd::std_specs::hash::group_hash_axioms;

        self.ids.contains(&id)
    }

    /// Notes that the thread acquired the lock.
    pub fn insert(&mut self, id: u64)
        ensures
            final(self)@ == old(self)@.insert(id),
    {
        broadcast use vstd::std_specs::hash::group_hash_axioms;

        self.ids.insert(id);
    }

    /// Notes that the thread released the lock.
    pub fn remove(&mut self, id: u64)
        ensures
            final(self)@ == old(self)@.remove(id),
    {
        broadcast use vstd::std_specs::hash::group_hash_axioms;

        self.ids.remove(&id);
    }
}

/// Hands out the identities of locks, blocks and channels, one after the other.
pub struct Identities {
    next: u64,
}

impl View for Identities {
    type V = u64;

    closed spec fn view(&self) -> u64 {
        self.next
    }
}

impl Identities {
    /// A source that starts at zero.
    pub fn new() -> (res: Identities)
        ensures
            res@ == 0,
    {
        Identities { next: 0 }
    }

    /// The next identity. Identities repeat only after all of them were handed out.
    pub fn fresh(&mut self) -> (id: u64)
        ensures
            id == old(self)@,
            final(self)@ == old(self)@.wrapping_add(1),
    {
        let id: u64 = self.next;
        self.next = id.wrapping_add(1);
        id
    }
}

/// The identity that comes after `k` others from a source whose next one is `next`.
pub open spec fn identity_after(next: u64, k: nat) -> u64
    decreases k,
{
    if k == 0 {
        next
    } else {
        identity_after(next.wrapping_add(1), (k - 1) as nat)
    }
}

/// Locks, blocks and channels whose identities come from one source are told apart: identities
/// repeat only after all of them were handed out.
pub proof fn law_identities_differ(next: u64, i: nat, j: nat)
    requires
        i < j,
        j - i <= u64::MAX,
    ensures
        identity_after(next, i) != identity_after(next, j),
{
    identity_is_a_remainder(next, i);
    identity_is_a_remainder(next, j);
    assert((next + i) % 0x1_0000_0000_0000_0000 != (next + j) % 0x1_0000_0000_0000_0000) by (
    nonlinear_arith)
        requires
            i < j,
            j - i <= 0xffff_ffff_ffff_ffff,
    ;
}

proof fn identity_is_a_remainder(next: u64, k: nat)
    ensures
        identity_after(next, k) == (next + k) % 0x1_0000_0000_0000_0000,
    decreases k,
{
    if k > 0 {
        identity_is_a_remainder(next.wrapping_add(1), (k - 1) as nat);
    }
}

} // verus!
