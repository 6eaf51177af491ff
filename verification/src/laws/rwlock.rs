//! What a [`rwlock`](crate::rwlock) is for.

use crate::interleaving;
use crate::laws;
use crate::rwlock::{
    LockResult, PoisonedLock, RawRwLock, RwCall, RwLock, RwLockError, RwLockReadGuard, RwLockView,
    RwLockWriteGuard, RwOutcome, RwWake, RwWord, RwWords, MOST_READERS, WRITE_LOCKED,
};
use crate::utils::mutex_common::{HeldLocks, Identities, Progress};
use crate::word::{Action, Op, Order, Reply};
use vstd::prelude::*;

verus! {

/// How many readers have the lock.
pub open spec fn readers(words: RwWords) -> int {
    if words.state == WRITE_LOCKED {
        0
    } else {
        words.state as int / 2
    }
}

/// A writer has the lock.
pub open spec fn has_writer(words: RwWords) -> bool {
    words.state == WRITE_LOCKED
}

/// Further readers are kept out, because a writer has the lock or waits for it.
pub open spec fn keeps_readers_out(words: RwWords) -> bool {
    words.state % 2 == 1
}

/// A result hands out the lock: a guard of it, which comes with a warning if the lock is poisoned.
pub open spec fn hands_out<T, Guard: View<V = u64>>(
    lock: RwLockView<T>,
    res: LockResult<Guard>,
) -> bool {
    &&& res matches Ok(guard) ==> guard@ == lock.id && !lock.poisoned
    &&& res matches Err(error) ==> error is Poisoned && error->Poisoned_0.guard@ == lock.id
        && lock.poisoned
}

/// A result says that the lock is taken.
pub open spec fn is_refusal<Guard>(res: LockResult<Guard>) -> bool {
    res matches Err(RwLockError::WouldBlock)
}

/// A result says that there is no room for another reader.
pub open spec fn is_crowded<Guard>(res: LockResult<Guard>) -> bool {
    res matches Err(RwLockError::TooManyReaders)
}

/// Nothing but the words differs.
pub open spec fn same_but_words<T>(before: RwLockView<T>, after: RwLockView<T>) -> bool {
    &&& after.id == before.id
    &&& after.data == before.data
    &&& after.poisoned == before.poisoned
}

/// A new lock is free: a reader and a writer can have it at once. It is not poisoned, and its data
/// is what it was made with.
pub proof fn law_new_lock_is_free<T>(
    ids: &mut Identities,
    data: T,
    lock: RwLock<T>,
    read: &mut RwLock<T>,
    reader: &mut HeldLocks,
    to_read: LockResult<RwLockReadGuard>,
    written: &mut RwLock<T>,
    writer: &mut HeldLocks,
    to_write: LockResult<RwLockWriteGuard>,
    inner: T,
    poisoned: bool,
)
    requires
        call_ensures(RwLock::<T>::new, (ids, data), lock),
        *old(read) == lock,
        !old(reader)@.contains(lock@.id),
        call_ensures(RwLock::<T>::try_read, (read, reader), to_read),
        *old(written) == lock,
        !old(writer)@.contains(lock@.id),
        call_ensures(RwLock::<T>::try_write, (written, writer), to_write),
        call_ensures(RwLock::<T>::into_inner, (lock,), inner),
        call_ensures(RwLock::<T>::is_poisoned, (&lock,), poisoned),
    ensures
        to_read is Ok,
        to_write is Ok,
        inner == data,
        !poisoned,
        lock@.id == old(ids)@,
        lock@.words.waiting_writers == 0,
        final(ids)@ != old(ids)@,
{
}

/// A thread that has the lock is refused by every call, and nothing changes. No other thread is
/// refused by `read` or `write` because the lock is taken.
pub proof fn law_only_holders_are_refused<T>(
    read: &mut RwLock<T>,
    reader: &mut HeldLocks,
    to_read: Progress<LockResult<RwLockReadGuard>, RwCall>,
    written: &mut RwLock<T>,
    writer: &mut HeldLocks,
    to_write: Progress<LockResult<RwLockWriteGuard>, RwCall>,
)
    requires
        call_ensures(RwLock::<T>::read, (read, reader), to_read),
        call_ensures(RwLock::<T>::write, (written, writer), to_write),
    ensures
        to_read is Finished && is_refusal(to_read->Finished_0) <==> old(
            reader,
        )@.contains(old(read)@.id),
        to_write is Finished && is_refusal(to_write->Finished_0) <==> old(
            writer,
        )@.contains(old(written)@.id),
        old(reader)@.contains(old(read)@.id) ==> final(read)@ == old(read)@ && final(reader)@
            == old(reader)@,
        old(writer)@.contains(old(written)@.id) ==> final(written)@ == old(written)@
            && final(writer)@ == old(writer)@,
{
}

/// A `write` gets a lock that nobody has. Whatever the number of readers, or if a writer has the
/// lock, it waits: it is counted among the writers that wait and keeps further readers out, while
/// those that read go on reading, unless there is no room for another reader. It is never told that
/// the lock is taken.
pub proof fn law_write_takes_a_free_lock_or_waits<T>(
    lock: &mut RwLock<T>,
    me: &mut HeldLocks,
    res: Progress<LockResult<RwLockWriteGuard>, RwCall>,
)
    requires
        !old(me)@.contains(old(lock)@.id),
        call_ensures(RwLock::<T>::write, (lock, me), res),
    ensures
        res is Finished <==> readers(old(lock)@.words) == 0 && !has_writer(old(lock)@.words),
        res matches Progress::Finished(handed) ==> {
            &&& hands_out(old(lock)@, handed)
            &&& has_writer(final(lock)@.words)
            &&& final(lock)@.words.waiting_writers == old(lock)@.words.waiting_writers
            &&& final(me)@ == old(me)@.insert(old(lock)@.id)
        },
        res matches Progress::Pending(call) ==> {
            &&& keeps_readers_out(final(lock)@.words)
            &&& old(lock)@.words.state != MOST_READERS ==> readers(final(lock)@.words) == readers(
                old(lock)@.words,
            ) && has_writer(final(lock)@.words) == has_writer(old(lock)@.words)
            &&& final(lock)@.words.waiting_writers == laws::one_more(
                old(lock)@.words.waiting_writers,
            )
            &&& final(lock)@.words.state == if keeps_readers_out(old(lock)@.words) {
                old(lock)@.words.state as int
            } else {
                old(lock)@.words.state + 1
            }
            &&& final(me)@ == old(me)@
            &&& call_requires(RwLock::<T>::resume_write, (lock, call, me))
            &&& call == RwCall::WriteSleep { count: final(lock)@.words.writers_number }
        },
        final(lock)@.words.writers_number == old(lock)@.words.writers_number,
        same_but_words(old(lock)@, final(lock)@),
{
}

/// A `read` counts one more reader, unless a writer has the lock or waits for it. Then it waits,
/// and changes nothing. It is refused only if there is no room for another reader.
pub proof fn law_read_joins_readers_or_waits<T>(
    lock: &mut RwLock<T>,
    me: &mut HeldLocks,
    res: Progress<LockResult<RwLockReadGuard>, RwCall>,
)
    requires
        !old(me)@.contains(old(lock)@.id),
        call_ensures(RwLock::<T>::read, (lock, me), res),
    ensures
        res is Pending <==> keeps_readers_out(old(lock)@.words),
        res is Pending ==> {
            &&& final(lock)@ == old(lock)@
            &&& final(me)@ == old(me)@
            &&& call_requires(RwLock::<T>::resume_read, (lock, res->Pending_0, me))
        },
        res is Finished && is_crowded(res->Finished_0) <==> old(lock)@.words.state == MOST_READERS,
        old(lock)@.words.state == MOST_READERS ==> final(lock)@ == old(lock)@ && final(me)@ == old(
            me,
        )@,
        !keeps_readers_out(old(lock)@.words) && old(lock)@.words.state != MOST_READERS ==> {
            &&& hands_out(old(lock)@, res->Finished_0)
            &&& readers(final(lock)@.words) == readers(old(lock)@.words) + 1
            &&& !keeps_readers_out(final(lock)@.words)
            &&& final(lock)@.words.waiting_writers == old(lock)@.words.waiting_writers
            &&& final(lock)@.words.writers_number == old(lock)@.words.writers_number
            &&& final(me)@ == old(me)@.insert(old(lock)@.id)
        },
        same_but_words(old(lock)@, final(lock)@),
{
}

/// A `try_write` gets the lock exactly where a `write` gets it at once, and does the same then.
/// Otherwise it is refused, and nothing changes.
pub proof fn law_try_write_is_write_without_waiting<T>(
    tried: &mut RwLock<T>,
    trier: &mut HeldLocks,
    handed: LockResult<RwLockWriteGuard>,
    written: &mut RwLock<T>,
    writer: &mut HeldLocks,
    res: Progress<LockResult<RwLockWriteGuard>, RwCall>,
)
    requires
        *old(tried) == *old(written),
        *old(trier) == *old(writer),
        call_ensures(RwLock::<T>::try_write, (tried, trier), handed),
        call_ensures(RwLock::<T>::write, (written, writer), res),
    ensures
        hands_out(old(tried)@, handed) <==> res is Finished && hands_out(
            old(written)@,
            res->Finished_0,
        ),
        hands_out(old(tried)@, handed) <==> !old(trier)@.contains(old(tried)@.id) && readers(
            old(tried)@.words,
        ) == 0 && !has_writer(old(tried)@.words),
        hands_out(old(tried)@, handed) ==> final(tried)@ == final(written)@ && final(trier)@
            == final(writer)@,
        !hands_out(old(tried)@, handed) ==> {
            &&& is_refusal(handed)
            &&& final(tried)@ == old(tried)@
            &&& final(trier)@ == old(trier)@
        },
{
}

/// A `try_read` does what a `read` does, except that it is refused, and changes nothing, where the
/// `read` waits.
pub proof fn law_try_read_is_read_without_waiting<T>(
    tried: &mut RwLock<T>,
    trier: &mut HeldLocks,
    handed: LockResult<RwLockReadGuard>,
    read: &mut RwLock<T>,
    reader: &mut HeldLocks,
    res: Progress<LockResult<RwLockReadGuard>, RwCall>,
)
    requires
        *old(tried) == *old(read),
        *old(trier) == *old(reader),
        call_ensures(RwLock::<T>::try_read, (tried, trier), handed),
        call_ensures(RwLock::<T>::read, (read, reader), res),
    ensures
        final(tried)@ == final(read)@,
        final(trier)@ == final(reader)@,
        hands_out(old(tried)@, handed) <==> res is Finished && hands_out(
            old(read)@,
            res->Finished_0,
        ),
        is_crowded(handed) <==> res is Finished && is_crowded(res->Finished_0),
        is_refusal(handed) <==> res is Pending || old(reader)@.contains(
            old(read)@.id,
        ),
{
}

/// A `write` that goes on is no longer counted among those that wait, and does what a `write` does
/// that starts then: it gets a lock that nobody has, and otherwise is counted again and waits.
pub proof fn law_resumed_write_takes_a_free_lock_or_waits<T>(
    lock: &mut RwLock<T>,
    call: RwCall,
    me: &mut HeldLocks,
    res: Progress<LockResult<RwLockWriteGuard>, RwCall>,
)
    requires
        call is WriteSleep,
        call_ensures(RwLock::<T>::resume_write, (lock, call, me), res),
        old(lock)@.words.waiting_writers > 0,
    ensures
        res is Finished <==> readers(old(lock)@.words) == 0 && !has_writer(old(lock)@.words),
        res matches Progress::Finished(handed) ==> {
            &&& hands_out(old(lock)@, handed)
            &&& has_writer(final(lock)@.words)
            &&& final(lock)@.words.waiting_writers == old(lock)@.words.waiting_writers - 1
            &&& final(me)@ == old(me)@.insert(old(lock)@.id)
        },
        res matches Progress::Pending(again) ==> {
            &&& keeps_readers_out(final(lock)@.words)
            &&& old(lock)@.words.state != MOST_READERS ==> readers(final(lock)@.words) == readers(
                old(lock)@.words,
            ) && has_writer(final(lock)@.words) == has_writer(old(lock)@.words)
            &&& final(lock)@.words.waiting_writers == old(lock)@.words.waiting_writers
            &&& final(me)@ == old(me)@
            &&& again == RwCall::WriteSleep { count: final(lock)@.words.writers_number }
        },
        final(lock)@.words.writers_number == old(lock)@.words.writers_number,
        same_but_words(old(lock)@, final(lock)@),
{
}

/// A `read` that goes on does what a `read` does that starts then.
pub proof fn law_resumed_read_is_a_read<T>(
    resumed: &mut RwLock<T>,
    call: RwCall,
    woken: &mut HeldLocks,
    res: Progress<LockResult<RwLockReadGuard>, RwCall>,
    read: &mut RwLock<T>,
    reader: &mut HeldLocks,
    to_read: Progress<LockResult<RwLockReadGuard>, RwCall>,
)
    requires
        *old(resumed) == *old(read),
        *old(woken) == *old(reader),
        !old(reader)@.contains(old(read)@.id),
        call is ReadSleep || call is ReadAwaitWriter,
        call_ensures(RwLock::<T>::resume_read, (resumed, call, woken), res),
        call_ensures(RwLock::<T>::read, (read, reader), to_read),
    ensures
        final(resumed)@ == final(read)@,
        final(woken)@ == final(reader)@,
        res is Pending <==> to_read is Pending,
        res matches Progress::Pending(again) ==> to_read == Progress::<
            LockResult<RwLockReadGuard>,
            RwCall,
        >::Pending(again),
        res is Finished ==> {
            &&& hands_out(old(read)@, res->Finished_0) <==> hands_out(
                old(read)@,
                to_read->Finished_0,
            )
            &&& is_crowded(res->Finished_0) <==> is_crowded(to_read->Finished_0)
            &&& !is_refusal(res->Finished_0)
        },
{
}

/// A reader that releases the lock is one reader less; nothing else changes. It wakes a writer
/// exactly if it was the last reader and a writer waits.
pub proof fn law_read_unlock_is_one_reader_less<T>(
    guard: RwLockReadGuard,
    lock: &mut RwLock<T>,
    me: &mut HeldLocks,
    wake: RwWake,
)
    requires
        guard@ == old(lock)@.id,
        readers(old(lock)@.words) > 0,
        call_ensures(RwLockReadGuard::unlock::<T>, (guard, lock, me), wake),
    ensures
        readers(final(lock)@.words) == readers(old(lock)@.words) - 1,
        !has_writer(final(lock)@.words),
        keeps_readers_out(final(lock)@.words) == keeps_readers_out(old(lock)@.words),
        final(lock)@.words.waiting_writers == old(lock)@.words.waiting_writers,
        final(lock)@.words.writers_number == old(lock)@.words.writers_number,
        same_but_words(old(lock)@, final(lock)@),
        final(me)@ == old(me)@.remove(old(lock)@.id),
        wake == RwWake::OneWriter <==> readers(old(lock)@.words) == 1 && keeps_readers_out(
            old(lock)@.words,
        ),
        wake == RwWake::OneWriter || wake == RwWake::Nobody,
{
}

/// A writer that releases the lock leaves it free, with one more release counted, and poisoned if
/// it was, or if the writer is panicking. It wakes a writer if one waits, and otherwise the
/// readers.
pub proof fn law_write_unlock_frees_the_lock<T>(
    guard: RwLockWriteGuard,
    lock: &mut RwLock<T>,
    me: &mut HeldLocks,
    panicking: bool,
    wake: RwWake,
)
    requires
        guard@ == old(lock)@.id,
        call_ensures(RwLockWriteGuard::unlock::<T>, (guard, lock, me, panicking), wake),
    ensures
        readers(final(lock)@.words) == 0,
        !has_writer(final(lock)@.words),
        !keeps_readers_out(final(lock)@.words),
        final(lock)@.words.waiting_writers == old(lock)@.words.waiting_writers,
        final(lock)@.words.writers_number != old(lock)@.words.writers_number,
        final(lock)@.words.writers_number == laws::one_more(old(lock)@.words.writers_number),
        final(lock)@.id == old(lock)@.id,
        final(lock)@.data == old(lock)@.data,
        final(lock)@.poisoned == (old(lock)@.poisoned || panicking),
        final(me)@ == old(me)@.remove(old(lock)@.id),
        wake == RwWake::OneWriter <==> old(lock)@.words.waiting_writers > 0,
        wake == RwWake::AllReaders <==> old(lock)@.words.waiting_writers == 0,
{
}

/// A writer that waits for the last reader keeps a further reader waiting, is woken when the last
/// reader releases the lock, and has the lock then, as it would have had a free one.
pub proof fn law_waiting_writer_follows_the_last_reader<T>(
    asked: &mut RwLock<T>,
    writer: &mut HeldLocks,
    call: RwCall,
    late: &mut RwLock<T>,
    latecomer: &mut HeldLocks,
    to_read: Progress<LockResult<RwLockReadGuard>, RwCall>,
    guard: RwLockReadGuard,
    left: &mut RwLock<T>,
    reader: &mut HeldLocks,
    wake: RwWake,
    resumed: &mut RwLock<T>,
    woken: &mut HeldLocks,
    res: Progress<LockResult<RwLockWriteGuard>, RwCall>,
)
    requires
        readers(old(asked)@.words) == 1,
        old(asked)@.words.waiting_writers < u32::MAX,
        !old(writer)@.contains(old(asked)@.id),
        call_ensures(
            RwLock::<T>::write,
            (asked, writer),
            Progress::<LockResult<RwLockWriteGuard>, RwCall>::Pending(call),
        ),
        *old(late) == *final(asked),
        !old(latecomer)@.contains(old(asked)@.id),
        call_ensures(RwLock::<T>::read, (late, latecomer), to_read),
        *old(left) == *final(asked),
        guard@ == old(asked)@.id,
        call_ensures(RwLockReadGuard::unlock::<T>, (guard, left, reader), wake),
        *old(resumed) == *final(left),
        *old(woken) == *final(writer),
        call_ensures(RwLock::<T>::resume_write, (resumed, call, woken), res),
    ensures
        to_read is Pending,
        wake == RwWake::OneWriter,
        res is Finished && hands_out(old(asked)@, res->Finished_0),
        has_writer(final(resumed)@.words),
        final(resumed)@.words.waiting_writers == old(asked)@.words.waiting_writers,
        final(woken)@ == old(writer)@.insert(old(asked)@.id),
{
}

/// What is written under the lock is what is read under it next, whoever reads it.
pub proof fn law_read_sees_what_was_written<T>(
    guard: &mut RwLockWriteGuard,
    written: &mut RwLock<T>,
    data: &mut T,
    freed: &mut RwLock<T>,
    writer: &mut HeldLocks,
    wake: RwWake,
    read: &mut RwLock<T>,
    reader: &mut HeldLocks,
    to_read: RwLockReadGuard,
    seen: T,
)
    requires
        old(guard)@ == old(written)@.id,
        call_ensures(RwLockWriteGuard::deref_mut::<T>, (guard, written), data),
        *old(freed) == *final(written),
        call_ensures(RwLockWriteGuard::unlock::<T>, (*final(guard), freed, writer, false), wake),
        *old(read) == *final(freed),
        call_ensures(
            RwLock::<T>::read,
            (read, reader),
            Progress::<LockResult<RwLockReadGuard>, RwCall>::Finished(Ok(to_read)),
        ),
        call_ensures(RwLockReadGuard::deref::<T>, (&to_read, &*final(read)), &seen),
    ensures
        *old(data) == old(written)@.data,
        seen == *final(data),
        to_read@ == old(written)@.id,
{
}

/// A guard shows the data of its lock, and so do `get_mut` and `into_inner`. What is changed
/// through `deref_mut` or `get_mut` is the data, and nothing else.
pub proof fn law_guards_show_the_data<T>(
    lock: RwLock<T>,
    read_guard: RwLockReadGuard,
    read: T,
    write_guard: RwLockWriteGuard,
    written: T,
    inner: T,
    owned: &mut RwLock<T>,
    data: &mut T,
    guard: &mut RwLockWriteGuard,
    held: &mut RwLock<T>,
    guarded: &mut T,
)
    requires
        read_guard@ == lock@.id,
        write_guard@ == lock@.id,
        call_ensures(RwLockReadGuard::deref::<T>, (&read_guard, &lock), &read),
        call_ensures(RwLockWriteGuard::deref::<T>, (&write_guard, &lock), &written),
        call_ensures(RwLock::<T>::into_inner, (lock,), inner),
        *old(owned) == lock,
        call_ensures(RwLock::<T>::get_mut, (owned,), data),
        *old(held) == lock,
        old(guard)@ == lock@.id,
        call_ensures(RwLockWriteGuard::deref_mut::<T>, (guard, held), guarded),
    ensures
        read == lock@.data,
        written == lock@.data,
        inner == lock@.data,
        *old(data) == lock@.data,
        final(owned)@ == (RwLockView { data: *final(data), ..lock@ }),
        *old(guarded) == lock@.data,
        final(held)@ == (RwLockView { data: *final(guarded), ..lock@ }),
        final(guard)@ == lock@.id,
{
}

/// A lock tells that it is poisoned from when a thread that panics releases it after writing, until
/// that is cleared. Clearing it changes nothing else.
pub proof fn law_poison_is_told<T>(
    guard: RwLockWriteGuard,
    freed: &mut RwLock<T>,
    writer: &mut HeldLocks,
    panicking: bool,
    wake: RwWake,
    told: bool,
    cleared: &mut RwLock<T>,
    told_then: bool,
)
    requires
        guard@ == old(freed)@.id,
        call_ensures(RwLockWriteGuard::unlock::<T>, (guard, freed, writer, panicking), wake),
        call_ensures(RwLock::<T>::is_poisoned, (&*final(freed),), told),
        *old(cleared) == *final(freed),
        call_ensures(RwLock::<T>::clear_poison, (cleared,), ()),
        call_ensures(RwLock::<T>::is_poisoned, (&*final(cleared),), told_then),
    ensures
        panicking ==> told,
        !panicking ==> told == old(freed)@.poisoned,
        !told_then,
        final(cleared)@ == (RwLockView { poisoned: false, ..old(cleared)@ }),
{
}

/// How threads that share the lock claim it: who holds it is refused, who got it holds it from then
/// on, and what is handed out comes with a warning exactly if the lock is poisoned.
pub proof fn law_claims_follow_the_outcome<Guard>(
    id: u64,
    before: HeldLocks,
    refused: Result<(), RwLockError<Guard>>,
    outcome: RwOutcome,
    me: &mut HeldLocks,
    claimed: Result<(), RwLockError<Guard>>,
    guard: Guard,
    poisoned: bool,
    handed: LockResult<Guard>,
)
    requires
        call_ensures(crate::rwlock::refuse_holder::<Guard>, (id, &before), refused),
        call_ensures(crate::rwlock::claim::<Guard>, (outcome, id, me), claimed),
        call_ensures(crate::rwlock::hand_out::<Guard>, (guard, poisoned), handed),
    ensures
        refused is Err <==> before@.contains(id),
        refused matches Err(error) ==> error is WouldBlock,
        claimed is Ok <==> outcome is Reading || outcome is Writing,
        claimed is Ok ==> final(me)@ == old(me)@.insert(id),
        claimed matches Err(error) ==> final(me)@ == old(me)@ && (error is TooManyReaders
            <==> outcome is TooManyReaders) && !(error is Poisoned),
        handed is Ok <==> !poisoned,
        handed matches Ok(out) ==> out == guard,
        handed matches Err(error) ==> error is Poisoned && error->Poisoned_0.guard == guard,
{
}

/// Errors are equal exactly if they are of one kind, and each kind has its own text.
pub proof fn law_errors_tell_what_is_wrong<Guard>(
    one: RwLockError<Guard>,
    other: RwLockError<Guard>,
    text: String,
    poisoned: PoisonedLock<Guard>,
    warning: String,
)
    requires
        call_ensures(RwLockError::<Guard>::message, (&one,), text),
        call_ensures(PoisonedLock::<Guard>::message, (&poisoned,), warning),
    ensures
        warning@ == "Lock is poisoned!"@,
        vstd::std_specs::cmp::PartialEqSpec::eq_spec(&one, &other) <==> {
            ||| one is WouldBlock && other is WouldBlock
            ||| one is TooManyReaders && other is TooManyReaders
            ||| one is Poisoned && other is Poisoned
        },
        one is WouldBlock ==> text@ == "Error: Can cause blocking"@,
        one is TooManyReaders ==> text@ == "Error: RwLock has too many readers"@,
        one is Poisoned ==> text@ == "Error: RwLock is poisoned"@,
{
}

/// Which call a step belongs to.
pub enum RwKind {
    Read,
    Write,
    TryRead,
    TryWrite,
    ReadUnlock,
    WriteUnlock,
}

/// The steps of each call, and the ways in which it can end. A `write` ends only with the lock, and
/// a `read` only with the lock or for want of room.
pub open spec fn is_of_kind(call: RwCall, kind: RwKind) -> bool {
    match kind {
        RwKind::Read => call is ReadLook || call is ReadSleep || call is ReadTake
            || call is ReadAwaitWriter || call == RwCall::Done(RwOutcome::Reading) || call
            == RwCall::Done(RwOutcome::TooManyReaders),
        RwKind::Write => call is WriteLook || call is WriteTake || call is WriteMark
            || call is WriteEnter || call is WriteCount || call is WriteCheck || call is WriteSleep
            || call is WriteLeave || call == RwCall::Done(RwOutcome::Writing),
        RwKind::TryRead => call is TryReadLook || call is TryReadTake || call == RwCall::Done(
            RwOutcome::Reading,
        ) || call == RwCall::Done(RwOutcome::TooManyReaders) || call == RwCall::Done(
            RwOutcome::WouldBlock,
        ),
        RwKind::TryWrite => call is TryWriteLook || call is TryWriteTake || call == RwCall::Done(
            RwOutcome::Writing,
        ) || call == RwCall::Done(RwOutcome::WouldBlock),
        RwKind::ReadUnlock => call is ReadUnlock || call is ReadUnlockWake || call == RwCall::Done(
            RwOutcome::Released(RwWake::Nobody),
        ) || call == RwCall::Done(RwOutcome::Released(RwWake::OneWriter)),
        RwKind::WriteUnlock => call is WriteUnlock || call is WriteUnlockCount
            || call is WriteUnlockLook || call is WriteUnlockWakeWriter
            || call is WriteUnlockWakeReaders || call == RwCall::Done(
            RwOutcome::Released(RwWake::OneWriter),
        ) || call == RwCall::Done(RwOutcome::Released(RwWake::AllReaders)),
    }
}

/// Every step leads to a step of the same call, or to one of its ends, whatever the other threads
/// do: on ordinary words and on atomic ones.
pub proof fn law_calls_keep_their_kind(
    call: RwCall,
    kind: RwKind,
    reply: Reply<u32>,
    next: RwCall,
    raw: RawRwLock,
    stepped: RwCall,
)
    requires
        is_of_kind(call, kind),
        call_ensures(RwCall::advance, (call, reply), next),
        call_ensures(RawRwLock::step, (&raw, call), stepped),
    ensures
        is_of_kind(next, kind),
        is_of_kind(stepped, kind),
{
}

/// A call that is over takes no step, and every other call does.
pub proof fn law_calls_go_on_until_they_are_over(call: RwCall, action: Option<Action<RwWord>>)
    requires
        call_ensures(RwCall::action, (&call,), action),
    ensures
        action is None <==> call is Done,
{
}

/// What one step does among threads that interleave. A reader is counted exactly in the step in
/// which a call gets the lock for reading, and only while no writer has the lock or waits; a writer
/// is noted exactly in the step in which a call gets the lock for writing, and only while nobody
/// has it. A call is told that the lock is taken, or that there are too many readers, only where
/// that is so in this step, or where the state has changed since it looked. A `write` goes to sleep
/// only where others have the lock and the state keeps readers out.
pub proof fn law_lock_is_taken_in_one_step(
    call: RwCall,
    action: Action<RwWord>,
    words: RwWords,
    after: RwWords,
    reply: Reply<u32>,
    next: RwCall,
)
    requires
        call_ensures(RwCall::action, (&call,), Some(action)),
        interleaving::rwlock::possible(words, action, after, reply),
        call_ensures(RwCall::advance, (call, reply), next),
        call matches RwCall::ReadTake { state } ==> state % 2 == 0 && state != MOST_READERS,
        call matches RwCall::TryReadTake { state } ==> state % 2 == 0 && state != MOST_READERS,
        call matches RwCall::WriteTake { state } ==> state <= 1,
        call matches RwCall::TryWriteTake { state } ==> state <= 1,
        call matches RwCall::WriteMark { state } ==> state % 2 == 0 && 1 < state < MOST_READERS,
        call is ReadUnlock ==> 2 <= words.state < WRITE_LOCKED,
    ensures
        next == RwCall::Done(RwOutcome::Reading) ==> {
            &&& !keeps_readers_out(words)
            &&& readers(after) == readers(words) + 1
            &&& !keeps_readers_out(after)
        },
        next == RwCall::Done(RwOutcome::Writing) ==> {
            &&& readers(words) == 0 && !has_writer(words)
            &&& has_writer(after)
        },
        readers(after) > readers(words) ==> next == RwCall::Done(RwOutcome::Reading),
        has_writer(after) && !has_writer(words) ==> next == RwCall::Done(RwOutcome::Writing),
        readers(after) < readers(words) ==> call is ReadUnlock || call is WriteUnlock,
        call is ReadUnlock ==> readers(after) == readers(words) - 1 && keeps_readers_out(after)
            == keeps_readers_out(words),
        has_writer(words) && !has_writer(after) ==> call is WriteUnlock,
        call is WriteUnlock ==> after.state == 0,
        keeps_readers_out(after) && !keeps_readers_out(words) ==> call is WriteMark || next
            == RwCall::Done(RwOutcome::Writing),
        next == RwCall::Done(RwOutcome::WouldBlock) ==> {
            ||| call is TryReadLook && keeps_readers_out(words)
            ||| call is TryWriteLook && (readers(words) > 0 || has_writer(words))
            ||| call matches RwCall::TryReadTake { state } && words.state != state
            ||| call matches RwCall::TryWriteTake { state } && words.state != state
        },
        next == RwCall::Done(RwOutcome::TooManyReaders) ==> words.state == MOST_READERS,
        next is WriteSleep ==> keeps_readers_out(words) && (readers(words) > 0 || has_writer(words)),
        next is ReadSleep || next is ReadAwaitWriter ==> keeps_readers_out(words),
        next matches RwCall::ReadSleep { state } ==> state == words.state,
        next is ReadUnlockWake <==> call is ReadUnlock && readers(words) == 1 && keeps_readers_out(
            words,
        ),
        next is WriteUnlockWakeWriter ==> words.waiting_writers > 0,
        next is WriteUnlockWakeReaders ==> words.waiting_writers == 0,
        next matches RwCall::ReadTake { state } ==> state % 2 == 0 && state != MOST_READERS,
        next matches RwCall::TryReadTake { state } ==> state % 2 == 0 && state != MOST_READERS,
        next matches RwCall::WriteTake { state } ==> state <= 1,
        next matches RwCall::TryWriteTake { state } ==> state <= 1,
        next matches RwCall::WriteMark { state } ==> state % 2 == 0 && state > 1,
{
    assert(words.state % 2 == 0 || words.state % 2 == 1);
}

/// Where a call goes with the state that it sees. A reader counts itself where no writer has the
/// lock or waits, and sleeps on the state that it saw otherwise. A writer takes a lock that nobody
/// has, notes that it waits where no writer does, and is counted otherwise. A call that lost a race
/// goes where it would have gone had it just seen what it found; a call that tries does not try
/// again.
pub proof fn law_calls_go_by_what_they_see(
    state: u32,
    seen: u32,
    count: u32,
    reader: RwCall,
    late_reader: RwCall,
    writer: RwCall,
    late_writer: RwCall,
    late_marker: RwCall,
    try_reader: RwCall,
    late_try_reader: RwCall,
    try_writer: RwCall,
    late_try_writer: RwCall,
    checker: RwCall,
)
    requires
        call_ensures(RwCall::advance, (RwCall::ReadLook, Reply::Value(state)), reader),
        call_ensures(
            RwCall::advance,
            (RwCall::ReadTake { state: seen }, Reply::Changed(state)),
            late_reader,
        ),
        call_ensures(RwCall::advance, (RwCall::WriteLook, Reply::Value(state)), writer),
        call_ensures(
            RwCall::advance,
            (RwCall::WriteTake { state: seen }, Reply::Changed(state)),
            late_writer,
        ),
        call_ensures(
            RwCall::advance,
            (RwCall::WriteMark { state: seen }, Reply::Changed(state)),
            late_marker,
        ),
        call_ensures(RwCall::advance, (RwCall::TryReadLook, Reply::Value(state)), try_reader),
        call_ensures(
            RwCall::advance,
            (RwCall::TryReadTake { state: seen }, Reply::Changed(state)),
            late_try_reader,
        ),
        call_ensures(RwCall::advance, (RwCall::TryWriteLook, Reply::Value(state)), try_writer),
        call_ensures(
            RwCall::advance,
            (RwCall::TryWriteTake { state: seen }, Reply::Changed(state)),
            late_try_writer,
        ),
        call_ensures(
            RwCall::advance,
            (RwCall::WriteCheck { count }, Reply::Value(state)),
            checker,
        ),
    ensures
        late_reader == reader,
        late_writer == writer,
        late_marker == writer,
        late_try_reader == RwCall::Done(RwOutcome::WouldBlock),
        late_try_writer == RwCall::Done(RwOutcome::WouldBlock),
        state % 2 == 0 && state != MOST_READERS ==> reader == (RwCall::ReadTake { state })
            && try_reader == (RwCall::TryReadTake { state }),
        state == MOST_READERS ==> reader == RwCall::Done(RwOutcome::TooManyReaders) && try_reader
            == RwCall::Done(RwOutcome::TooManyReaders),
        state == WRITE_LOCKED ==> reader is ReadAwaitWriter,
        state % 2 == 1 && state != WRITE_LOCKED ==> reader == (RwCall::ReadSleep { state }),
        state % 2 == 1 ==> try_reader == RwCall::Done(RwOutcome::WouldBlock),
        state <= 1 ==> writer == (RwCall::WriteTake { state }) && try_writer == (
        RwCall::TryWriteTake { state }),
        state > 1 ==> try_writer == RwCall::Done(RwOutcome::WouldBlock),
        state > 1 && state % 2 == 0 ==> writer == (RwCall::WriteMark { state }),
        state > 1 && state % 2 == 1 ==> writer is WriteEnter && checker == (RwCall::WriteSleep {
            count,
        }),
        state <= 1 || state % 2 == 0 ==> checker is WriteLeave,
{
}

/// A writer is counted among those that wait from when it enters until it leaves, and a release by
/// a writer is counted once. No other step changes these numbers, and neither step changes another
/// word.
pub proof fn law_waiting_is_counted_in_one_step(
    call: RwCall,
    action: Action<RwWord>,
    words: RwWords,
    after: RwWords,
    reply: Reply<u32>,
    next: RwCall,
)
    requires
        call_ensures(RwCall::action, (&call,), Some(action)),
        interleaving::rwlock::possible(words, action, after, reply),
        call_ensures(RwCall::advance, (call, reply), next),
        0 < words.waiting_writers < u32::MAX,
        words.writers_number < u32::MAX,
    ensures
        after.waiting_writers == words.waiting_writers + 1 <==> call is WriteEnter,
        after.waiting_writers == words.waiting_writers - 1 <==> call is WriteLeave,
        after.waiting_writers == words.waiting_writers || call is WriteEnter || call is WriteLeave,
        after.writers_number == words.writers_number + 1 <==> call is WriteUnlockCount,
        after.writers_number == words.writers_number || call is WriteUnlockCount,
        call is WriteEnter || call is WriteLeave || call is WriteUnlockCount ==> after.state
            == words.state,
        next matches RwCall::WriteCheck { count } ==> call is WriteCount && count
            == words.writers_number,
        call is WriteEnter ==> next is WriteCount,
        call is WriteLeave ==> next is WriteLook,
        call is WriteUnlock ==> next is WriteUnlockCount,
        call is WriteUnlockCount ==> next is WriteUnlockLook,
{
}

/// Where threads sleep and whom releases wake. Readers sleep on the state and writers on the number
/// of releases, each on the value that it saw, and both look again when they wake up. The last
/// reader wakes a writer that sleeps there; a writer wakes one writer there, or all readers.
pub proof fn law_sleepers_are_woken_where_they_sleep(
    call: RwCall,
    action: Action<RwWord>,
    next: RwCall,
)
    requires
        call_ensures(RwCall::action, (&call,), Some(action)),
        call_ensures(RwCall::advance, (call, Reply::Done), next),
    ensures
        call matches RwCall::ReadSleep { state } ==> action == Action::Wait(RwWord::State, state)
            && next is ReadLook,
        call is ReadAwaitWriter ==> action == Action::Wait(RwWord::State, WRITE_LOCKED)
            && next is ReadLook,
        call matches RwCall::WriteSleep { count } ==> action == Action::Wait(
            RwWord::WritersNumber,
            count,
        ) && next is WriteLeave,
        call is ReadUnlockWake || call is WriteUnlockWakeWriter ==> action == Action::<
            RwWord,
        >::WakeOne(RwWord::WritersNumber) && next == RwCall::Done(
            RwOutcome::Released(RwWake::OneWriter),
        ),
        call is WriteUnlockWakeReaders ==> action == Action::<RwWord>::WakeAll(RwWord::State)
            && next == RwCall::Done(RwOutcome::Released(RwWake::AllReaders)),
        action is Wait ==> call is ReadSleep || call is ReadAwaitWriter || call is WriteSleep,
        action is WakeOne ==> call is ReadUnlockWake || call is WriteUnlockWakeWriter,
        action is WakeAll ==> call is WriteUnlockWakeReaders,
{
}

/// What is done under the lock is seen by those that have it next: the steps that take the lock
/// acquire, and those that release it release.
pub proof fn law_lock_orders_memory(call: RwCall, action: Action<RwWord>)
    requires
        call_ensures(RwCall::action, (&call,), Some(action)),
    ensures
        call is ReadTake ==> {
            &&& action matches Action::Word(RwWord::State, op)
            &&& op is CompareExchangeWeak && op->CompareExchangeWeak_order == Order::Acquire
        },
        call is TryReadTake || call is WriteTake || call is TryWriteTake ==> {
            &&& action matches Action::Word(RwWord::State, op)
            &&& op is CompareExchange && op->CompareExchange_order == Order::Acquire
        },
        call is ReadUnlock ==> {
            &&& action matches Action::Word(RwWord::State, op)
            &&& op == Op::FetchSub(2u32, Order::Release)
        },
        call is WriteUnlock ==> {
            &&& action matches Action::Word(RwWord::State, op)
            &&& op == Op::Store(0u32, Order::Release)
        },
        call is WriteUnlockCount ==> {
            &&& action matches Action::Word(RwWord::WritersNumber, op)
            &&& op == Op::FetchAdd(1u32, Order::Release)
        },
        call is WriteCount ==> action == Action::Word(
            RwWord::WritersNumber,
            Op::Load(Order::Acquire),
        ),
        call is WriteUnlockLook ==> action == Action::Word(
            RwWord::WaitingWriters,
            Op::Load(Order::Acquire),
        ),
        call is WriteEnter ==> {
            &&& action matches Action::Word(RwWord::WaitingWriters, op)
            &&& op == Op::FetchAdd(1u32, Order::AcqRel)
        },
        call is WriteLeave ==> {
            &&& action matches Action::Word(RwWord::WaitingWriters, op)
            &&& op == Op::FetchSub(1u32, Order::AcqRel)
        },
{
}

/// A call that runs by itself goes through the steps of its protocol: what it comes to is what it
/// comes to after its first step. It stops where the step is a wait that does not end.
#[verifier::rlimit(40)]
pub proof fn law_run_takes_every_step(
    run: &mut RwWords,
    start: RwCall,
    end: RwCall,
    action: Action<RwWord>,
    step: &mut RwWords,
    reply: Reply<u32>,
    next: RwCall,
    rest: &mut RwWords,
    rest_end: RwCall,
)
    requires
        call_ensures(RwWords::run, (run, start), end),
        call_ensures(RwCall::action, (&start,), Some(action)),
        *old(step) == *old(run),
        call_ensures(RwWords::perform, (step, action), reply),
        call_ensures(RwCall::advance, (start, reply), next),
        *old(rest) == *final(step),
        call_ensures(RwWords::run, (rest, next), rest_end),
    ensures
        reply is Asleep ==> end == start && *final(run) == *old(run),
        !(reply is Asleep) ==> end == rest_end && *final(run) == *final(rest),
{
}

/// A call that is over stays as it is.
pub proof fn law_run_leaves_what_is_over(run: &mut RwWords, outcome: RwOutcome, end: RwCall)
    requires
        call_ensures(RwWords::run, (run, RwCall::Done(outcome)), end),
    ensures
        end == RwCall::Done(outcome),
        *final(run) == *old(run),
{
}

/// An action changes the word that it names as the operation does, and no other one. A wait goes on
/// exactly while the word has the value, and neither waits nor wake-up calls change anything.
pub proof fn law_actions_touch_one_word(
    words: &mut RwWords,
    action: Action<RwWord>,
    reply: Reply<u32>,
    word: &mut u32,
    op: Op<u32>,
    op_reply: Reply<u32>,
)
    requires
        call_ensures(RwWords::perform, (words, action), reply),
        call_ensures(Op::<u32>::apply, (op, word), op_reply),
    ensures
        action == Action::Word(RwWord::State, op) && *old(word) == old(words).state ==> {
            &&& *final(words) == (RwWords { state: *final(word), ..*old(words) })
            &&& reply == op_reply
        },
        action == Action::Word(RwWord::WritersNumber, op) && *old(word) == old(
            words,
        ).writers_number ==> {
            &&& *final(words) == (RwWords { writers_number: *final(word), ..*old(words) })
            &&& reply == op_reply
        },
        action == Action::Word(RwWord::WaitingWriters, op) && *old(word) == old(
            words,
        ).waiting_writers ==> {
            &&& *final(words) == (RwWords { waiting_writers: *final(word), ..*old(words) })
            &&& reply == op_reply
        },
        !(action is Word) ==> *final(words) == *old(words),
        action matches Action::Wait(RwWord::State, value) ==> (reply is Asleep <==> old(words).state
            == value),
        action matches Action::Wait(RwWord::WritersNumber, value) ==> (reply is Asleep <==> old(
            words,
        ).writers_number == value),
        action matches Action::Wait(RwWord::WaitingWriters, value) ==> (reply is Asleep <==> old(
            words,
        ).waiting_writers == value),
        action is WakeOne || action is WakeAll ==> reply is Done,
{
}

/// On atomic words a step is a step of the protocol: its action is performed, and the call goes
/// where the protocol leads with the reply that came back. A call that has no such step stays where
/// it is.
pub proof fn law_raw_step_is_a_step_of_the_protocol(
    raw: RawRwLock,
    call: RwCall,
    next: RwCall,
    action: Option<Action<RwWord>>,
)
    requires
        call_ensures(RawRwLock::step, (&raw, call), next),
        call_ensures(RwCall::action, (&call,), action),
    ensures
        action is None ==> next == call,
        action matches Some(act) ==> exists|reply: Reply<u32>|
            {
                &&& #[trigger] raw.performed(act, reply)
                &&& act.fits(reply)
                &&& forall|led: RwCall| #[trigger]
                    call_ensures(RwCall::advance, (call, reply), led) ==> led == next
            },
{
}

/// Every call can be made on every lock, and a guard can be used on its lock.
pub proof fn law_any_lock_can_be_asked_for<T>(
    lock: &mut RwLock<T>,
    me: &mut HeldLocks,
    read_guard: RwLockReadGuard,
    write_guard: RwLockWriteGuard,
    guard: &mut RwLockWriteGuard,
    panicking: bool,
)
    requires
        read_guard@ == old(lock)@.id,
        write_guard@ == old(lock)@.id,
        old(guard)@ == old(lock)@.id,
    ensures
        call_requires(RwLock::<T>::read, (lock, me)),
        call_requires(RwLock::<T>::write, (lock, me)),
        call_requires(RwLock::<T>::try_read, (lock, me)),
        call_requires(RwLock::<T>::try_write, (lock, me)),
        call_requires(RwLock::<T>::clear_poison, (lock,)),
        call_requires(RwLock::<T>::get_mut, (lock,)),
        call_requires(RwLockReadGuard::deref::<T>, (&read_guard, &*old(lock))),
        call_requires(RwLockReadGuard::unlock::<T>, (read_guard, lock, me)),
        call_requires(RwLockWriteGuard::deref::<T>, (&write_guard, &*old(lock))),
        call_requires(RwLockWriteGuard::deref_mut::<T>, (guard, lock)),
        call_requires(RwLockWriteGuard::unlock::<T>, (write_guard, lock, me, panicking)),
{
}

/// The state has room for as many readers as fit beside the value that says that a writer has the
/// lock, which is the largest.
pub proof fn law_state_counts_as_far_as_it_can()
    ensures
        WRITE_LOCKED == u32::MAX,
        MOST_READERS == u32::MAX - 1,
{
}

/// Where each step leads once it is done: a call that took the lock is over, a writer that noted
/// that it waits is counted, and a release goes on to wake whom it saw, or is over.
pub proof fn law_steps_come_in_order(call: RwCall, seen: u32, next: RwCall, taken: RwCall)
    requires
        call_ensures(RwCall::advance, (call, Reply::Value(seen)), next),
        call_ensures(RwCall::advance, (call, Reply::Swapped), taken),
    ensures
        call is ReadTake || call is TryReadTake ==> taken == RwCall::Done(RwOutcome::Reading),
        call is WriteTake || call is TryWriteTake ==> taken == RwCall::Done(RwOutcome::Writing),
        call is WriteMark ==> taken is WriteEnter,
        call is WriteEnter ==> next is WriteCount,
        call is WriteCount ==> next == (RwCall::WriteCheck { count: seen }),
        call is WriteLeave ==> next is WriteLook,
        call is ReadUnlock ==> next == if seen == 3 {
            RwCall::ReadUnlockWake
        } else {
            RwCall::Done(RwOutcome::Released(RwWake::Nobody))
        },
        call is WriteUnlockCount ==> next is WriteUnlockLook,
        call is WriteUnlockLook ==> next == if seen > 0 {
            RwCall::WriteUnlockWakeWriter
        } else {
            RwCall::WriteUnlockWakeReaders
        },
        call is Done ==> next == call && taken == call,
{
}

} // verus!
