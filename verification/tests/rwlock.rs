use sync_primitives::rwlock::{
    claim, hand_out, refuse_holder, LockResult, RawRwLock, RwCall, RwLock, RwLockError, RwOutcome,
    RwWake, RwWords, MOST_READERS, WRITE_LOCKED,
};
use sync_primitives::utils::mutex_common::{HeldLocks, Identities, Progress};
use sync_primitives::word::Reply;

fn run(raw: &RawRwLock, start: RwCall) -> RwOutcome {
    let mut call = start;
    loop {
        if let RwCall::Done(outcome) = call {
            return outcome;
        }
        call = raw.step(call);
    }
}

#[test]
fn test_basic_read() {
    let mut ids = Identities::new();
    let mut me = HeldLocks::new();
    let mut lock = RwLock::new(&mut ids, 42);
    let read_guard = lock.read(&mut me).finished().unwrap();
    assert_eq!(*read_guard.deref(&lock), 42);
}

#[test]
fn test_basic_write() {
    let mut ids = Identities::new();
    let mut me = HeldLocks::new();
    let mut lock = RwLock::new(&mut ids, 42);
    let mut write_guard = lock.write(&mut me).finished().unwrap();
    *write_guard.deref_mut(&mut lock) = 84;
    assert_eq!(*write_guard.deref(&lock), 84);
}

#[test]
fn test_multiple_readers() {
    let mut ids = Identities::new();
    let mut lock = RwLock::new(&mut ids, 0);
    let mut readers = vec![];
    for _ in 0..5 {
        let mut held = HeldLocks::new();
        let guard = lock.read(&mut held).finished().unwrap();
        readers.push((held, guard));
    }
    for (mut held, guard) in readers {
        assert_eq!(*guard.deref(&lock), 0);
        assert_eq!(guard.unlock(&mut lock, &mut held), RwWake::Nobody);
    }
}

#[test]
fn test_write_blocks_reads() {
    let mut ids = Identities::new();
    let mut me = HeldLocks::new();
    let mut other = HeldLocks::new();
    let mut lock = RwLock::new(&mut ids, 0);
    let _write_guard = lock.write(&mut me).finished().unwrap();
    let result = lock.try_read(&mut other);
    assert!(matches!(result, Err(RwLockError::WouldBlock)));
}

#[test]
fn test_write_blocks_writes() {
    let mut ids = Identities::new();
    let mut me = HeldLocks::new();
    let mut other = HeldLocks::new();
    let mut lock = RwLock::new(&mut ids, 0);
    let _write_guard = lock.write(&mut me).finished().unwrap();
    let result = lock.try_write(&mut other);
    assert!(matches!(result, Err(RwLockError::WouldBlock)));
}

#[test]
fn test_read_to_write_upgrade_blocked() {
    let mut ids = Identities::new();
    let mut me = HeldLocks::new();
    let mut lock = RwLock::new(&mut ids, 42);
    let _read_guard = lock.read(&mut me).finished().unwrap();
    let write_result = lock.try_write(&mut me);
    assert!(matches!(write_result, Err(RwLockError::WouldBlock)));
}

#[test]
fn test_poisoning() {
    let mut ids = Identities::new();
    let mut me = HeldLocks::new();
    let mut other = HeldLocks::new();
    let mut lock = RwLock::new(&mut ids, 0);
    let mut guard = lock.write(&mut other).finished().unwrap();
    *guard.deref_mut(&mut lock) = 42;
    guard.unlock(&mut lock, &mut other, true);
    assert!(matches!(lock.try_read(&mut me), Err(RwLockError::Poisoned(_))));
}

#[test]
fn test_clear_poison() {
    let mut ids = Identities::new();
    let mut me = HeldLocks::new();
    let mut other = HeldLocks::new();
    let mut lock = RwLock::new(&mut ids, 0);
    let mut guard = lock.write(&mut other).finished().unwrap();
    *guard.deref_mut(&mut lock) = 42;
    guard.unlock(&mut lock, &mut other, true);
    assert!(lock.is_poisoned());

    lock.clear_poison();
    assert!(!lock.is_poisoned());

    let guard = lock.read(&mut me).finished().unwrap();
    assert_eq!(*guard.deref(&lock), 42);
}

#[test]
fn test_get_mut_and_into_inner() {
    let mut ids = Identities::new();
    let mut me = HeldLocks::new();
    let mut lock = RwLock::new(&mut ids, 42);

    {
        let value = lock.get_mut();
        *value = 84;
    }

    let read_guard = lock.read(&mut me).finished().unwrap();
    assert_eq!(*read_guard.deref(&lock), 84);
    read_guard.unlock(&mut lock, &mut me);

    let final_value = lock.into_inner();
    assert_eq!(final_value, 84);
}

#[test]
fn test_explicit_unlock() {
    let mut ids = Identities::new();
    let mut me = HeldLocks::new();
    let mut lock = RwLock::new(&mut ids, 42);

    {
        let read_guard = lock.read(&mut me).finished().unwrap();
        read_guard.unlock(&mut lock, &mut me);
        let write_guard = lock.try_write(&mut me).unwrap();
        write_guard.unlock(&mut lock, &mut me, false);
    }

    {
        let write_guard = lock.write(&mut me).finished().unwrap();
        write_guard.unlock(&mut lock, &mut me, false);
        let _read_guard = lock.try_read(&mut me).unwrap();
    }
}

#[test]
fn waiting_writer_keeps_readers_out() {
    let mut ids = Identities::new();
    let mut reader = HeldLocks::new();
    let mut writer = HeldLocks::new();
    let mut late = HeldLocks::new();
    let mut lock = RwLock::new(&mut ids, 0);
    let guard = lock.read(&mut reader).finished().unwrap();
    let waiting = match lock.write(&mut writer) {
        Progress::Pending(call) => call,
        Progress::Finished(_) => panic!("a reader has the lock"),
    };
    assert_eq!(lock.try_read(&mut late).unwrap_err(), RwLockError::WouldBlock);
    let reading = lock.read(&mut late);
    assert!(reading.is_pending());
    assert_eq!(guard.unlock(&mut lock, &mut reader), RwWake::OneWriter);
    assert!(matches!(waiting, RwCall::WriteSleep { .. }));
    let mut guard = lock.resume_write(waiting, &mut writer).finished().unwrap();
    *guard.deref_mut(&mut lock) = 5;
    assert_eq!(guard.unlock(&mut lock, &mut writer, false), RwWake::AllReaders);
    assert_eq!(lock.into_inner(), 5);
}

#[test]
fn writer_behind_a_reader_gets_on() {
    let mut words = RwWords { state: 2, writers_number: 0, waiting_writers: 0 };
    let asleep = words.run(RwCall::WriteLook);
    assert_eq!(asleep, RwCall::WriteSleep { count: 0 });
    assert_eq!(words.run(asleep), asleep);
    assert_eq!(words, RwWords { state: 3, writers_number: 0, waiting_writers: 1 });
    assert_eq!(
        words.run(RwCall::ReadUnlock),
        RwCall::Done(RwOutcome::Released(RwWake::OneWriter))
    );
    assert_eq!(words, RwWords { state: 1, writers_number: 0, waiting_writers: 1 });
    let woken = asleep.advance(Reply::Done);
    assert_eq!(words.run(woken), RwCall::Done(RwOutcome::Writing));
    assert_eq!(words, RwWords { state: WRITE_LOCKED, writers_number: 0, waiting_writers: 0 });
}

#[test]
fn unlock_prefers_writers() {
    let mut words = RwWords { state: WRITE_LOCKED, writers_number: 7, waiting_writers: 1 };
    assert_eq!(
        words.run(RwCall::WriteUnlock),
        RwCall::Done(RwOutcome::Released(RwWake::OneWriter))
    );
    assert_eq!(words, RwWords { state: 0, writers_number: 8, waiting_writers: 1 });
    let mut words = RwWords { state: WRITE_LOCKED, writers_number: u32::MAX, waiting_writers: 0 };
    assert_eq!(
        words.run(RwCall::WriteUnlock),
        RwCall::Done(RwOutcome::Released(RwWake::AllReaders))
    );
    assert_eq!(words, RwWords { state: 0, writers_number: 0, waiting_writers: 0 });
}

#[test]
fn readers_run_out() {
    let mut words = RwWords { state: MOST_READERS, writers_number: 0, waiting_writers: 0 };
    assert_eq!(words.run(RwCall::ReadLook), RwCall::Done(RwOutcome::TooManyReaders));
    assert_eq!(words.run(RwCall::TryReadLook), RwCall::Done(RwOutcome::TooManyReaders));
    assert_eq!(words.run(RwCall::TryWriteLook), RwCall::Done(RwOutcome::WouldBlock));
    let mut words = RwWords { state: MOST_READERS - 2, writers_number: 0, waiting_writers: 0 };
    assert_eq!(words.run(RwCall::ReadLook), RwCall::Done(RwOutcome::Reading));
    assert_eq!(words.state, MOST_READERS);
}

#[test]
fn read_unlock_undoes_read() {
    let mut words = RwWords { state: 4, writers_number: 3, waiting_writers: 0 };
    assert_eq!(words.run(RwCall::ReadLook), RwCall::Done(RwOutcome::Reading));
    assert_eq!(words.state, 6);
    assert_eq!(
        words.run(RwCall::ReadUnlock),
        RwCall::Done(RwOutcome::Released(RwWake::Nobody))
    );
    assert_eq!(words, RwWords { state: 4, writers_number: 3, waiting_writers: 0 });
}

#[test]
fn reader_sleeps_while_a_writer_has_the_lock() {
    let mut ids = Identities::new();
    let mut writer = HeldLocks::new();
    let mut reader = HeldLocks::new();
    let mut lock = RwLock::new(&mut ids, 0);
    let guard = lock.write(&mut writer).finished().unwrap();
    let call = match lock.read(&mut reader) {
        Progress::Pending(call) => call,
        Progress::Finished(_) => panic!("a writer has the lock"),
    };
    assert_eq!(call, RwCall::ReadAwaitWriter);
    assert!(lock.resume_read(call, &mut reader).is_pending());
    assert_eq!(guard.unlock(&mut lock, &mut writer, false), RwWake::AllReaders);
    assert!(lock.resume_read(call, &mut reader).finished().is_ok());
}

#[test]
fn blocked_reader_reads_what_the_writer_left() {
    let mut ids = Identities::new();
    let mut writer = HeldLocks::new();
    let mut reader = HeldLocks::new();
    let mut lock = RwLock::new(&mut ids, 0);
    let mut guard = lock.write(&mut writer).finished().unwrap();
    let call = match lock.read(&mut reader) {
        Progress::Pending(call) => call,
        Progress::Finished(_) => panic!("a writer has the lock"),
    };
    *guard.deref_mut(&mut lock) = 17;
    guard.unlock(&mut lock, &mut writer, false);
    let guard = lock.resume_read(call, &mut reader).finished().unwrap();
    assert_eq!(*guard.deref(&lock), 17);
    assert_eq!(guard.unlock(&mut lock, &mut reader), RwWake::Nobody);
}

#[test]
fn blocked_writer_gets_the_lock_from_the_writer() {
    let mut ids = Identities::new();
    let mut first = HeldLocks::new();
    let mut second = HeldLocks::new();
    let mut lock = RwLock::new(&mut ids, 1);
    let guard = lock.write(&mut first).finished().unwrap();
    let call = match lock.write(&mut second) {
        Progress::Pending(call) => call,
        Progress::Finished(_) => panic!("a writer has the lock"),
    };
    assert_eq!(call, RwCall::WriteSleep { count: 0 });
    assert_eq!(guard.unlock(&mut lock, &mut first, false), RwWake::OneWriter);
    let mut guard = lock.resume_write(call, &mut second).finished().unwrap();
    *guard.deref_mut(&mut lock) = 2;
    assert_eq!(guard.unlock(&mut lock, &mut second, false), RwWake::AllReaders);
    assert_eq!(lock.into_inner(), 2);
}

#[test]
fn writers_behind_readers_come_one_after_the_other() {
    let mut ids = Identities::new();
    let mut reader = HeldLocks::new();
    let mut writers = vec![HeldLocks::new(), HeldLocks::new()];
    let mut lock = RwLock::new(&mut ids, 0);
    let guard = lock.read(&mut reader).finished().unwrap();
    let mut calls = vec![];
    for writer in writers.iter_mut() {
        match lock.write(writer) {
            Progress::Pending(call) => calls.push(call),
            Progress::Finished(_) => panic!("a reader has the lock"),
        }
    }
    assert_eq!(guard.unlock(&mut lock, &mut reader), RwWake::OneWriter);
    let guard = lock.resume_write(calls[0], &mut writers[0]).finished().unwrap();
    assert!(lock.resume_write(calls[1], &mut writers[1]).is_pending());
    assert_eq!(guard.unlock(&mut lock, &mut writers[0], false), RwWake::OneWriter);
    let guard = lock.resume_write(calls[1], &mut writers[1]).finished().unwrap();
    assert_eq!(guard.unlock(&mut lock, &mut writers[1], false), RwWake::AllReaders);
    assert!(lock.try_read(&mut reader).is_ok());
}

#[test]
fn writer_that_is_counted_too_late_does_not_sleep() {
    // The reader leaves after the writer has found it and before the writer looks at the number.
    let mut words = RwWords { state: 2, writers_number: 0, waiting_writers: 0 };
    let mut writer = RwCall::WriteLook;
    while writer != RwCall::WriteCount {
        let action = writer.action().unwrap();
        writer = writer.advance(words.perform(action));
    }
    assert_eq!(
        words.run(RwCall::ReadUnlock),
        RwCall::Done(RwOutcome::Released(RwWake::OneWriter))
    );
    assert_eq!(words.run(writer), RwCall::Done(RwOutcome::Writing));
    assert_eq!(words, RwWords { state: WRITE_LOCKED, writers_number: 0, waiting_writers: 0 });
}

#[test]
fn outcomes_are_claimed() {
    let mut me = HeldLocks::new();
    let blocked: Result<(), RwLockError<u8>> = claim(RwOutcome::WouldBlock, 3, &mut me);
    assert_eq!(blocked, Err(RwLockError::WouldBlock));
    let crowded: Result<(), RwLockError<u8>> = claim(RwOutcome::TooManyReaders, 3, &mut me);
    assert_eq!(crowded, Err(RwLockError::TooManyReaders));
    assert_eq!(refuse_holder::<u8>(3, &me), Ok(()));
    let claimed: Result<(), RwLockError<u8>> = claim(RwOutcome::Writing, 3, &mut me);
    assert_eq!(claimed, Ok(()));
    assert_eq!(refuse_holder::<u8>(3, &me), Err(RwLockError::WouldBlock));
    assert_eq!(refuse_holder::<u8>(4, &me), Ok(()));
    assert_eq!(hand_out(7u8, false), Ok(7u8));
    let poisoned: LockResult<u8> = hand_out(7u8, true);
    assert!(matches!(poisoned, Err(RwLockError::Poisoned(lock)) if lock.guard == 7));
}

#[test]
fn sleeping_reader_gets_on() {
    let mut ids = Identities::new();
    let mut first = HeldLocks::new();
    let mut writer = HeldLocks::new();
    let mut second = HeldLocks::new();
    let mut lock = RwLock::new(&mut ids, 9);
    let guard = lock.read(&mut first).finished().unwrap();
    assert!(lock.write(&mut writer).is_pending());
    let call = match lock.read(&mut second) {
        Progress::Pending(call) => call,
        Progress::Finished(_) => panic!("a writer waits"),
    };
    assert_eq!(call, RwCall::ReadSleep { state: 3 });
    guard.unlock(&mut lock, &mut first);
    // A writer takes the lock and gives it back.
    let mut other = HeldLocks::new();
    let guard = lock.write(&mut other).finished().unwrap();
    guard.unlock(&mut lock, &mut other, false);
    let guard = lock.resume_read(call, &mut second).finished().unwrap();
    assert_eq!(*guard.deref(&lock), 9);
}

#[test]
fn messages_of_rwlock_errors() {
    let blocked: RwLockError<u8> = RwLockError::WouldBlock;
    let crowded: RwLockError<u8> = RwLockError::TooManyReaders;
    assert_eq!(blocked.message(), "Error: Can cause blocking");
    assert_eq!(crowded.message(), "Error: RwLock has too many readers");
    assert_ne!(blocked, crowded);
    let mut ids = Identities::new();
    let mut me = HeldLocks::new();
    let mut lock = RwLock::new(&mut ids, ());
    lock.write(&mut me).finished().unwrap().unlock(&mut lock, &mut me, true);
    match lock.write(&mut me).finished() {
        Err(error) => {
            assert_eq!(error.message(), "Error: RwLock is poisoned");
            match error {
                RwLockError::Poisoned(poisoned) => {
                    assert_eq!(poisoned.message(), "Lock is poisoned!");
                    assert_eq!(format!("{:?}", poisoned), "Lock is poisoned!");
                }
                _ => panic!("the lock is poisoned"),
            }
        }
        Ok(_) => panic!("the lock is poisoned"),
    }
}

#[test]
fn atomic_rwlock_counts_readers() {
    let raw = RawRwLock::new();
    assert_eq!(run(&raw, RwCall::ReadLook), RwOutcome::Reading);
    assert_eq!(run(&raw, RwCall::TryReadLook), RwOutcome::Reading);
    assert_eq!(run(&raw, RwCall::TryWriteLook), RwOutcome::WouldBlock);
    assert_eq!(run(&raw, RwCall::ReadUnlock), RwOutcome::Released(RwWake::Nobody));
    assert_eq!(run(&raw, RwCall::ReadUnlock), RwOutcome::Released(RwWake::Nobody));
    assert_eq!(run(&raw, RwCall::WriteLook), RwOutcome::Writing);
    assert_eq!(run(&raw, RwCall::TryReadLook), RwOutcome::WouldBlock);
    assert_eq!(run(&raw, RwCall::WriteUnlock), RwOutcome::Released(RwWake::AllReaders));
}

#[test]
fn atomic_rwlock_lets_a_waiting_writer_in() {
    let raw = RawRwLock::new();
    assert_eq!(run(&raw, RwCall::ReadLook), RwOutcome::Reading);
    let mut writer = RwCall::WriteLook;
    while !matches!(writer, RwCall::WriteSleep { .. }) {
        writer = raw.step(writer);
    }
    assert_eq!(run(&raw, RwCall::TryReadLook), RwOutcome::WouldBlock);
    assert_eq!(run(&raw, RwCall::ReadUnlock), RwOutcome::Released(RwWake::OneWriter));
    assert_eq!(run(&raw, writer.advance(Reply::Done)), RwOutcome::Writing);
    assert_eq!(run(&raw, RwCall::TryWriteLook), RwOutcome::WouldBlock);
}

#[test]
fn reader_that_slept_finds_no_room() {
    let mut words = RwWords { state: MOST_READERS, writers_number: 0, waiting_writers: 0 };
    assert_eq!(
        words.run(RwCall::ReadSleep { state: 3 }),
        RwCall::Done(RwOutcome::TooManyReaders)
    );
    assert_eq!(words.state, MOST_READERS);
}
