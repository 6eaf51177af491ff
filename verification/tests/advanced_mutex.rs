use sync_primitives::advanced_mutex::{
    Mutex, MutexCall, MutexOutcome, MutexWords, RawMutex, CONTENDED, LOCKED, UNLOCKED,
};
use sync_primitives::mutex as queued;
use sync_primitives::utils::mutex_common::{HeldLocks, Identities, LockError, Progress, Wake};

fn run(raw: &RawMutex, start: MutexCall) -> MutexOutcome {
    let mut call = start;
    loop {
        if let MutexCall::Done(outcome) = call {
            return outcome;
        }
        call = raw.step(call);
    }
}

#[test]
fn advanced_mutex_test_basic_locking() {
    let mut ids = Identities::new();
    let mut me = HeldLocks::new();
    let mut mutex = Mutex::new(&mut ids, 4u8);
    let locked = mutex.lock(&mut me).finished().unwrap();
    assert_eq!(*locked.deref(&mutex), 4);
    locked.unlock(&mut mutex, &mut me, false);
    let mut locked = mutex.lock(&mut me).finished().unwrap();
    *locked.deref_mut(&mut mutex) *= 20;
    assert_eq!(*locked.deref(&mutex), 80);
}

#[test]
fn advanced_mutex_test_concurrency() {
    let mut ids = Identities::new();
    let mut mutex = Mutex::new(&mut ids, 0u8);
    for _ in 0..100 {
        let mut thread = HeldLocks::new();
        let mut lock = mutex.lock(&mut thread).finished().unwrap();
        *lock.deref_mut(&mut mutex) += 1;
        lock.unlock(&mut mutex, &mut thread, false);
    }
    let mut me = HeldLocks::new();
    let mut lock = mutex.lock(&mut me).finished().unwrap();
    *lock.deref_mut(&mut mutex) += 11;
    assert_eq!(*lock.deref(&mutex), 111);
}

#[test]
fn advanced_mutex_test_reentrancy() {
    let mut ids = Identities::new();
    let mut me = HeldLocks::new();
    let mut mutex = Mutex::new(&mut ids, "shared data");
    let first_lock = mutex.lock(&mut me).finished();
    let second_lock = mutex.lock(&mut me).finished();
    assert!(first_lock.is_ok());
    assert!(second_lock.is_err());
    assert_eq!(second_lock.unwrap_err(), LockError::WouldBlock);
}

#[test]
fn advanced_mutex_test_unlocking_after_panic() {
    let mut ids = Identities::new();
    let mut mutex = Mutex::new(&mut ids, 0u8);
    {
        let mut thread = HeldLocks::new();
        let mut lock = mutex.lock(&mut thread).finished().unwrap();
        *lock.deref_mut(&mut mutex) += 100;
        lock.unlock(&mut mutex, &mut thread, true);
    }
    let mut me = HeldLocks::new();
    let lock_attempt_one = mutex.lock(&mut me).finished();
    assert!(lock_attempt_one.is_err());
    assert!(mutex.is_poisoned());
    mutex.clear_poison();
    match lock_attempt_one {
        Err(LockError::Poisoned(lock)) => {
            lock.guard.unlock(&mut mutex, &mut me, false);
        }
        _ => panic!("the mutex is handed out inside the error"),
    }
    let lock_attempt_two = mutex.lock(&mut me).finished();
    assert!(lock_attempt_two.is_ok());
    assert_eq!(*lock_attempt_two.unwrap().deref(&mutex), 100);
}

#[test]
fn contended_mutex_is_handed_over() {
    let mut ids = Identities::new();
    let mut first = HeldLocks::new();
    let mut second = HeldLocks::new();
    let mut mutex = Mutex::new(&mut ids, 1u32);
    let guard = mutex.lock(&mut first).finished().unwrap();
    let waiting = match mutex.lock(&mut second) {
        Progress::Pending(call) => call,
        Progress::Finished(_) => panic!("the mutex is taken"),
    };
    assert_eq!(waiting, MutexCall::SlowSleep);
    assert_eq!(mutex.try_lock(&mut second).unwrap_err(), LockError::WouldBlock);
    assert_eq!(guard.unlock(&mut mutex, &mut first, false), Wake::One);
    let (locked, wake) = mutex.resume(waiting, &mut second);
    let guard = locked.finished().unwrap();
    assert_eq!(wake, Wake::One);
    assert_eq!(*guard.deref(&mutex), 1);
    assert_eq!(guard.unlock(&mut mutex, &mut second, false), Wake::Nobody);
    assert!(mutex.try_lock(&mut first).is_ok());
}

#[test]
fn every_sleeper_is_woken() {
    let mut ids = Identities::new();
    let mut first = HeldLocks::new();
    let mut second = HeldLocks::new();
    let mut third = HeldLocks::new();
    let mut mutex = Mutex::new(&mut ids, 0u32);
    let guard = mutex.lock(&mut first).finished().unwrap();
    let mut calls = vec![];
    for sleeper in [&mut second, &mut third] {
        match mutex.lock(sleeper) {
            Progress::Pending(call) => calls.push(call),
            Progress::Finished(_) => panic!("the mutex is taken"),
        }
    }
    assert_eq!(guard.unlock(&mut mutex, &mut first, false), Wake::One);
    let (locked, wake) = mutex.resume(calls[0], &mut second);
    let mut guard = locked.finished().unwrap();
    *guard.deref_mut(&mut mutex) += 1;
    // The next sleeper is woken too. It finds the mutex taken and notes that it sleeps.
    assert_eq!(wake, Wake::One);
    let (waiting, wake) = mutex.resume(calls[1], &mut third);
    assert!(waiting.is_pending());
    assert_eq!(wake, Wake::Nobody);
    assert_eq!(guard.unlock(&mut mutex, &mut second, false), Wake::One);
    let mut guard = mutex.resume(calls[1], &mut third).0.finished().unwrap();
    *guard.deref_mut(&mut mutex) += 1;
    assert_eq!(guard.unlock(&mut mutex, &mut third, false), Wake::Nobody);
    assert_eq!(mutex.into_inner(), 2);
}

#[test]
fn free_mutex_is_not_marked() {
    // The mutex is freed after the thread has found it taken and before the thread marks it.
    let mark = MutexCall::SlowMark { slept: false, seen: LOCKED };
    let mut words = MutexWords { state: UNLOCKED };
    assert_eq!(words.run(mark), MutexCall::Done(MutexOutcome::Acquired));
    assert_eq!(words.state, LOCKED);
    let mut words = MutexWords { state: LOCKED };
    assert_eq!(words.run(mark), MutexCall::SlowSleep);
    assert_eq!(words.state, CONTENDED);
}

#[test]
fn two_kinds_of_mutex_behave_alike() {
    let mut ids = Identities::new();
    let mut other_ids = Identities::new();
    let mut first = HeldLocks::new();
    let mut second = HeldLocks::new();
    let mut other_first = HeldLocks::new();
    let mut other_second = HeldLocks::new();
    let mut mutex = Mutex::new(&mut ids, 3u32);
    let mut other = queued::Mutex::new(&mut other_ids, 3u32);
    let guard = mutex.lock(&mut first).finished().unwrap();
    let other_guard = other.lock(&mut other_first, 1).finished().unwrap();
    assert!(mutex.lock(&mut first).finished().is_err());
    assert!(other.lock(&mut other_first, 1).finished().is_err());
    assert!(mutex.lock(&mut second).is_pending());
    assert!(other.lock(&mut other_second, 2).is_pending());
    assert!(mutex.try_lock(&mut second).is_err());
    assert!(other.try_lock(&mut other_second).is_err());
    guard.unlock(&mut mutex, &mut first, true);
    other_guard.unlock(&mut other, &mut other_first, true);
    assert!(matches!(mutex.try_lock(&mut first), Err(LockError::Poisoned(_))));
    assert!(matches!(other.try_lock(&mut other_first), Err(LockError::Poisoned(_))));
    assert_eq!(mutex.into_inner(), other.into_inner());
}

#[test]
fn release_undoes_acquire() {
    let mut words = MutexWords { state: UNLOCKED };
    assert_eq!(words.run(MutexCall::Lock), MutexCall::Done(MutexOutcome::Acquired));
    assert_eq!(words.state, LOCKED);
    assert_eq!(words.run(MutexCall::Lock), MutexCall::SlowSleep);
    assert_eq!(words.state, CONTENDED);
    assert_eq!(
        words.run(MutexCall::Unlock),
        MutexCall::Done(MutexOutcome::Released(Wake::One))
    );
    assert_eq!(words.state, UNLOCKED);
}

#[test]
fn mutex_poison_lasts_until_cleared() {
    let mut ids = Identities::new();
    let mut me = HeldLocks::new();
    let mut mutex = Mutex::new(&mut ids, 5u32);
    mutex.lock(&mut me).finished().unwrap().unlock(&mut mutex, &mut me, true);
    for _ in 0..3 {
        match mutex.try_lock(&mut me) {
            Err(LockError::Poisoned(lock)) => {
                assert_eq!(lock.message(), "Lock is poisoned!");
                lock.guard.unlock(&mut mutex, &mut me, false);
            }
            _ => panic!("the mutex is poisoned"),
        }
    }
    mutex.clear_poison();
    assert!(mutex.try_lock(&mut me).is_ok());
}

#[test]
fn mutex_data_without_locking() {
    let mut ids = Identities::new();
    let mut mutex = Mutex::new(&mut ids, 3u32);
    *mutex.get_mut() += 4;
    assert_eq!(mutex.into_inner(), 7);
}

#[test]
fn messages_of_lock_errors() {
    let blocked: LockError<u8> = LockError::WouldBlock;
    assert_eq!(blocked.message(), "Error: Can cause blocking");
    let mut ids = Identities::new();
    let mut me = HeldLocks::new();
    let mut mutex = Mutex::new(&mut ids, ());
    mutex.lock(&mut me).finished().unwrap().unlock(&mut mutex, &mut me, true);
    let error = mutex.lock(&mut me).finished().unwrap_err();
    assert_eq!(error.message(), "Error: Lock is poisoned");
    assert_eq!(format!("{:?}", error), "Poisoned(Lock is poisoned!)");
    assert_ne!(error, LockError::WouldBlock);
}

#[test]
fn identities_differ() {
    let mut ids = Identities::new();
    let first = ids.fresh();
    let second = ids.fresh();
    assert_eq!(first, 0);
    assert_eq!(second, 1);
}

#[test]
fn atomic_mutex_is_locked_and_released() {
    let raw = RawMutex::new();
    assert_eq!(run(&raw, MutexCall::Lock), MutexOutcome::Acquired);
    assert_eq!(run(&raw, MutexCall::TryLock), MutexOutcome::WouldBlock);
    assert_eq!(run(&raw, MutexCall::Unlock), MutexOutcome::Released(Wake::Nobody));
    assert_eq!(run(&raw, MutexCall::Lock), MutexOutcome::Acquired);
}

#[test]
fn atomic_mutex_wakes_a_sleeper() {
    let raw = RawMutex::new();
    assert_eq!(run(&raw, MutexCall::Lock), MutexOutcome::Acquired);
    // Another call comes to the point where it sleeps.
    let mut other = MutexCall::Lock;
    while other != MutexCall::SlowSleep {
        other = raw.step(other);
    }
    assert_eq!(run(&raw, MutexCall::Unlock), MutexOutcome::Released(Wake::One));
    // The word has changed, so it does not sleep.
    assert_eq!(run(&raw, other), MutexOutcome::Acquired);
    assert_eq!(run(&raw, MutexCall::TryLock), MutexOutcome::WouldBlock);
}
