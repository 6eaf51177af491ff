use sync_primitives::spinlock::{RawSpinLock, SpinCall, SpinLock, SpinOutcome, UNLOCKED};
use sync_primitives::utils::mutex_common::Progress;

fn run(raw: &RawSpinLock, start: SpinCall) -> SpinOutcome {
    let mut call = start;
    loop {
        if let SpinCall::Done(outcome) = call {
            return outcome;
        }
        call = raw.step(call);
    }
}

#[test]
fn basic_lock_functionality() {
    let mut spinlock = SpinLock::new(4u8);
    let locked = spinlock.lock().unwrap().finished();
    assert_eq!(*locked.deref(&spinlock), 4);
    locked.unlock(&mut spinlock);
    let mut locked = spinlock.lock().unwrap().finished();
    *locked.deref_mut(&mut spinlock) *= 2;
    assert_eq!(*locked.deref(&spinlock), 8);
}

#[test]
fn concurrent_access() {
    let mut spinlock = SpinLock::new(String::from(""));
    let mut lock = spinlock.lock_as(1).finished();
    lock.deref_mut(&mut spinlock).push_str("race");
    assert!(spinlock.lock_as(2).is_pending());
    lock.unlock(&mut spinlock);
    let mut lock = spinlock.lock_as(2).finished();
    lock.deref_mut(&mut spinlock).push_str("race");
    lock.unlock(&mut spinlock);
    let lock = spinlock.lock_as(1).finished();
    assert_eq!(*lock.deref(&spinlock), "racerace");
}

#[test]
#[should_panic]
fn reentrancy() {
    let mut spinlock = SpinLock::new("try to reenter me");
    let _first_lock = spinlock.lock().unwrap();
    let _second_lock = spinlock.lock().unwrap();
}

#[test]
fn test_mutex_interrupt() {
    let mut spinlock = SpinLock::new(0);
    let mut guard = spinlock.lock_as(1).finished();
    *guard.deref_mut(&mut spinlock) += 1;
    guard.unlock(&mut spinlock);
    let mut guard = spinlock.lock_as(2).finished();
    *guard.deref_mut(&mut spinlock) += 1;
    assert_eq!(*guard.deref(&spinlock), 2);
}

#[test]
fn only_reentrance_is_refused() {
    let mut spinlock = SpinLock::new(());
    let guard = match spinlock.lock_unless_held(7) {
        Some(Progress::Finished(guard)) => guard,
        _ => panic!("the lock is free"),
    };
    assert!(spinlock.lock_unless_held(7).is_none());
    match spinlock.lock_unless_held(8) {
        Some(Progress::Pending(call)) => assert_eq!(call, SpinCall::Look { me: 8 }),
        _ => panic!("another thread has the lock"),
    }
    guard.unlock(&mut spinlock);
    assert!(spinlock.lock_unless_held(8).is_some());
}

#[test]
fn current_thread_has_one_number() {
    let raw = RawSpinLock::new();
    let first = raw.lock();
    assert_eq!(first, raw.lock());
    assert_ne!(first, SpinCall::Look { me: UNLOCKED });
    assert_eq!(run(&raw, first), SpinOutcome::Acquired);
    assert_eq!(run(&raw, first), SpinOutcome::Reentrant);
    assert_eq!(run(&raw, SpinCall::Unlock), SpinOutcome::Released);
    assert_eq!(run(&raw, first), SpinOutcome::Acquired);
}

#[test]
fn atomic_spinlock_keeps_others_out() {
    let raw = RawSpinLock::new();
    assert_eq!(run(&raw, SpinCall::Look { me: 1 }), SpinOutcome::Acquired);
    let mut other = SpinCall::Look { me: 2 };
    for _ in 0..10 {
        other = raw.step(other);
        assert_eq!(other, SpinCall::Look { me: 2 });
    }
    assert_eq!(run(&raw, SpinCall::Unlock), SpinOutcome::Released);
    assert_eq!(run(&raw, other), SpinOutcome::Acquired);
}
