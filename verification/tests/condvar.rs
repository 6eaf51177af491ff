use sync_primitives::condvar::{CondCall, CondOutcome, CondVar, CondWait, CondWords, RawCondVar};
use sync_primitives::mutex::{Mutex, MutexCall};
use sync_primitives::utils::mutex_common::{HeldLocks, Identities, Progress, Wake};
use sync_primitives::word::Reply;

fn run(raw: &RawCondVar, start: CondCall) -> CondCall {
    let mut call = start;
    loop {
        let next = raw.step(call);
        if next == call {
            return call;
        }
        call = next;
    }
}

#[test]
fn test_basic_wait_notify_one() {
    let mut ids = Identities::new();
    let mut mutex = Mutex::new(&mut ids, 0);
    let mut cvar = CondVar::new();
    let mut waiter = HeldLocks::new();
    let mut notifier = HeldLocks::new();

    let guard = mutex.lock(&mut waiter, 1).finished().unwrap();
    assert!(*guard.deref(&mutex) < 1);
    let (first, wait) = cvar.wait(guard, &mut mutex, &mut waiter, false);
    assert_eq!(first, None);
    {
        let mut guard = mutex.lock(&mut notifier, 2).finished().unwrap();
        *guard.deref_mut(&mut mutex) = 1;
        guard.unlock(&mut mutex, &mut notifier, false);
    }
    assert_eq!(cvar.notify_one(), Wake::One);
    let guard = cvar.resume(wait, &mut mutex, &mut waiter, 1).finished();
    assert_eq!(*guard.deref(&mutex), 1);
}

#[test]
fn test_notify_all_multiple_waiters() {
    let mut ids = Identities::new();
    let mut mutex = Mutex::new(&mut ids, 0);
    let mut cvar = CondVar::new();
    let thread_count = 8;
    let mut waits: Vec<CondWait> = vec![];
    let mut threads: Vec<HeldLocks> = vec![];

    for thread in 0..thread_count {
        let mut held = HeldLocks::new();
        let guard = mutex.lock(&mut held, thread).finished().unwrap();
        let (_, wait) = cvar.wait(guard, &mut mutex, &mut held, false);
        waits.push(wait);
        threads.push(held);
    }
    assert_eq!(cvar.waiting(), 8);
    let mut me = HeldLocks::new();
    let mut guard = mutex.lock(&mut me, 100).finished().unwrap();
    *guard.deref_mut(&mut mutex) = 1;
    assert_eq!(cvar.notify_all(), Wake::All);
    // The first that wakes up finds the mutex taken.
    let locking = match cvar.resume(waits[0], &mut mutex, &mut threads[0], 0) {
        Progress::Pending(wait) => wait,
        Progress::Finished(_) => panic!("the mutex is taken"),
    };
    assert_eq!(locking, CondWait::Locking(MutexCall::Park { me: 0 }));
    waits[0] = locking;
    assert_eq!(guard.unlock(&mut mutex, &mut me, false), Some(0));
    for thread in 0..thread_count {
        let held = &mut threads[thread];
        let guard = cvar.resume(waits[thread], &mut mutex, held, thread).finished();
        assert_eq!(*guard.deref(&mutex), 1);
        guard.unlock(&mut mutex, held, false);
    }
    assert_eq!(cvar.waiting(), 0);
}

#[test]
fn test_waiting_counter() {
    let mut ids = Identities::new();
    let mut mutex = Mutex::new(&mut ids, 0);
    let mut cvar = CondVar::new();
    let mut waiter = HeldLocks::new();

    assert_eq!(cvar.waiting(), 0);

    let guard = mutex.lock(&mut waiter, 1).finished().unwrap();
    let (_, wait) = cvar.wait(guard, &mut mutex, &mut waiter, false);
    assert_eq!(cvar.waiting(), 1);

    cvar.notify_one();
    cvar.resume(wait, &mut mutex, &mut waiter, 1).finished();
    assert_eq!(cvar.waiting(), 0);
}

#[test]
fn waiter_sleeps_until_a_notification() {
    let mut ids = Identities::new();
    let mut mutex = Mutex::new(&mut ids, 0);
    let mut cvar = CondVar::new();
    let mut waiter = HeldLocks::new();
    let guard = mutex.lock(&mut waiter, 1).finished().unwrap();
    let (_, wait) = cvar.wait(guard, &mut mutex, &mut waiter, false);
    assert_eq!(wait, CondWait::Sleeping(CondCall::WaitSleep { seen: 0 }));
    match cvar.resume(wait, &mut mutex, &mut waiter, 1) {
        Progress::Pending(still) => assert_eq!(still, wait),
        Progress::Finished(_) => panic!("there was no notification"),
    }
    assert_eq!(cvar.notify_all(), Wake::All);
    cvar.resume(wait, &mut mutex, &mut waiter, 1).finished();
}

#[test]
fn nobody_is_woken_without_waiters() {
    let mut words = CondWords { counter: u32::MAX, waiting: 0 };
    assert_eq!(
        words.run(CondCall::NotifyAll),
        CondCall::Done(CondOutcome::Notified(Wake::Nobody))
    );
    assert_eq!(words, CondWords { counter: 0, waiting: 0 });
}

#[test]
fn atomic_condvar_does_not_sleep_through_a_notification() {
    let raw = RawCondVar::new();
    let unlocking = run(&raw, CondCall::WaitLook);
    assert_eq!(unlocking, CondCall::WaitUnlock { seen: 0 });
    let sleeping = unlocking.advance(Reply::Done);
    assert_eq!(sleeping, CondCall::WaitSleep { seen: 0 });
    assert_eq!(
        run(&raw, CondCall::NotifyAll),
        CondCall::Done(CondOutcome::Notified(Wake::All))
    );
    assert_eq!(run(&raw, sleeping), CondCall::WaitLock);
    assert_eq!(
        run(&raw, CondCall::NotifyAll),
        CondCall::Done(CondOutcome::Notified(Wake::Nobody))
    );
    assert_eq!(
        run(&raw, CondCall::NotifyOne),
        CondCall::Done(CondOutcome::Notified(Wake::One))
    );
}
