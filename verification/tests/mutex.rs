use std::collections::VecDeque;
use sync_primitives::mutex::{
    Mutex, MutexAction, MutexCall, MutexOutcome, MutexReply, MutexWords, RawMutex,
};
use sync_primitives::utils::mutex_common::{HeldLocks, Identities, LockError, Progress};

fn run(raw: &RawMutex, queue: &mut VecDeque<usize>, start: MutexCall) -> MutexCall {
    let mut call = start;
    loop {
        let action = match call.action() {
            None => return call,
            Some(action) => action,
        };
        let reply = match raw.perform(action) {
            Some(reply) => reply,
            None => match action {
                MutexAction::Push(thread) => {
                    queue.push_back(thread);
                    MutexReply::Done
                }
                MutexAction::Pop => MutexReply::First(queue.pop_front()),
                MutexAction::Enter(thread) => {
                    if !queue.contains(&thread) {
                        queue.push_back(thread);
                    }
                    MutexReply::Done
                }
                MutexAction::Remove(thread) => {
                    queue.retain(|number| *number != thread);
                    MutexReply::Done
                }
                MutexAction::Park => return call,
                _ => MutexReply::Done,
            },
        };
        call = call.advance(reply);
    }
}

#[test]
fn mutex_test_basic_locking() {
    let mut ids = Identities::new();
    let mut me = HeldLocks::new();
    let mut mutex = Mutex::new(&mut ids, 4u8);
    let locked = mutex.lock(&mut me, 1).finished().unwrap();
    assert_eq!(*locked.deref(&mutex), 4);
    locked.unlock(&mut mutex, &mut me, false);
    let mut locked = mutex.lock(&mut me, 1).finished().unwrap();
    *locked.deref_mut(&mut mutex) *= 20;
    assert_eq!(*locked.deref(&mutex), 80);
}

#[test]
fn test_try_lock() {
    let mut ids = Identities::new();
    let mut me = HeldLocks::new();
    let mut mutex = Mutex::new(&mut ids, 4u8);
    let locked = mutex.lock(&mut me, 1).finished();
    let try_locked = mutex.try_lock(&mut me);
    assert!(locked.is_ok());
    assert!(try_locked.is_err());
}

#[test]
fn mutex_test_concurrency() {
    let mut ids = Identities::new();
    let mut mutex = Mutex::new(&mut ids, 0u8);
    for thread in 0..100 {
        let mut held = HeldLocks::new();
        let mut lock = mutex.lock(&mut held, thread).finished().unwrap();
        *lock.deref_mut(&mut mutex) += 1;
        assert_eq!(lock.unlock(&mut mutex, &mut held, false), None);
    }
    let mut me = HeldLocks::new();
    let mut lock = mutex.lock(&mut me, 100).finished().unwrap();
    *lock.deref_mut(&mut mutex) += 11;
    assert_eq!(*lock.deref(&mutex), 111);
}

#[test]
fn mutex_test_reentrancy() {
    let mut ids = Identities::new();
    let mut me = HeldLocks::new();
    let mut mutex = Mutex::new(&mut ids, "shared data");
    let first_lock = mutex.lock(&mut me, 1).finished();
    let second_lock = mutex.lock(&mut me, 1).finished();
    assert!(first_lock.is_ok());
    assert!(second_lock.is_err());
    assert_eq!(second_lock.unwrap_err(), LockError::WouldBlock);
}

#[test]
fn mutex_is_poisoned_by_a_panic() {
    let mut ids = Identities::new();
    let mut me = HeldLocks::new();
    let mut m = Mutex::new(&mut ids, 0u8);
    let mut ml = m.lock(&mut me, 1).finished().unwrap();
    *ml.deref_mut(&mut m) += 100;
    ml.unlock(&mut m, &mut me, true);
    let lock_attempt_one = m.lock(&mut me, 1).finished();
    assert!(lock_attempt_one.is_err());
    assert!(m.is_poisoned());
    m.clear_poison();
    if let Err(LockError::Poisoned(lock)) = lock_attempt_one {
        lock.guard.unlock(&mut m, &mut me, false);
    }
    let lock_attempt_two = m.lock(&mut me, 1).finished();
    assert!(lock_attempt_two.is_ok());
    assert_eq!(*lock_attempt_two.unwrap().deref(&m), 100);
}

#[test]
fn mutex_queue_is_fair() {
    let mut ids = Identities::new();
    let mut mutex = Mutex::new(&mut ids, ());
    let mut holder = HeldLocks::new();
    let guard = mutex.lock(&mut holder, 0).finished().unwrap();
    let mut threads: Vec<HeldLocks> = vec![];
    let mut calls: Vec<MutexCall> = vec![];
    for i in 1..6 {
        let mut held = HeldLocks::new();
        match mutex.lock(&mut held, i) {
            Progress::Pending(call) => calls.push(call),
            Progress::Finished(_) => panic!("the mutex is taken"),
        }
        threads.push(held);
    }
    let mut order: Vec<usize> = vec![];
    let mut first = guard.unlock(&mut mutex, &mut holder, false);
    while let Some(thread) = first {
        order.push(thread);
        let held = &mut threads[thread - 1];
        let guard = mutex.resume(calls[thread - 1], held).finished().unwrap();
        first = guard.unlock(&mut mutex, held, false);
    }
    assert_eq!(order, vec![1, 2, 3, 4, 5]);
}

#[test]
fn thread_that_nobody_unparked_keeps_its_place() {
    let mut words = MutexWords::new();
    let acquired = MutexCall::Done(MutexOutcome::Acquired);
    assert_eq!(words.run(MutexCall::SpinLook { me: 1, counter: 0, again: false }), acquired);
    let parked = words.run(MutexCall::SpinLook { me: 2, counter: 0, again: false });
    assert_eq!(parked, MutexCall::Park { me: 2 });
    assert_eq!(words.run(parked), parked);
    assert_eq!(
        words.run(MutexCall::SpinLook { me: 3, counter: 0, again: false }),
        MutexCall::Park { me: 3 }
    );
    // The park of the first thread in the queue is over, and the mutex is still taken.
    assert_eq!(
        words.run(parked.advance(MutexReply::Done)),
        MutexCall::Park { me: 2 }
    );
    assert_eq!(
        words.run(MutexCall::DequeueLook),
        MutexCall::Done(MutexOutcome::Released(Some(2)))
    );
    // The thread that is in the queue yet finds the mutex free, and leaves the queue with it.
    assert_eq!(
        words.run(MutexCall::Park { me: 3 }.advance(MutexReply::Done)),
        acquired
    );
    assert_eq!(
        words.run(MutexCall::DequeueLook),
        MutexCall::Done(MutexOutcome::Released(None))
    );
}

#[test]
fn mutex_is_granted_in_order_of_asking() {
    let mut words = MutexWords::new();
    let acquired = MutexCall::Done(MutexOutcome::Acquired);
    assert_eq!(words.run(MutexCall::SpinLook { me: 0, counter: 0, again: false }), acquired);
    for me in 1..25 {
        let call = words.run(MutexCall::SpinLook { me, counter: 0, again: false });
        assert_eq!(call, MutexCall::Park { me });
    }
    let mut order: Vec<usize> = vec![0];
    while let MutexCall::Done(MutexOutcome::Released(Some(me))) = words.run(MutexCall::DequeueLook) {
        assert_eq!(words.run(MutexCall::Park { me }.advance(MutexReply::Done)), acquired);
        order.push(me);
    }
    assert_eq!(order, (0..25).collect::<Vec<usize>>());
}

#[test]
fn thread_does_not_queue_for_a_free_mutex() {
    // The mutex is freed after the thread has found it taken and before the thread enters the
    // queue.
    let mut words = MutexWords::new();
    let acquired = MutexCall::Done(MutexOutcome::Acquired);
    assert_eq!(words.run(MutexCall::SpinLook { me: 1, counter: 0, again: false }), acquired);
    let mut other = MutexCall::SpinLook { me: 2, counter: 0, again: false };
    while !matches!(other, MutexCall::QueueLook { .. }) {
        let action = other.action().unwrap();
        other = other.advance(words.perform(action));
    }
    assert_eq!(
        words.run(MutexCall::DequeueLook),
        MutexCall::Done(MutexOutcome::Released(None))
    );
    assert_eq!(words.run(other), acquired);
    assert_eq!(
        words.run(MutexCall::DequeueLook),
        MutexCall::Done(MutexOutcome::Released(None))
    );
}

#[test]
fn release_waits_for_a_thread_at_the_queue() {
    let mut words = MutexWords::new();
    let acquired = MutexCall::Done(MutexOutcome::Acquired);
    assert_eq!(words.run(MutexCall::SpinLook { me: 1, counter: 0, again: false }), acquired);
    let mut other = MutexCall::SpinLook { me: 2, counter: 0, again: false };
    while other != (MutexCall::QueuePush { me: 2, again: false }) {
        let action = other.action().unwrap();
        other = other.advance(words.perform(action));
    }
    // The release finds the flag up, and looks again.
    let look = words.perform(MutexAction::LoadFlag);
    assert_eq!(look, MutexReply::Flag(true));
    assert_eq!(MutexCall::DequeueLook.advance(look), MutexCall::DequeueLook);
    assert_eq!(words.run(other), MutexCall::Park { me: 2 });
    assert_eq!(
        words.run(MutexCall::DequeueLook),
        MutexCall::Done(MutexOutcome::Released(Some(2)))
    );
}

#[test]
fn queued_mutex_data_without_locking() {
    let mut ids = Identities::new();
    let mut mutex = Mutex::new(&mut ids, 3u32);
    *mutex.get_mut() += 4;
    assert_eq!(mutex.into_inner(), 7);
}

#[test]
fn atomic_queued_mutex_hands_over() {
    let raw = RawMutex::new();
    let mut queue: VecDeque<usize> = VecDeque::new();
    let acquired = MutexCall::Done(MutexOutcome::Acquired);
    assert_eq!(run(&raw, &mut queue, MutexCall::SpinLook { me: 1, counter: 0, again: false }), acquired);
    assert_eq!(
        run(&raw, &mut queue, MutexCall::TryLock),
        MutexCall::Done(MutexOutcome::WouldBlock)
    );
    let parked = run(&raw, &mut queue, MutexCall::SpinLook { me: 2, counter: 0, again: false });
    assert_eq!(parked, MutexCall::Park { me: 2 });
    assert_eq!(
        run(&raw, &mut queue, MutexCall::DequeueLook),
        MutexCall::Done(MutexOutcome::Released(Some(2)))
    );
    assert_eq!(run(&raw, &mut queue, parked.advance(MutexReply::Done)), acquired);
    // A thread whose park is over without an unpark is in the queue once.
    let parked = run(&raw, &mut queue, MutexCall::SpinLook { me: 3, counter: 0, again: false });
    assert_eq!(parked, MutexCall::Park { me: 3 });
    assert_eq!(run(&raw, &mut queue, parked.advance(MutexReply::Done)), parked);
    assert_eq!(queue, VecDeque::from([3]));
}
