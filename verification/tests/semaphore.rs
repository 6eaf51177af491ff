use sync_primitives::semaphore::{
    RawSemaphore, SemCall, SemOutcome, SemWords, Semaphore, TimedCall,
};
use sync_primitives::utils::mutex_common::{Progress, Wake};

fn run(raw: &RawSemaphore, start: SemCall) -> SemOutcome {
    let mut call = start;
    loop {
        if let SemCall::Done(outcome) = call {
            return outcome;
        }
        call = raw.step(call);
    }
}

#[test]
fn test_basics_signal_before_wait() {
    let mut semaphore = Semaphore::new(0);
    semaphore.signal();
    assert_eq!(semaphore.count(), 1);
    semaphore.wait().finished();
    assert_eq!(semaphore.count(), 0);
}

#[test]
fn test_basics_wait_before_signal() {
    let mut semaphore = Semaphore::new(1);
    semaphore.wait().finished();
    assert_eq!(semaphore.count(), 0);
    semaphore.signal();
    assert_eq!(semaphore.count(), 1);
}

#[test]
fn test_try_wait() {
    let mut semaphore = Semaphore::new(1);
    semaphore.wait().finished();
    assert!(!semaphore.try_wait());
}

#[test]
fn test_multiple_threads() {
    let mut semaphore = Semaphore::new(2);
    let thread_count = 16;
    let mut running = 0;
    let mut asleep: Vec<SemCall> = vec![];

    for _ in 0..thread_count {
        match semaphore.wait() {
            Progress::Finished(()) => running += 1,
            Progress::Pending(call) => asleep.push(call),
        }
    }
    assert_eq!(running, 2);
    assert_eq!(semaphore.num_waiting(), 14);
    while running > 0 {
        let wake = semaphore.signal();
        running -= 1;
        if wake == Wake::One {
            if let Some(call) = asleep.pop() {
                semaphore.resume(call).finished();
                running += 1;
            }
        }
    }
    assert_eq!(semaphore.count(), 2);
    assert_eq!(semaphore.num_waiting(), 0);
}

#[test]
fn permits_are_conserved() {
    let mut semaphore = Semaphore::new(4);
    let mut permits = 0;
    while semaphore.try_wait() {
        permits += 1;
        assert_eq!(semaphore.count() + permits, 4);
    }
    assert_eq!(permits, 4);
    assert_eq!(semaphore.signal(), Wake::Nobody);
    assert_eq!(semaphore.count(), 1);
}

#[test]
fn waiting_thread_stays_asleep_without_a_permit() {
    let mut semaphore = Semaphore::new(0);
    let call = match semaphore.wait() {
        Progress::Pending(call) => call,
        Progress::Finished(()) => panic!("there is no permit"),
    };
    assert_eq!(call, SemCall::WaitSleep);
    assert!(semaphore.resume(call).is_pending());
    assert_eq!(semaphore.num_waiting(), 1);
    assert_eq!(semaphore.signal(), Wake::One);
    semaphore.resume(call).finished();
    assert_eq!(semaphore.num_waiting(), 0);
}

#[test]
fn deadline_ends_the_wait() {
    let mut semaphore = Semaphore::new(1);
    assert!(!semaphore.try_wait_duration(0));
    assert!(semaphore.try_wait_duration(3));
    assert!(!semaphore.try_wait_duration(3));
    assert_eq!(semaphore.count(), 0);
    assert_eq!(TimedCall::clock(true), TimedCall::Trying(SemCall::TryLook));
    assert_eq!(TimedCall::clock(false), TimedCall::Done(false));
    assert_eq!(TimedCall::tried(SemCall::Done(SemOutcome::Acquired)), TimedCall::Done(true));
    assert_eq!(TimedCall::tried(SemCall::Done(SemOutcome::Refused)), TimedCall::Clock);
}

#[test]
fn count_starts_over() {
    let mut semaphore = Semaphore::new(u32::MAX);
    assert_eq!(semaphore.signal(), Wake::Nobody);
    assert_eq!(semaphore.count(), 0);
}

#[test]
fn semaphore_words_say_whom_to_wake() {
    let mut words = SemWords { count: 0, num_waiting: 2 };
    assert_eq!(
        words.run(SemCall::Signal),
        SemCall::Done(SemOutcome::Signaled(Wake::One))
    );
    assert_eq!(words, SemWords { count: 1, num_waiting: 2 });
}

#[test]
fn atomic_semaphore_counts() {
    let raw = RawSemaphore::new(1);
    assert_eq!(run(&raw, SemCall::WaitEnter), SemOutcome::Acquired);
    assert_eq!(run(&raw, SemCall::TryLook), SemOutcome::Refused);
    // Another call comes to the point where it sleeps.
    let mut other = SemCall::WaitEnter;
    while other != SemCall::WaitSleep {
        other = raw.step(other);
    }
    assert_eq!(run(&raw, SemCall::Signal), SemOutcome::Signaled(Wake::One));
    // The count has changed, so it does not sleep.
    assert_eq!(run(&raw, other), SemOutcome::Acquired);
    assert_eq!(run(&raw, SemCall::Signal), SemOutcome::Signaled(Wake::Nobody));
}
