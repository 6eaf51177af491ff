use std::cell::Cell;
use std::rc::Rc;
use sync_primitives::utils::ring_buffer::{
    RawRing, RingAction, RingBuffer, RingCall, RingOutcome,
};
use sync_primitives::word::Reply;

struct Item {
    drops: Rc<Cell<usize>>,
}

impl Drop for Item {
    fn drop(&mut self) {
        self.drops.set(self.drops.get() + 1);
    }
}

#[test]
fn test_drop_safety() {
    let drops = Rc::new(Cell::new(0));
    let mut buffer = RingBuffer::<Item, 4>::new();
    for _ in 0..4 {
        assert!(buffer.push(Item { drops: drops.clone() }).is_ok());
    }
    drop(buffer);
    assert_eq!(drops.get(), 4);
}

#[test]
fn test_try_push_full() {
    let mut buffer = RingBuffer::<u32, 2>::new();
    assert!(buffer.try_push(1).is_ok());
    assert!(buffer.try_push(2).is_ok());
    assert!(buffer.try_push(3).is_err()); // Full
}

#[test]
fn test_try_pop_empty() {
    let mut buffer = RingBuffer::<u32, 2>::new();
    assert!(buffer.try_pop().is_none());
}

#[test]
fn test_high_contention_try_push() {
    let thread_count = 8;
    let item_count = 8;
    let mut buffer = RingBuffer::<usize, 64>::new();
    for _ in 0..thread_count {
        for i in 0..item_count {
            assert!(buffer.try_push(i).is_ok());
        }
    }

    let mut sum = 0;
    while let Some(val) = buffer.try_pop() {
        sum += val;
    }
    assert_eq!(sum, thread_count * (0..item_count).sum::<usize>());
}

#[test]
fn test_size() {
    let _buffer = RingBuffer::<usize, 64>::new();
    println!("{}", std::mem::size_of::<RingBuffer<usize, 64>>());
    println!("{}", std::mem::align_of::<RingBuffer<usize, 64>>());
}

#[test]
fn first_in_first_out() {
    let mut buffer = RingBuffer::<u32, 4>::new();
    let mut popped: Vec<u32> = vec![];
    for i in 0..10 {
        assert_eq!(buffer.push(2 * i), Ok(()));
        assert_eq!(buffer.try_push(2 * i + 1), Ok(()));
        popped.push(buffer.pop().unwrap());
        popped.push(buffer.try_pop().unwrap());
    }
    assert_eq!(popped, (0..20).collect::<Vec<u32>>());
    assert_eq!(buffer.pop(), None);
}

#[test]
fn full_ring_hands_the_value_back() {
    let mut buffer = RingBuffer::<u32, 2>::new();
    assert_eq!(buffer.push(1), Ok(()));
    assert_eq!(buffer.push(2), Ok(()));
    assert_eq!(buffer.push(3), Err(3));
    assert_eq!(buffer.try_push(4), Err(4));
    assert_eq!(buffer.pop(), Some(1));
    assert_eq!(buffer.push(3), Ok(()));
    assert_eq!(buffer.pop(), Some(2));
    assert_eq!(buffer.pop(), Some(3));
}

#[test]
fn ring_of_one_slot() {
    let mut buffer = RingBuffer::<u32, 1>::new();
    for i in 0..3 {
        assert_eq!(buffer.push(i), Ok(()));
        assert_eq!(buffer.push(9), Err(9));
        assert_eq!(buffer.pop(), Some(i));
    }
    assert_eq!(buffer.pop(), None);
}

/// Runs a call on the counters and a slice of slots.
fn run(raw: &RawRing, slots: &mut [u32], hand: &mut u32, start: RingCall) -> RingOutcome {
    let mut call = start;
    let capacity = slots.len();
    loop {
        match call.action(capacity) {
            None => match call {
                RingCall::Done(outcome) => return outcome,
                _ => unreachable!(),
            },
            Some(RingAction::Write(slot)) => {
                slots[slot] = *hand;
                call = call.advance(Reply::Done, capacity);
            }
            Some(RingAction::Read(slot)) => {
                *hand = slots[slot];
                call = call.advance(Reply::Done, capacity);
            }
            Some(action) => {
                let reply = raw.perform(action).unwrap();
                call = call.advance(reply, capacity);
            }
        }
    }
}

#[test]
fn atomic_ring_passes_values() {
    let raw = RawRing::new();
    let mut slots = [0u32; 2];
    let push = RingCall::PushLookTail { once: false };
    for i in 0..5 {
        let mut value = 10 + i;
        assert_eq!(run(&raw, &mut slots, &mut value, push), RingOutcome::Pushed);
        let mut value = 20 + i;
        assert_eq!(run(&raw, &mut slots, &mut value, push), RingOutcome::Pushed);
        let mut value = 30;
        assert_eq!(run(&raw, &mut slots, &mut value, push), RingOutcome::Full);
        assert_eq!(run(&raw, &mut slots, &mut value, RingCall::PopLookTail), RingOutcome::Popped);
        assert_eq!(value, 10 + i);
        assert_eq!(run(&raw, &mut slots, &mut value, RingCall::PopLookTail), RingOutcome::Popped);
        assert_eq!(value, 20 + i);
        assert_eq!(
            run(&raw, &mut slots, &mut value, RingCall::TryPopLookTail),
            RingOutcome::Empty
        );
    }
}

/// Takes one step of a call on the counters alone.
fn step(raw: &RawRing, call: RingCall, capacity: usize) -> RingCall {
    match call.action(capacity) {
        None => call,
        Some(action) => match raw.perform(action) {
            Some(reply) => call.advance(reply, capacity),
            None => call.advance(Reply::Done, capacity),
        },
    }
}

#[test]
fn numbers_are_taken_once() {
    let raw = RawRing::new();
    let mut first = RingCall::PushLookTail { once: false };
    let mut second = RingCall::PushLookTail { once: false };
    let mut tickets: Vec<usize> = vec![];
    while tickets.len() < 2 {
        first = step(&raw, first, 4);
        second = step(&raw, second, 4);
        for call in [first, second] {
            if let RingCall::PushWrite { ticket } = call {
                tickets.push(ticket);
            }
        }
    }
    tickets.sort();
    assert_eq!(tickets, vec![0, 1]);
}

#[test]
fn value_is_not_read_before_it_is_stored() {
    let raw = RawRing::new();
    let mut slots = [0u32; 4];
    let mut nothing = 0;
    let push = RingCall::PushLookTail { once: false };
    let mut slow = push;
    while !matches!(slow, RingCall::PushWrite { .. }) {
        slow = step(&raw, slow, 4);
    }
    // A number is taken, and the value is not in its slot.
    assert_eq!(run(&raw, &mut slots, &mut nothing, RingCall::PopLookTail), RingOutcome::Empty);
    // A later value is in its slot, and waits for the earlier one.
    let mut later = push;
    while !matches!(later, RingCall::PushPublish { .. }) {
        later = step(&raw, later, 4);
    }
    later = step(&raw, later, 4);
    assert_eq!(later, RingCall::PushPublish { ticket: 1 });
    assert_eq!(
        run(&raw, &mut slots, &mut nothing, RingCall::TryPopLookTail),
        RingOutcome::Empty
    );
    assert_eq!(run(&raw, &mut slots, &mut 7, slow), RingOutcome::Pushed);
    assert_eq!(run(&raw, &mut slots, &mut 8, later), RingOutcome::Pushed);
    assert_eq!(run(&raw, &mut slots, &mut nothing, RingCall::PopLookTail), RingOutcome::Popped);
    assert_eq!(nothing, 7);
}

#[test]
fn try_push_gives_way_to_a_faster_thread() {
    let raw = RawRing::new();
    let mut slow = RingCall::PushLookTail { once: true };
    while !matches!(slow, RingCall::PushTake { .. }) {
        slow = step(&raw, slow, 4);
    }
    let mut slots = [0u32; 4];
    let push = RingCall::PushLookTail { once: false };
    assert_eq!(run(&raw, &mut slots, &mut 1, push), RingOutcome::Pushed);
    assert_eq!(run(&raw, &mut slots, &mut 2, slow), RingOutcome::Full);
}

#[test]
fn counters_do_not_overflow() {
    let call = RingCall::PushLookHead { once: false, tail: usize::MAX };
    assert_eq!(
        call.advance(Reply::Value(usize::MAX), 4),
        RingCall::Done(RingOutcome::Overflow)
    );
    let call = RingCall::TryPopRead { tail: usize::MAX };
    assert_eq!(call.advance(Reply::Done, 4), RingCall::Done(RingOutcome::Overflow));
}
