use std::cell::Cell;
use std::rc::Rc;
use sync_primitives::arc::{Arc, ArcAction, ArcCall, ArcOutcome, RawArc};
use sync_primitives::utils::mutex_common::Identities;
use sync_primitives::word::Reply;

#[test]
fn test_arc_basic_functionality() {
    let mut ids = Identities::new();
    let (mut block, value) = Arc::new(&mut ids, 1);
    let clone = Arc::clone(&value, &mut block);
    assert_eq!(*clone.deref(&block), 1);
    clone.release(&mut block);
    assert_eq!(*value.deref(&block), 1);
}

#[test]
fn test_clone() {
    let mut ids = Identities::new();
    let (mut block, value) = Arc::new(&mut ids, 10);
    let value_clone = Arc::clone(&value, &mut block);
    assert_eq!(*value.deref(&block), 10);
    assert_eq!(*value_clone.deref(&block), 10);
}

#[test]
fn test_weak_upgrade() {
    let mut ids = Identities::new();
    let (mut block, strong) = Arc::new(&mut ids, 10);
    let weak = strong.downgrade(&mut block);

    let upgraded = weak.upgrade(&mut block).unwrap();
    assert_eq!(*upgraded.deref(&block), 10);

    strong.release(&mut block);
    upgraded.release(&mut block);

    let upgraded = weak.upgrade(&mut block);
    assert!(upgraded.is_none());
}

#[test]
fn test_get_mut() {
    let mut ids = Identities::new();
    let (mut block, mut value) = Arc::new(&mut ids, 10);

    if let Some(value) = value.get_mut(&mut block) {
        *value = 20;
    }
    assert_eq!(*value.deref(&block), 20);

    let _value = Arc::clone(&value, &mut block);
    assert!(value.get_mut(&mut block).is_none());
}

#[test]
fn test_into_inner() {
    let mut ids = Identities::new();
    let (mut block, value) = Arc::new(&mut ids, 10);
    let value_clone = Arc::clone(&value, &mut block);

    assert!(Arc::into_inner(value, &mut block).is_none());

    value_clone.release(&mut block);
    let (mut another_block, another_value) = Arc::new(&mut ids, 20);
    assert_eq!(Arc::into_inner(another_value, &mut another_block), Some(20));
}

struct DropCounter {
    counter: Rc<Cell<usize>>,
}

impl Drop for DropCounter {
    fn drop(&mut self) {
        self.counter.set(self.counter.get() + 1);
    }
}

#[test]
fn test_drop_behavior() {
    let mut ids = Identities::new();
    let counter = Rc::new(Cell::new(0));
    let (mut block, drop_counter) = Arc::new(&mut ids, DropCounter { counter: counter.clone() });
    let drop_counter_clone = Arc::clone(&drop_counter, &mut block);

    drop_counter.release(&mut block);
    assert_eq!(counter.get(), 0);

    drop_counter_clone.release(&mut block);
    assert_eq!(counter.get(), 1);
}

#[test]
fn test_drop_behavior_into_inner() {
    let mut ids = Identities::new();
    let counter = Rc::new(Cell::new(0));
    let (mut block, arc) = Arc::new(&mut ids, DropCounter { counter: counter.clone() });
    let clone = Arc::clone(&arc, &mut block);
    assert!(clone.into_inner(&mut block).is_none());
    assert_eq!(counter.get(), 0);
    assert!(arc.into_inner(&mut block).is_some());
    assert_eq!(counter.get(), 1);
    drop(block);
    assert_eq!(counter.get(), 1);
}

#[test]
fn test_weak_count() {
    let mut ids = Identities::new();
    let (mut block, strong0) = Arc::new(&mut ids, 10);
    let weak1 = strong0.downgrade(&mut block);
    let weak2 = strong0.downgrade(&mut block);

    let strong1 = weak1.upgrade(&mut block).unwrap();
    assert_eq!(*strong1.deref(&block), 10);

    strong0.release(&mut block);

    let strong2 = weak2.upgrade(&mut block).unwrap();
    assert_eq!(*strong2.deref(&block), 10);

    strong1.release(&mut block);
    strong2.release(&mut block);

    assert!(weak1.upgrade(&mut block).is_none());
    assert!(weak2.upgrade(&mut block).is_none());
}

#[test]
fn weak_handle_keeps_others_from_the_data() {
    let mut ids = Identities::new();
    let (mut block, mut arc) = Arc::new(&mut ids, 5);
    let weak = arc.downgrade(&mut block);
    assert!(arc.get_mut(&mut block).is_none());
    weak.release(&mut block);
    assert!(arc.get_mut(&mut block).is_some());
}

#[test]
fn weak_handle_keeps_the_data_from_moving_out() {
    let mut ids = Identities::new();
    let counter = Rc::new(Cell::new(0));
    let (mut block, arc) = Arc::new(&mut ids, DropCounter { counter: counter.clone() });
    let weak = arc.downgrade(&mut block);
    assert!(arc.into_inner(&mut block).is_none());
    assert_eq!(counter.get(), 1);
    assert!(weak.upgrade(&mut block).is_none());
    weak.release(&mut block);
    assert_eq!(counter.get(), 1);
}

/// Runs a call on the counts, and gives how it ended and what else it asked for.
fn run(raw: &RawArc, start: ArcCall) -> (ArcOutcome, Vec<ArcAction>) {
    let mut call = start;
    let mut asked: Vec<ArcAction> = vec![];
    loop {
        match call.action() {
            None => match call {
                ArcCall::Done(outcome) => return (outcome, asked),
                _ => unreachable!(),
            },
            Some(action) => match raw.perform(action) {
                Some(reply) => call = call.advance(reply),
                None => {
                    asked.push(call.action().unwrap());
                    call = call.advance(Reply::Done);
                }
            },
        }
    }
}

#[test]
fn atomic_counts_of_handles() {
    let raw = RawArc::new();
    assert_eq!(run(&raw, ArcCall::GetMutLock), (ArcOutcome::Unique, vec![]));
    assert_eq!(run(&raw, ArcCall::Clone), (ArcOutcome::NewStrong, vec![]));
    assert_eq!(run(&raw, ArcCall::GetMutLock), (ArcOutcome::Shared, vec![]));
    assert_eq!(run(&raw, ArcCall::IntoLock), (ArcOutcome::Dropped, vec![]));
    assert_eq!(run(&raw, ArcCall::DowngradeLook), (ArcOutcome::NewWeak, vec![]));
    assert_eq!(run(&raw, ArcCall::UpgradeLook), (ArcOutcome::NewStrong, vec![]));
    assert_eq!(run(&raw, ArcCall::DropStrong), (ArcOutcome::Dropped, vec![]));
    assert_eq!(
        run(&raw, ArcCall::DropStrong),
        (ArcOutcome::Dropped, vec![ArcAction::DropData])
    );
    assert_eq!(run(&raw, ArcCall::UpgradeLook), (ArcOutcome::NoData, vec![]));
    assert_eq!(
        run(&raw, ArcCall::DropWeak),
        (ArcOutcome::Dropped, vec![ArcAction::Free])
    );
}

#[test]
fn atomic_counts_of_the_last_handle() {
    let raw = RawArc::new();
    assert_eq!(
        run(&raw, ArcCall::IntoLock),
        (ArcOutcome::Taken, vec![ArcAction::TakeData])
    );
    let raw = RawArc::new();
    assert_eq!(
        run(&raw, ArcCall::DropStrong),
        (ArcOutcome::Dropped, vec![ArcAction::DropData, ArcAction::Free])
    );
}

/// Takes one step of a call on the counts alone.
fn step(raw: &RawArc, call: ArcCall) -> ArcCall {
    match call.action() {
        None => call,
        Some(action) => match raw.perform(action) {
            Some(reply) => call.advance(reply),
            None => call.advance(Reply::Done),
        },
    }
}

#[test]
fn no_weak_handle_is_added_while_a_handle_is_checked() {
    let raw = RawArc::new();
    let checking = step(&raw, ArcCall::GetMutLock);
    assert_eq!(checking, ArcCall::GetMutLook);
    let mut downgrade = ArcCall::DowngradeLook;
    for _ in 0..5 {
        downgrade = step(&raw, downgrade);
        assert_eq!(downgrade, ArcCall::DowngradeLook);
    }
    assert_eq!(run(&raw, checking), (ArcOutcome::Unique, vec![]));
    assert_eq!(run(&raw, downgrade), (ArcOutcome::NewWeak, vec![]));
}

#[test]
fn too_many_handles_are_refused() {
    let many = usize::MAX / 2 + 1;
    assert_eq!(
        ArcCall::Clone.advance(Reply::Value(many)),
        ArcCall::Done(ArcOutcome::TooMany)
    );
    assert_eq!(
        ArcCall::DowngradeLook.advance(Reply::Value(many)),
        ArcCall::Done(ArcOutcome::TooMany)
    );
    assert_eq!(
        ArcCall::UpgradeLook.advance(Reply::Value(many)),
        ArcCall::Done(ArcOutcome::TooMany)
    );
    assert_eq!(
        ArcCall::Clone.advance(Reply::Value(many - 1)),
        ArcCall::Done(ArcOutcome::NewStrong)
    );
}
