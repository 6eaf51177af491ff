//! What holds of the primitives however the steps of many threads interleave.
//!
//! In each of these modules a system is the shared words and where every thread stands. A step of a
//! system is one step of one thread: one atomic action, or the passage from one call to the next. A
//! thread that sleeps may wake up at any time, and a weak compare-exchange may fail for no reason,
//! so what is shown does not rest on the order in which threads are scheduled.

pub mod advanced_mutex;
pub mod arc;
pub mod channel;
pub mod condvar;
pub mod mutex;
pub mod ring_buffer;
pub mod rwlock;
pub mod semaphore;
pub mod spinlock;

use vstd::prelude::*;

verus! {

/// The threads that stand where `at` says.
pub open spec fn those<Thread>(threads: Map<int, Thread>, at: spec_fn(Thread) -> bool) -> Set<int> {
    threads.dom().filter(|t: int| at(threads[t]))
}

/// One or zero.
pub open spec fn one_if(cond: bool) -> int {
    if cond {
        1
    } else {
        0
    }
}

/// How the number of threads that stand somewhere changes when thread `t` moves.
pub proof fn those_after_move<Thread>(
    threads: Map<int, Thread>,
    t: int,
    to: Thread,
    at: spec_fn(Thread) -> bool,
)
    requires
        threads.dom().finite(),
        threads.contains_key(t),
    ensures
        threads.insert(t, to).dom() == threads.dom(),
        those(threads, at).finite(),
        those(threads.insert(t, to), at).finite(),
        those(threads.insert(t, to), at).len() == those(threads, at).len() + one_if(at(to))
            - one_if(at(threads[t])),
        those(threads.insert(t, to), at).len() <= threads.dom().len(),
{
    let next = threads.insert(t, to);
    assert(next.dom() =~= threads.dom());
    threads.dom().lemma_len_filter(|u: int| at(threads[u]));
    next.dom().lemma_len_filter(|u: int| at(next[u]));
    assert(those(next, at) =~= if at(to) {
        those(threads, at).insert(t)
    } else {
        those(threads, at).remove(t)
    });
}

/// How the number of threads that stand somewhere changes when thread `t` comes in.
pub proof fn those_after_arrival<Thread>(
    threads: Map<int, Thread>,
    t: int,
    to: Thread,
    at: spec_fn(Thread) -> bool,
)
    requires
        threads.dom().finite(),
        !threads.contains_key(t),
    ensures
        threads.insert(t, to).dom().finite(),
        those(threads.insert(t, to), at).len() == those(threads, at).len() + one_if(at(to)),
{
    let next = threads.insert(t, to);
    threads.dom().lemma_len_filter(|u: int| at(threads[u]));
    assert(those(next, at) =~= if at(to) {
        those(threads, at).insert(t)
    } else {
        those(threads, at)
    });
}

/// There are some threads where one stands.
pub proof fn those_some<Thread>(
    threads: Map<int, Thread>,
    t: int,
    at: spec_fn(Thread) -> bool,
)
    requires
        threads.dom().finite(),
        threads.contains_key(t),
        at(threads[t]),
    ensures
        those(threads, at).len() > 0,
{
    threads.dom().lemma_len_filter(|u: int| at(threads[u]));
    assert(those(threads, at).contains(t));
    assert(those(threads, at).len() != 0);
}

/// There are at least two threads where two stand.
pub proof fn those_two<Thread>(
    threads: Map<int, Thread>,
    t: int,
    u: int,
    at: spec_fn(Thread) -> bool,
)
    requires
        threads.dom().finite(),
        threads.contains_key(t),
        threads.contains_key(u),
        t != u,
        at(threads[t]),
        at(threads[u]),
    ensures
        those(threads, at).len() >= 2,
{
    threads.dom().lemma_len_filter(|v: int| at(threads[v]));
    assert(those(threads, at).remove(t).contains(u));
    assert(those(threads, at).remove(t).len() != 0);
}

/// If there are threads where `at` says, one of them can be named.
pub proof fn those_pick<Thread>(threads: Map<int, Thread>, at: spec_fn(Thread) -> bool) -> (t: int)
    requires
        threads.dom().finite(),
        those(threads, at).len() > 0,
    ensures
        threads.contains_key(t),
        at(threads[t]),
{
    let set = those(threads, at);
    threads.dom().lemma_len_filter(|u: int| at(threads[u]));
    assert(!(set =~= Set::<int>::empty()));
    set.choose()
}

/// There are no more threads in the narrower place.
pub proof fn those_fewer<Thread>(
    threads: Map<int, Thread>,
    narrow: spec_fn(Thread) -> bool,
    wide: spec_fn(Thread) -> bool,
)
    requires
        threads.dom().finite(),
        forall|thread: Thread| #[trigger] narrow(thread) ==> wide(thread),
    ensures
        those(threads, narrow).len() <= those(threads, wide).len(),
{
    threads.dom().lemma_len_filter(|u: int| narrow(threads[u]));
    threads.dom().lemma_len_filter(|u: int| wide(threads[u]));
    vstd::set_lib::lemma_len_subset(those(threads, narrow), those(threads, wide));
}

} // verus!
