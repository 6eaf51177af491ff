# sync_primitives

Classic synchronization primitives, verified with [Verus](https://github.com/verus-lang/verus): a
spinlock, two mutexes (one that parks threads in a queue, one on which they sleep), a read-write
lock, a condition variable, a semaphore, a bounded channel over a ring buffer, and shared ownership
by reference counting.

## How a primitive is built

Each primitive is a protocol of atomic steps, written as a plain enum of where a call stands. The
protocol says which action comes next (`action`) and where the call goes with the reply (`advance`).
The same protocol serves three times:

- The sequential type, such as `Mutex` or `Channel`, runs a call on ordinary words until it is over or
  has to wait, and states exactly what comes of it. A call that has to wait comes back pending. Its
  guards are tokens, and the locks a thread holds are a value, `HeldLocks`, that the calls take.
- The raw type, such as `RawMutex`, performs the steps one by one on real atomics and the futex of
  the `atomic-wait` crate. What other threads do in between is not known there, so its contracts say
  which call was made on which atomic, and how a call moves with what came back.
- The modules under `interleaving` let the calls of any number of threads take turns in any order,
  step by step, with spurious wake-ups and spurious failures of weak compare-exchanges, and prove
  what holds in every state: mutual exclusion, conservation of permits, counted handles, and more.
  Their public proof functions are named `law_...`. They take the steps to be sequentially
  consistent; the memory orderings of the operations are part of the protocols and are not reasoned
  about.

## Layout

- `src/word.rs`: atomic operations as values, and the calls into `atomic-wait`.
- `src/spinlock.rs`, `src/mutex.rs`, `src/advanced_mutex.rs`, `src/rwlock.rs`, `src/condvar.rs`,
  `src/semaphore.rs`, `src/channel.rs`, `src/arc.rs`: the primitives.
- `src/utils/`: what the locks share, and the ring buffer.
- `src/interleaving/`: what holds among many threads.
- `tests/`: scenarios, on the sequential types and on the raw ones.
- `app/`: the types that threads share, with guards that release when they are dropped.

## What to keep in mind

- Locks, blocks and channels have identities, which come from one source (`Identities`). Guards and
  handles carry the identity of what they belong to, and their contracts ask for it.
- A release of a mutex or of the read-write lock is not lost: while a thread waits, another one has
  the lock, is on its way to it, or is about to wake somebody. The read-write lock is limited in two
  ways. It counts the releases of writers in a word of 32 bits, and a writer that sleeps while the
  count goes all the way round may miss them. The release of the last reader is not counted, and a
  writer whose sleep begins only after the wake-up call of that release sleeps until the next writer
  releases the lock.
- Threads that wait for the mutex with a queue are unparked in the order in which they asked. A
  thread that comes between the release and the unparked one may still take the mutex first.
- A message wakes the receiver of a channel. Only `recv` wakes senders, and neither end is woken when
  the other one goes away.
- A value of the ring buffer can be read once it is stored and all values before it are. So a push
  waits, after it has stored its value, for the pushes that came before it.
