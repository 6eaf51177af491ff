//! Classic synchronization primitives, each written as a protocol of atomic steps.

pub mod advanced_mutex;
pub mod arc;
pub mod channel;
pub mod condvar;
pub mod interleaving;
pub mod laws;
pub mod mutex;
pub mod rwlock;
pub mod semaphore;
pub mod spinlock;
pub mod utils;
pub mod word;
