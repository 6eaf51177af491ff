//! What the operations are for.
//!
//! The laws here speak of calls by what goes in and what comes out: `call_ensures` says that a call
//! of a function with these arguments may return this. A parameter of a mutable reference stands
//! for what a call finds and what it leaves behind; where one call follows another, the second
//! finds what the first has left.

pub mod advanced_mutex;
pub mod arc;
pub mod channel;
pub mod condvar;
pub mod mutex;
pub mod mutex_common;
pub mod ring_buffer;
pub mod rwlock;
pub mod semaphore;
pub mod spinlock;

use vstd::prelude::*;

verus! {

/// The number that follows in a word of 32 bits; after the largest it starts over at zero.
pub open spec fn one_more(word: u32) -> u32 {
    if word == u32::MAX {
        0
    } else {
        (word + 1) as u32
    }
}

/// The number that comes before in a word of 32 bits; before zero comes the largest.
pub open spec fn one_less(word: u32) -> u32 {
    if word == 0 {
        u32::MAX
    } else {
        (word - 1) as u32
    }
}

} // verus!
