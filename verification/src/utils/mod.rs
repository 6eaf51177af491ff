//! What several primitives share.

pub mod mutex_common;
pub mod ring_buffer;
