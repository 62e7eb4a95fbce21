//! A thread-safe, optionally bounded FIFO task queue.
//!
//! `buffer` holds the sequential core, a verified bounded FIFO buffer whose
//! contracts pin down every operation. `queue` shares one such buffer between
//! threads behind a lock whose invariant keeps the bound. `laws` states what
//! holds of whole histories of operations.

pub mod buffer;
pub mod error;
pub mod laws;
pub mod queue;
pub mod worker;
