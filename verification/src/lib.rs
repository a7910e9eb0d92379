//! A minimal single-threaded cooperative task executor.
//!
//! The crate models the suspend/resume contract that underlies asynchronous
//! runtimes: suspendable operations that are polled to completion, wakers
//! that request a re-poll, a timer-backed [`delay::Delay`] operation, a
//! FIFO scheduling queue driven by [`executor::MiniTokio`], an ambient
//! spawn context, and a repeating-timer sequence [`interval::Interval`].
//!
//! Everything here works on plain values: instants are milliseconds on a
//! `u64` clock that callers supply, and the side effects a real runtime
//! must perform (starting a timer thread, updating a shared waker slot)
//! are returned as explicit commands for the embedding program to carry
//! out.

use vstd::prelude::*;

pub mod ambient;
pub mod delay;
pub mod executor;
pub mod interval;
pub mod laws;
pub mod suspend;
pub mod waker;

verus! {

/// The errors this runtime distinguishes.
#[derive(Clone, Copy, PartialEq, Eq, Structural, Debug)]
pub enum ExecError {
    /// The ambient `spawn` was called with no executor entered on the
    /// current thread.
    NoExecutorEntered,
    /// An operation that had already reported `Ready` was polled again;
    /// `Ready` is a terminal state and a re-poll is a caller defect.
    PollAfterReady,
}

} // verus!
