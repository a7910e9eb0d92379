//! The suspendable-operation capability: advance by one poll, either
//! finishing or arranging to be woken later.

use crate::waker::Waker;
use vstd::prelude::*;

verus! {

/// The outcome of advancing a suspendable operation once.
#[derive(Clone, Copy, PartialEq, Eq, Structural, Debug)]
pub enum PollResult {
    /// The operation finished; it must not be advanced again.
    Ready,
    /// The operation is not finished; it has arranged (through the
    /// returned [`TimerCmd`], or through a timer started earlier) that
    /// the waker it was given will be invoked when it can make progress.
    Pending,
}

/// The side effect the embedding runtime must perform after a poll.
///
/// The verified operations never sleep or start threads themselves; they
/// tell the driver what a real runtime would do at this point.
#[derive(Clone, Copy, PartialEq, Eq, Structural, Debug)]
pub enum TimerCmd {
    /// No side effect is required.
    Nothing,
    /// Start one detached timer that waits until instant `when`
    /// (milliseconds) and then invokes the waker the operation stored.
    StartTimer { when: u64 },
    /// A timer is already running, but the operation moved to a different
    /// task: the waker held by that timer must be replaced with the waker
    /// just supplied.
    ReplaceWaker,
}

/// A unit of computation advanced by repeated polling.
///
/// `advance_spec` is the operation's transition function: from the state
/// before the poll, the current instant and the supplied waker it gives
/// the state after the poll, the poll result and the side-effect command.
/// `advance` must realize exactly that transition. `Ready` is terminal:
/// advancing an operation whose `done` already holds is a caller defect,
/// excluded here and reported by the checked entry points such as
/// [`crate::delay::Delay::poll`].
pub trait Suspendable: Sized {
    /// Whether the operation has already reported `Ready`.
    spec fn done(&self) -> bool;

    /// The transition taken by one poll at instant `now` with waker `w`.
    spec fn advance_spec(&self, now: u64, w: Waker) -> (Self, PollResult, TimerCmd);

    /// Advances the operation once.
    fn advance(&mut self, now: u64, w: Waker) -> (r: (PollResult, TimerCmd))
        requires
            !old(self).done(),
        ensures
            (*final(self), r.0, r.1) == old(self).advance_spec(now, w),
            (r.0 == PollResult::Ready) == final(self).done(),
    ;
}

} // verus!
