//! Wakers: shared handles that ask the scheduler to re-poll one task.

use vstd::prelude::*;

verus! {

/// A handle that, when invoked, requests a re-poll of the task it was
/// built for.
///
/// A waker carries nothing but the identity of its destination task, so
/// cloning is trivial and two wakers built for the same task during the
/// same suspension are interchangeable. Invoking a waker is done through
/// [`crate::executor::MiniTokio::wake`], which re-enqueues the task.
#[derive(Clone, Copy, PartialEq, Eq, Structural, Debug)]
pub struct Waker {
    /// The task this waker re-enqueues when invoked.
    pub task: usize,
}

impl Waker {
    /// Two wakers are equivalent exactly when invoking either one
    /// re-triggers the same scheduling event, that is, re-enqueues the
    /// same task.
    pub open spec fn equivalent(self, other: Waker) -> bool {
        self.task == other.task
    }

    /// Builds a waker bound to `task`.
    pub fn new(task: usize) -> (w: Waker)
        ensures
            w == (Waker { task }),
    {
        Waker { task }
    }

    /// Answers whether invoking `self` would re-poll the same task as
    /// invoking `other`; a suspended operation uses this to decide
    /// whether a stored waker must be replaced.
    pub fn will_wake(&self, other: &Waker) -> (r: bool)
        ensures
            r == self.equivalent(*other),
    {
        self.task == other.task
    }
}

} // verus!
