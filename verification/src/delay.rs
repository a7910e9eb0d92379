//! `Delay`: a suspendable operation that becomes ready at a fixed
//! deadline.

use crate::suspend::{PollResult, Suspendable, TimerCmd};
use crate::waker::Waker;
use crate::ExecError;
use vstd::prelude::*;

verus! {

/// A suspendable operation that becomes ready once the clock reaches a
/// fixed deadline.
///
/// The first poll before the deadline stores the supplied waker and asks
/// the runtime to start exactly one detached timer
/// ([`TimerCmd::StartTimer`]); later polls before the deadline only
/// compare the supplied waker with the stored one and replace it when the
/// two are not equivalent, which happens when the operation moved to a
/// different task between polls. A poll at or after the deadline reports
/// `Ready` — on the very first poll this means no timer is ever started.
#[derive(Clone, Copy, Debug)]
pub struct Delay {
    /// The deadline, in milliseconds.
    pub when: u64,
    /// The waker handed to the timer; `Some` exactly when a timer has
    /// been started for this instance.
    pub waker: Option<Waker>,
    /// Whether the delay has already reported `Ready`.
    pub completed: bool,
}

impl Suspendable for Delay {
    open spec fn done(&self) -> bool {
        self.completed
    }

    open spec fn advance_spec(&self, now: u64, w: Waker) -> (Self, PollResult, TimerCmd) {
        if now >= self.when {
            (
                Delay { when: self.when, waker: self.waker, completed: true },
                PollResult::Ready,
                TimerCmd::Nothing,
            )
        } else {
            match self.waker {
                None => (
                    Delay { when: self.when, waker: Some(w), completed: false },
                    PollResult::Pending,
                    TimerCmd::StartTimer { when: self.when },
                ),
                Some(w0) => if w0.equivalent(w) {
                    (*self, PollResult::Pending, TimerCmd::Nothing)
                } else {
                    (
                        Delay { when: self.when, waker: Some(w), completed: false },
                        PollResult::Pending,
                        TimerCmd::ReplaceWaker,
                    )
                },
            }
        }
    }

    fn advance(&mut self, now: u64, w: Waker) -> (r: (PollResult, TimerCmd)) {
        if now >= self.when {
            self.completed = true;
            (PollResult::Ready, TimerCmd::Nothing)
        } else {
            match self.waker {
                None => {
                    self.waker = Some(w);
                    (PollResult::Pending, TimerCmd::StartTimer { when: self.when })
                },
                Some(w0) => {
                    if w0.will_wake(&w) {
                        (PollResult::Pending, TimerCmd::Nothing)
                    } else {
                        self.waker = Some(w);
                        (PollResult::Pending, TimerCmd::ReplaceWaker)
                    }
                },
            }
        }
    }
}

impl Delay {
    /// A fresh delay for deadline `when`: no timer started, not
    /// completed.
    pub fn new(when: u64) -> (d: Delay)
        ensures
            d == (Delay { when, waker: None::<Waker>, completed: false }),
    {
        Delay { when, waker: None, completed: false }
    }

    /// The transition taken by [`Delay::poll`]: a completed delay is left
    /// unchanged and the re-poll is rejected as a defect; otherwise the
    /// delay advances by [`Suspendable::advance_spec`].
    pub open spec fn poll_spec(&self, now: u64, w: Waker) -> (
        Delay,
        Result<PollResult, ExecError>,
        TimerCmd,
    ) {
        if self.completed {
            (*self, Err(ExecError::PollAfterReady), TimerCmd::Nothing)
        } else {
            let (d2, pr, cmd) = self.advance_spec(now, w);
            (d2, Ok(pr), cmd)
        }
    }

    /// Polls the delay at instant `now` with waker `w`.
    ///
    /// `Ready` is terminal: a poll after `Ready` is flagged as
    /// [`ExecError::PollAfterReady`] and never silently returns a stale
    /// outcome.
    pub fn poll(&mut self, now: u64, w: Waker) -> (r: (Result<PollResult, ExecError>, TimerCmd))
        ensures
            (*final(self), r.0, r.1) == old(self).poll_spec(now, w),
    {
        if self.completed {
            (Err(ExecError::PollAfterReady), TimerCmd::Nothing)
        } else {
            let (pr, cmd) = self.advance(now, w);
            (Ok(pr), cmd)
        }
    }
}

} // verus!
