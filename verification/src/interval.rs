//! `Interval`: a finite repeating-timer sequence built by chaining
//! successive delays.

use crate::delay::Delay;
use crate::suspend::{PollResult, Suspendable, TimerCmd};
use crate::waker::Waker;
use vstd::prelude::*;

verus! {

/// The fixed period between two ticks, in milliseconds.
pub const TICK_PERIOD_MS: u64 = 3000;

/// The outcome of asking an interval for its next value.
#[derive(Clone, Copy, PartialEq, Eq, Structural, Debug)]
pub enum StreamPoll {
    /// One tick elapsed.
    Tick,
    /// The sequence is exhausted; every later poll reports this again.
    Exhausted,
    /// The next tick's deadline has not been reached; the waker will be
    /// invoked when it is.
    Pending,
}

/// A lazy, finite sequence of ticks: exactly `rem` ticks, each due one
/// period after the previous one, then permanent exhaustion.
///
/// Each tick is guarded by one [`Delay`]; when it fires the interval
/// replaces it with a fresh delay whose deadline is the old deadline
/// plus the period — not the current instant plus the period, so
/// scheduling latency does not accumulate as drift.
#[derive(Clone, Copy, Debug)]
pub struct Interval {
    /// How many ticks are still to be produced.
    pub rem: usize,
    /// The delay guarding the next tick.
    pub delay: Delay,
}

impl Interval {
    /// Well-formedness: the embedded delay never stays in its completed
    /// state (it is replaced the moment it fires), and every remaining
    /// deadline fits the clock.
    pub open spec fn wf(&self) -> bool {
        &&& !self.delay.completed
        &&& self.delay.when as int + (TICK_PERIOD_MS as int) * (self.rem as int)
            <= u64::MAX as int
    }

    /// A fresh interval producing `rem` ticks, the first due at `now`.
    pub fn new(rem: usize, now: u64) -> (i: Interval)
        requires
            now as int + (TICK_PERIOD_MS as int) * (rem as int) <= u64::MAX as int,
        ensures
            i == (Interval {
                rem,
                delay: Delay { when: now, waker: None::<Waker>, completed: false },
            }),
            i.wf(),
    {
        Interval { rem, delay: Delay::new(now) }
    }

    /// The transition taken by [`Interval::poll_next`]: an exhausted
    /// interval stays exhausted, a delay that has not fired propagates
    /// `Pending` together with its timer command, and a fired delay
    /// yields one tick, decrements the remaining count and arms a fresh
    /// delay one period after the old deadline.
    pub open spec fn poll_next_spec(&self, now: u64, w: Waker) -> (
        Interval,
        StreamPoll,
        TimerCmd,
    ) {
        if self.rem == 0 {
            (*self, StreamPoll::Exhausted, TimerCmd::Nothing)
        } else {
            let (d2, pr, cmd) = self.delay.advance_spec(now, w);
            if pr == PollResult::Ready {
                (
                    Interval {
                        rem: (self.rem - 1) as usize,
                        delay: Delay {
                            when: (self.delay.when + TICK_PERIOD_MS) as u64,
                            waker: None,
                            completed: false,
                        },
                    },
                    StreamPoll::Tick,
                    TimerCmd::Nothing,
                )
            } else {
                (Interval { rem: self.rem, delay: d2 }, StreamPoll::Pending, cmd)
            }
        }
    }

    /// Asks the interval for its next value at instant `now` with waker
    /// `w`. Exhaustion is terminal: once `rem` reaches zero every poll
    /// reports `Exhausted` and the state never changes again.
    pub fn poll_next(&mut self, now: u64, w: Waker) -> (r: (StreamPoll, TimerCmd))
        requires
            old(self).wf(),
        ensures
            final(self).wf(),
            (*final(self), r.0, r.1) == old(self).poll_next_spec(now, w),
    {
        if self.rem == 0 {
            return (StreamPoll::Exhausted, TimerCmd::Nothing);
        }
        let (pr, cmd) = self.delay.advance(now, w);
        match pr {
            PollResult::Ready => {
                let when2 = self.delay.when + TICK_PERIOD_MS;
                self.delay = Delay::new(when2);
                self.rem = self.rem - 1;
                (StreamPoll::Tick, TimerCmd::Nothing)
            },
            PollResult::Pending => (StreamPoll::Pending, cmd),
        }
    }
}

} // verus!
