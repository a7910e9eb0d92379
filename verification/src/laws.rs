//! The library's laws: properties of the components that hold for all
//! inputs, stated over the transition functions the contracts use and
//! proved once and for all.

use crate::delay::Delay;
use crate::executor::{run_spec, wf_state, Task};
use crate::interval::{Interval, StreamPoll};
use crate::suspend::{PollResult, TimerCmd};
use crate::waker::Waker;
use crate::ExecError;
use vstd::prelude::*;

verus! {

/// One poll event: the instant at which the poll happens and the waker
/// supplied to it.
#[derive(Clone, Copy, PartialEq, Eq, Structural, Debug)]
pub struct PollEvent {
    /// The instant of the poll, in milliseconds.
    pub now: u64,
    /// The waker handed to the poll.
    pub w: Waker,
}

/// The state a delay reaches after a sequence of checked polls, paired
/// with how many timers those polls started.
pub open spec fn delay_poll_seq(d: Delay, evs: Seq<PollEvent>) -> (Delay, nat)
    decreases evs.len(),
{
    if evs.len() == 0 {
        (d, 0nat)
    } else {
        let (d2, r, cmd) = d.poll_spec(evs[0].now, evs[0].w);
        let started: nat = match cmd {
            TimerCmd::StartTimer { .. } => 1nat,
            _ => 0nat,
        };
        let (df, rest) = delay_poll_seq(d2, evs.drop_first());
        (df, started + rest)
    }
}

/// A delay whose deadline is already past reports `Ready` on its first
/// poll and starts no timer.
pub proof fn delay_past_deadline_ready_without_timer(d: Delay, now: u64, w: Waker)
    requires
        !d.completed,
        d.waker is None,
        now >= d.when,
    ensures
        ({
            let (d2, r, cmd) = d.poll_spec(now, w);
            &&& r == Ok::<PollResult, ExecError>(PollResult::Ready)
            &&& cmd == TimerCmd::Nothing
            &&& d2.waker is None
            &&& d2.completed
        }),
{
}

/// A fresh delay polled before its deadline reports `Pending` and
/// starts exactly one timer, armed for the deadline itself: the waker
/// it stores is to be invoked no earlier than the deadline.
pub proof fn delay_future_deadline_pending_arms_timer(d: Delay, now: u64, w: Waker)
    requires
        !d.completed,
        d.waker is None,
        now < d.when,
    ensures
        ({
            let (d2, r, cmd) = d.poll_spec(now, w);
            &&& r == Ok::<PollResult, ExecError>(PollResult::Pending)
            &&& cmd == (TimerCmd::StartTimer { when: d.when })
            &&& d2.waker == Some(w)
            &&& !d2.completed
        }),
{
}

/// Once a timer is armed the delay never asks for another: over any
/// sequence of further polls, with any instants and any wakers, an
/// armed delay starts zero timers.
pub proof fn delay_armed_starts_no_timer(d: Delay, evs: Seq<PollEvent>)
    requires
        d.waker is Some,
    ensures
        delay_poll_seq(d, evs).1 == 0,
        delay_poll_seq(d, evs).0.waker is Some,
    decreases evs.len(),
{
    if evs.len() > 0 {
        let (d2, r, cmd) = d.poll_spec(evs[0].now, evs[0].w);
        delay_armed_starts_no_timer(d2, evs.drop_first());
    }
}

/// Over its whole life a delay starts at most one timer, no matter how
/// often, at which instants and with which wakers it is polled.
pub proof fn delay_starts_at_most_one_timer(d: Delay, evs: Seq<PollEvent>)
    requires
        d.waker is None,
    ensures
        delay_poll_seq(d, evs).1 <= 1,
    decreases evs.len(),
{
    if evs.len() > 0 {
        let (d2, r, cmd) = d.poll_spec(evs[0].now, evs[0].w);
        if d2.waker is Some {
            delay_armed_starts_no_timer(d2, evs.drop_first());
        } else {
            delay_starts_at_most_one_timer(d2, evs.drop_first());
        }
    }
}

/// Waker equivalence: a fresh delay polled twice before its deadline
/// with two different but equivalent wakers (same destination task)
/// starts exactly one timer; the second poll neither starts nor
/// replaces anything, so one timer exists for the delay instance.
pub proof fn delay_equivalent_wakers_single_timer(
    d: Delay,
    now1: u64,
    w1: Waker,
    now2: u64,
    w2: Waker,
)
    requires
        !d.completed,
        d.waker is None,
        now1 < d.when,
        now2 < d.when,
        w1.equivalent(w2),
    ensures
        ({
            let (d2, r1, cmd1) = d.poll_spec(now1, w1);
            let (d3, r2, cmd2) = d2.poll_spec(now2, w2);
            &&& cmd1 == (TimerCmd::StartTimer { when: d.when })
            &&& cmd2 == TimerCmd::Nothing
            &&& d3.waker == Some(w1)
        }),
{
}

/// `Ready` is terminal: polling a completed delay is flagged as a
/// defect and leaves the delay unchanged — it never silently repeats a
/// stale result.
pub proof fn delay_repoll_after_ready_rejected(d: Delay, now: u64, w: Waker)
    requires
        d.completed,
    ensures
        d.poll_spec(now, w) == (d, Err::<PollResult, ExecError>(ExecError::PollAfterReady),
        TimerCmd::Nothing),
{
}

/// The state an interval reaches after a sequence of polls, paired with
/// how many ticks those polls yielded.
pub open spec fn interval_poll_seq(i: Interval, evs: Seq<PollEvent>) -> (Interval, nat)
    decreases evs.len(),
{
    if evs.len() == 0 {
        (i, 0nat)
    } else {
        let (i2, r, cmd) = i.poll_next_spec(evs[0].now, evs[0].w);
        let t: nat = if r == StreamPoll::Tick {
            1nat
        } else {
            0nat
        };
        let (i3, rest) = interval_poll_seq(i2, evs.drop_first());
        (i3, t + rest)
    }
}

/// Tick conservation: however an interval is polled, the ticks yielded
/// so far and the ticks still to come always add up to the count it was
/// created with — so it yields at most that many ticks.
pub proof fn interval_ticks_conserved(i: Interval, evs: Seq<PollEvent>)
    requires
        i.wf(),
    ensures
        ({
            let (i2, ticks) = interval_poll_seq(i, evs);
            i2.wf() && ticks + i2.rem == i.rem
        }),
    decreases evs.len(),
{
    if evs.len() > 0 {
        let (i2, r, cmd) = i.poll_next_spec(evs[0].now, evs[0].w);
        interval_ticks_conserved(i2, evs.drop_first());
    }
}

/// An interval that has reached exhaustion has yielded exactly the
/// number of ticks it was created for.
pub proof fn interval_exact_tick_count(i: Interval, evs: Seq<PollEvent>)
    requires
        i.wf(),
        interval_poll_seq(i, evs).0.rem == 0,
    ensures
        interval_poll_seq(i, evs).1 == i.rem,
{
    interval_ticks_conserved(i, evs);
}

/// Exhaustion is a permanent, idempotent terminal state: an interval
/// with no remaining ticks reports `Exhausted` on every poll, at any
/// instant and with any waker, and never changes again.
pub proof fn interval_exhausted_terminal(i: Interval, now: u64, w: Waker)
    requires
        i.rem == 0,
    ensures
        i.poll_next_spec(now, w) == (i, StreamPoll::Exhausted, TimerCmd::Nothing),
{
}

/// Polling a live task preserves its well-formedness and identity.
pub proof fn task_poll_preserves_wf(t: Task, now: u64)
    requires
        t.wf(),
        !t.completed,
    ensures
        ({
            let (t2, pr, cmd) = t.poll_task_spec(now);
            t2.wf() && t2.id == t.id
        }),
{
}

/// One scheduler step keeps the state well formed: updating slot `h`
/// with the result of polling the task there, and dropping the head of
/// the queue, is again a well-formed state.
pub proof fn wf_state_after_poll(tasks: Seq<Task>, queue: Seq<usize>, h: usize, now: u64)
    requires
        wf_state(tasks, queue),
        h < tasks.len(),
        !tasks[h as int].completed,
        queue.len() > 0,
    ensures
        ({
            let (t2, pr, cmd) = tasks[h as int].poll_task_spec(now);
            wf_state(tasks.update(h as int, t2), queue.drop_first())
        }),
{
    let (t2, pr, cmd) = tasks[h as int].poll_task_spec(now);
    task_poll_preserves_wf(tasks[h as int], now);
    let tasks2 = tasks.update(h as int, t2);
    assert forall|i: int| 0 <= i < tasks2.len() implies (#[trigger] tasks2[i]).id == i
        && tasks2[i].wf() by {
        if i != h {
            assert(tasks2[i] == tasks[i]);
        }
    };
    assert forall|k: int| 0 <= k < queue.drop_first().len() implies (#[trigger] queue.drop_first(
    )[k]) < tasks2.len() by {
        assert(queue.drop_first()[k] == queue[k + 1]);
    };
}

/// The scheduler never re-polls a finished task: an id whose task has
/// already completed is absent from the polled order of any run.
pub proof fn run_never_repolls_completed(tasks: Seq<Task>, queue: Seq<usize>, now: u64, id: usize)
    requires
        id < tasks.len(),
        tasks[id as int].completed,
    ensures
        ({
            let polled = run_spec(tasks, queue, now).1;
            forall|k: int| 0 <= k < polled.len() ==> polled[k] != id
        }),
    decreases queue.len(),
{
    if queue.len() > 0 {
        let h = queue[0];
        let polled = run_spec(tasks, queue, now).1;
        if h < tasks.len() && !tasks[h as int].completed {
            let (t2, pr, cmd) = tasks[h as int].poll_task_spec(now);
            let tasks2 = tasks.update(h as int, t2);
            assert(tasks2[id as int].completed);
            run_never_repolls_completed(tasks2, queue.drop_first(), now, id);
            let polled2 = run_spec(tasks2, queue.drop_first(), now).1;
            assert(polled == seq![h] + polled2);
            assert forall|k: int| 0 <= k < polled.len() implies polled[k] != id by {
                if k == 0 {
                    assert(polled[0] == h && h != id);
                } else {
                    assert(polled[k] == polled2[k - 1]);
                }
            };
        } else {
            run_never_repolls_completed(tasks, queue.drop_first(), now, id);
            let polled2 = run_spec(tasks, queue.drop_first(), now).1;
            assert(polled == polled2);
            assert forall|k: int| 0 <= k < polled.len() implies polled[k] != id by {
                assert(polled2[k] != id);
            };
        }
    }
}

/// Helper for the FIFO law: a live task whose id has no earlier
/// occurrence in the queue is polled by the run.
pub proof fn run_polls_live_task(tasks: Seq<Task>, queue: Seq<usize>, now: u64, j: int)
    requires
        wf_state(tasks, queue),
        0 <= j < queue.len(),
        !tasks[queue[j] as int].completed,
        forall|k: int| 0 <= k < j ==> queue[k] != queue[j],
    ensures
        ({
            let polled = run_spec(tasks, queue, now).1;
            exists|p: int| 0 <= p < polled.len() && polled[p] == queue[j]
        }),
    decreases queue.len(),
{
    let polled = run_spec(tasks, queue, now).1;
    let h = queue[0];
    let b = queue[j];
    if j == 0 {
        assert(polled[0] == b);
    } else {
        assert(h != b);
        if !tasks[h as int].completed {
            let (t2, pr, cmd) = tasks[h as int].poll_task_spec(now);
            let tasks2 = tasks.update(h as int, t2);
            wf_state_after_poll(tasks, queue, h, now);
            assert(tasks2[b as int] == tasks[b as int]);
            assert(queue.drop_first()[j - 1] == b);
            run_polls_live_task(tasks2, queue.drop_first(), now, j - 1);
            let polled2 = run_spec(tasks2, queue.drop_first(), now).1;
            let p = choose|p: int| 0 <= p < polled2.len() && polled2[p] == b;
            assert(polled[p + 1] == b);
        } else {
            assert forall|k: int| 0 <= k < queue.drop_first().len() implies (
            #[trigger] queue.drop_first()[k]) < tasks.len() by {
                assert(queue.drop_first()[k] == queue[k + 1]);
            };
            run_polls_live_task(tasks, queue.drop_first(), now, j - 1);
            let polled2 = run_spec(tasks, queue.drop_first(), now).1;
            let p = choose|p: int| 0 <= p < polled2.len() && polled2[p] == b;
            assert(polled[p] == b);
        }
    }
}

/// The FIFO law: when two distinct live tasks stand in the queue, each
/// enqueued once, the one enqueued earlier is polled before the one
/// enqueued later.
pub proof fn run_polls_in_enqueue_order(
    tasks: Seq<Task>,
    queue: Seq<usize>,
    now: u64,
    i: int,
    j: int,
)
    requires
        wf_state(tasks, queue),
        0 <= i < j < queue.len(),
        !tasks[queue[i] as int].completed,
        !tasks[queue[j] as int].completed,
        queue[i] != queue[j],
        forall|k: int| 0 <= k < queue.len() && k != i ==> queue[k] != queue[i],
        forall|k: int| 0 <= k < queue.len() && k != j ==> queue[k] != queue[j],
    ensures
        ({
            let polled = run_spec(tasks, queue, now).1;
            exists|pi: int, pj: int|
                0 <= pi < pj < polled.len() && polled[pi] == queue[i] && polled[pj] == queue[j]
        }),
    decreases queue.len(),
{
    let polled = run_spec(tasks, queue, now).1;
    let h = queue[0];
    let a = queue[i];
    let b = queue[j];
    if i == 0 {
        let (t2, pr, cmd) = tasks[h as int].poll_task_spec(now);
        let tasks2 = tasks.update(h as int, t2);
        wf_state_after_poll(tasks, queue, h, now);
        assert(tasks2[b as int] == tasks[b as int]);
        assert(queue.drop_first()[j - 1] == b);
        assert forall|k: int| 0 <= k < j - 1 implies queue.drop_first()[k] != b by {
            assert(queue.drop_first()[k] == queue[k + 1]);
        };
        run_polls_live_task(tasks2, queue.drop_first(), now, j - 1);
        let polled2 = run_spec(tasks2, queue.drop_first(), now).1;
        let p = choose|p: int| 0 <= p < polled2.len() && polled2[p] == b;
        assert(polled[0] == a);
        assert(polled[p + 1] == b);
    } else {
        assert(h != a);
        assert(h != b);
        if !tasks[h as int].completed {
            let (t2, pr, cmd) = tasks[h as int].poll_task_spec(now);
            let tasks2 = tasks.update(h as int, t2);
            wf_state_after_poll(tasks, queue, h, now);
            assert(tasks2[a as int] == tasks[a as int]);
            assert(tasks2[b as int] == tasks[b as int]);
            assert(queue.drop_first()[i - 1] == a);
            assert(queue.drop_first()[j - 1] == b);
            assert forall|k: int|
                0 <= k < queue.drop_first().len() && k != i - 1 implies queue.drop_first()[k]
                != a by {
                assert(queue.drop_first()[k] == queue[k + 1]);
            };
            assert forall|k: int|
                0 <= k < queue.drop_first().len() && k != j - 1 implies queue.drop_first()[k]
                != b by {
                assert(queue.drop_first()[k] == queue[k + 1]);
            };
            run_polls_in_enqueue_order(tasks2, queue.drop_first(), now, i - 1, j - 1);
            let polled2 = run_spec(tasks2, queue.drop_first(), now).1;
            let (pi, pj) = choose|pi: int, pj: int|
                0 <= pi < pj < polled2.len() && polled2[pi] == a && polled2[pj] == b;
            assert(polled[pi + 1] == a);
            assert(polled[pj + 1] == b);
        } else {
            assert forall|k: int| 0 <= k < queue.drop_first().len() implies (
            #[trigger] queue.drop_first()[k]) < tasks.len() by {
                assert(queue.drop_first()[k] == queue[k + 1]);
            };
            assert(queue.drop_first()[i - 1] == a);
            assert(queue.drop_first()[j - 1] == b);
            assert forall|k: int|
                0 <= k < queue.drop_first().len() && k != i - 1 implies queue.drop_first()[k]
                != a by {
                assert(queue.drop_first()[k] == queue[k + 1]);
            };
            assert forall|k: int|
                0 <= k < queue.drop_first().len() && k != j - 1 implies queue.drop_first()[k]
                != b by {
                assert(queue.drop_first()[k] == queue[k + 1]);
            };
            run_polls_in_enqueue_order(tasks, queue.drop_first(), now, i - 1, j - 1);
        }
    }
}

} // verus!
