//! The single-threaded executor: tasks, the FIFO runnable queue, and the
//! scheduler loop.

use crate::delay::Delay;
use crate::suspend::{PollResult, Suspendable, TimerCmd};
use crate::waker::Waker;
use vstd::prelude::*;

verus! {

/// The operations a task can own.
///
/// A task's operation is polled to completion by the scheduler; `Ready`
/// is terminal.
#[derive(Clone, Copy, Debug)]
pub enum Op {
    /// Completes on its first poll.
    Immediate { finished: bool },
    /// Completes once the embedded delay's deadline is reached.
    Wait { delay: Delay },
}

impl Op {
    /// An operation that completes on its first poll.
    pub fn immediate() -> (op: Op)
        ensures
            op == (Op::Immediate { finished: false }),
    {
        Op::Immediate { finished: false }
    }

    /// An operation that waits for the deadline `when` (milliseconds).
    pub fn wait_until(when: u64) -> (op: Op)
        ensures
            op == (Op::Wait { delay: Delay { when, waker: None::<Waker>, completed: false } }),
    {
        Op::Wait { delay: Delay::new(when) }
    }
}

impl Suspendable for Op {
    open spec fn done(&self) -> bool {
        match *self {
            Op::Immediate { finished } => finished,
            Op::Wait { delay } => delay.completed,
        }
    }

    open spec fn advance_spec(&self, now: u64, w: Waker) -> (Self, PollResult, TimerCmd) {
        match *self {
            Op::Immediate { finished } => (
                Op::Immediate { finished: true },
                PollResult::Ready,
                TimerCmd::Nothing,
            ),
            Op::Wait { delay } => {
                let (d2, pr, cmd) = delay.advance_spec(now, w);
                (Op::Wait { delay: d2 }, pr, cmd)
            },
        }
    }

    fn advance(&mut self, now: u64, w: Waker) -> (r: (PollResult, TimerCmd)) {
        match *self {
            Op::Immediate { finished: _ } => {
                *self = Op::Immediate { finished: true };
                (PollResult::Ready, TimerCmd::Nothing)
            },
            Op::Wait { delay } => {
                let mut d = delay;
                let r = d.advance(now, w);
                *self = Op::Wait { delay: d };
                r
            },
        }
    }
}

/// A schedulable unit: one suspendable operation plus the identity used
/// to re-enqueue it.
#[derive(Clone, Copy, Debug)]
pub struct Task {
    /// The task's slot in the executor's task arena; wakers built for
    /// the task carry the same number, so a waker holds a lookup key and
    /// never an exclusive owner.
    pub id: usize,
    /// The operation the task owns; only the scheduler advances it, so no
    /// two polls of the same task ever overlap.
    pub op: Op,
    /// Whether the operation has reached `Ready`; a completed task is
    /// never polled again.
    pub completed: bool,
}

impl Task {
    /// A task is well formed when its completion flag agrees with its
    /// operation's state.
    pub open spec fn wf(&self) -> bool {
        self.completed == self.op.done()
    }

    /// The transition taken by [`Task::poll`]: the task builds a waker
    /// bound to itself and advances its operation once.
    pub open spec fn poll_task_spec(&self, now: u64) -> (Task, PollResult, TimerCmd) {
        let (op2, pr, cmd) = self.op.advance_spec(now, Waker { task: self.id });
        (Task { id: self.id, op: op2, completed: pr == PollResult::Ready }, pr, cmd)
    }

    /// Polls the task once: builds a waker bound to the task itself and calls
    /// `advance` on the owned operation exactly once. A task whose
    /// operation reports `Ready` is finished and is never polled again.
    pub fn poll(&mut self, now: u64) -> (r: (PollResult, TimerCmd))
        requires
            old(self).wf(),
            !old(self).completed,
        ensures
            final(self).wf(),
            (*final(self), r.0, r.1) == old(self).poll_task_spec(now),
    {
        let w = Waker::new(self.id);
        let (pr, cmd) = self.op.advance(now, w);
        self.completed = pr == PollResult::Ready;
        (pr, cmd)
    }

    /// Wraps `op` in a new task and enqueues it on `exec`'s runnable
    /// queue; the new task's id is the next free arena slot.
    pub fn spawn(op: Op, exec: &mut MiniTokio)
        requires
            old(exec).wf(),
            !op.done(),
        ensures
            final(exec).wf(),
            final(exec).tasks@ == old(exec).tasks@.push(
                Task { id: old(exec).tasks@.len() as usize, op, completed: false },
            ),
            final(exec).queue@ == old(exec).queue@.push(old(exec).tasks@.len() as usize),
    {
        let id = exec.tasks.len();
        exec.tasks.push(Task { id, op, completed: false });
        exec.queue.push(id);
    }

    /// Re-enqueues the task on the runnable queue, scheduling it for
    /// another poll.
    pub fn schedule(&self, queue: &mut Vec<usize>)
        ensures
            final(queue)@ == old(queue)@.push(self.id),
    {
        queue.push(self.id);
    }

    /// Called when one of the task's wakers is invoked: the task
    /// schedules itself.
    pub fn wake_by_ref(&self, queue: &mut Vec<usize>)
        ensures
            final(queue)@ == old(queue)@.push(self.id),
    {
        self.schedule(queue);
    }
}

/// One timer the embedding runtime must start: wait until instant `when`
/// and then invoke `waker` exactly once.
#[derive(Clone, Copy, PartialEq, Eq, Structural, Debug)]
pub struct TimerRequest {
    /// The instant the timer fires, in milliseconds.
    pub when: u64,
    /// The waker the timer invokes when it fires.
    pub waker: Waker,
}

/// What one call of [`MiniTokio::run`] did: the ids of the tasks polled,
/// in order, and the timers the runtime must now start.
#[derive(Debug)]
pub struct RunOutcome {
    /// The ids of the tasks that were polled, in dequeue order.
    pub polled: Vec<usize>,
    /// The timers to start, in the order the polls asked for them.
    pub timers: Vec<TimerRequest>,
}

/// Well-formedness of a scheduler state: every task sits at the arena
/// slot its id names and is itself well formed, and every queued id
/// refers to an arena slot.
pub open spec fn wf_state(tasks: Seq<Task>, queue: Seq<usize>) -> bool {
    &&& forall|i: int|
        0 <= i < tasks.len() ==> (#[trigger] tasks[i]).id == i && tasks[i].wf()
    &&& forall|k: int| 0 <= k < queue.len() ==> (#[trigger] queue[k]) < tasks.len()
}

/// The scheduler loop's effect at one instant: dequeue ids front to
/// back and poll each task that is still live (not yet completed)
/// exactly once; a stale entry — a wake that arrived after its task
/// completed — is skipped, which makes late wakes safe no-ops. Gives the
/// final task arena, the polled ids in order, and the timers to start,
/// in order.
pub open spec fn run_spec(tasks: Seq<Task>, queue: Seq<usize>, now: u64) -> (
    Seq<Task>,
    Seq<usize>,
    Seq<TimerRequest>,
)
    decreases queue.len(),
{
    if queue.len() == 0 {
        (tasks, Seq::<usize>::empty(), Seq::<TimerRequest>::empty())
    } else {
        let id = queue[0];
        if id < tasks.len() && !tasks[id as int].completed {
            let (t2, pr, cmd) = tasks[id as int].poll_task_spec(now);
            let (tf, polled, timers) = run_spec(tasks.update(id as int, t2), queue.drop_first(), now);
            let started = match cmd {
                TimerCmd::StartTimer { when } => seq![
                    TimerRequest { when, waker: Waker { task: id } },
                ],
                _ => Seq::<TimerRequest>::empty(),
            };
            (tf, seq![id] + polled, started + timers)
        } else {
            run_spec(tasks, queue.drop_first(), now)
        }
    }
}

/// The scheduler: a task arena and the FIFO runnable queue.
///
/// The queue has many producers — `spawn` and every waker — and one
/// consumer, the loop in [`MiniTokio::run`]. Cross-thread wakes enter
/// through [`MiniTokio::wake`], which the embedding runtime calls on the
/// polling thread for every waker invocation it receives.
#[derive(Debug)]
pub struct MiniTokio {
    /// All tasks ever spawned; a task's id is its index here. Completed
    /// tasks stay in place so that a late wake is a safe no-op.
    pub tasks: Vec<Task>,
    /// Ids of runnable tasks in FIFO order; the front is polled first.
    pub queue: Vec<usize>,
}

impl MiniTokio {
    pub open spec fn wf(&self) -> bool {
        wf_state(self.tasks@, self.queue@)
    }

    /// An executor with an empty arena and an empty runnable queue.
    pub fn new() -> (m: MiniTokio)
        ensures
            m.wf(),
            m.tasks@ == Seq::<Task>::empty(),
            m.queue@ == Seq::<usize>::empty(),
    {
        MiniTokio { tasks: Vec::new(), queue: Vec::new() }
    }

    /// Wraps `op` in a task and enqueues it; fire and forget.
    pub fn spawn(&mut self, op: Op)
        requires
            old(self).wf(),
            !op.done(),
        ensures
            final(self).wf(),
            final(self).tasks@ == old(self).tasks@.push(
                Task { id: old(self).tasks@.len() as usize, op, completed: false },
            ),
            final(self).queue@ == old(self).queue@.push(old(self).tasks@.len() as usize),
    {
        Task::spawn(op, self);
    }

    /// Invokes waker `w`: re-enqueues the task it references. Invoking a
    /// waker whose task this executor does not know is a safe no-op.
    pub fn wake(&mut self, w: Waker)
        requires
            old(self).wf(),
        ensures
            final(self).wf(),
            final(self).tasks@ == old(self).tasks@,
            w.task < old(self).tasks@.len() ==> final(self).queue@ == old(self).queue@.push(
                w.task,
            ),
            w.task >= old(self).tasks@.len() ==> final(self).queue@ == old(self).queue@,
    {
        if w.task < self.tasks.len() {
            let t = &self.tasks[w.task];
            t.wake_by_ref(&mut self.queue);
        }
    }

    /// Runs every task currently queued, at instant `now`: dequeues ids
    /// front to back, polling each live task exactly once, in FIFO
    /// order, and skipping stale entries. Polling never blocks; the
    /// waiting itself is handed back as timer requests for the embedding
    /// runtime, whose wakes re-enter through [`MiniTokio::wake`] before
    /// the next call of `run`.
    pub fn run(&mut self, now: u64) -> (out: RunOutcome)
        requires
            old(self).wf(),
        ensures
            final(self).wf(),
            final(self).queue@ == Seq::<usize>::empty(),
            ({
                let (tf, polled, timers) = run_spec(old(self).tasks@, old(self).queue@, now);
                final(self).tasks@ == tf && out.polled@ == polled && out.timers@ == timers
            }),
    {
        let ghost tasks0 = self.tasks@;
        let ghost queue0 = self.queue@;
        let mut polled: Vec<usize> = Vec::new();
        let mut timers: Vec<TimerRequest> = Vec::new();
        let qlen = self.queue.len();
        let mut i: usize = 0;
        proof {
            assert(queue0.skip(0) =~= queue0);
            assert(Seq::<usize>::empty() + run_spec(tasks0, queue0, now).1 =~= run_spec(
                tasks0,
                queue0,
                now,
            ).1);
            assert(Seq::<TimerRequest>::empty() + run_spec(tasks0, queue0, now).2 =~= run_spec(
                tasks0,
                queue0,
                now,
            ).2);
        }
        while i < qlen
            invariant
                i <= qlen,
                qlen == queue0.len(),
                self.queue@ == queue0,
                wf_state(self.tasks@, queue0),
                self.tasks@.len() == tasks0.len(),
                run_spec(tasks0, queue0, now).0 == run_spec(
                    self.tasks@,
                    queue0.skip(i as int),
                    now,
                ).0,
                run_spec(tasks0, queue0, now).1 == polled@ + run_spec(
                    self.tasks@,
                    queue0.skip(i as int),
                    now,
                ).1,
                run_spec(tasks0, queue0, now).2 == timers@ + run_spec(
                    self.tasks@,
                    queue0.skip(i as int),
                    now,
                ).2,
            decreases qlen - i,
        {
            proof {
                assert(queue0.skip(i as int).drop_first() =~= queue0.skip(i as int + 1));
                assert(queue0.skip(i as int)[0] == queue0[i as int]);
            }
            let id = self.queue[i];
            let ghost tasks_cur = self.tasks@;
            let ghost polled0 = polled@;
            let ghost timers0 = timers@;
            if !self.tasks[id].completed {
                let mut t = self.tasks[id];
                let (pr, cmd) = t.poll(now);
                self.tasks[id] = t;
                polled.push(id);
                match cmd {
                    TimerCmd::StartTimer { when } => {
                        timers.push(TimerRequest { when, waker: Waker { task: id } });
                    },
                    _ => {},
                }
                proof {
                    let (t2, pr2, cmd2) = tasks_cur[id as int].poll_task_spec(now);
                    assert(self.tasks@ =~= tasks_cur.update(id as int, t2));
                    let (tf, p2, tm2) = run_spec(self.tasks@, queue0.skip(i as int + 1), now);
                    assert(run_spec(tasks_cur, queue0.skip(i as int), now).1 =~= seq![id] + p2);
                    assert(polled@ =~= polled0 + seq![id]);
                    assert((polled0 + (seq![id] + p2)) =~= (polled@ + p2));
                    match cmd2 {
                        TimerCmd::StartTimer { when } => {
                            assert(run_spec(tasks_cur, queue0.skip(i as int), now).2 =~= seq![
                                TimerRequest { when, waker: Waker { task: id } },
                            ] + tm2);
                            assert((timers0 + (seq![
                                TimerRequest { when, waker: Waker { task: id } },
                            ] + tm2)) =~= (timers@ + tm2));
                        },
                        _ => {
                            assert(run_spec(tasks_cur, queue0.skip(i as int), now).2 =~= tm2);
                        },
                    }
                }
            }
            i = i + 1;
        }
        proof {
            assert(queue0.skip(qlen as int) =~= Seq::<usize>::empty());
            let (tf, p2, tm2) = run_spec(self.tasks@, queue0.skip(qlen as int), now);
            assert(polled@ + p2 =~= polled@);
            assert(timers@ + tm2 =~= timers@);
        }
        self.queue.clear();
        RunOutcome { polled, timers }
    }
}

} // verus!
