use mini_tokio::ambient::{spawn, AmbientContext};
use mini_tokio::delay::Delay;
use mini_tokio::executor::{MiniTokio, Op, TimerRequest};
use mini_tokio::interval::{Interval, StreamPoll};
use mini_tokio::suspend::{PollResult, TimerCmd};
use mini_tokio::waker::Waker;
use mini_tokio::ExecError;

#[test]
fn delay_past_deadline_is_ready_on_first_poll_without_timer() {
    let mut d = Delay::new(100);
    let (r, cmd) = d.poll(100, Waker::new(0));
    assert_eq!(r, Ok(PollResult::Ready));
    assert_eq!(cmd, TimerCmd::Nothing);
    assert!(d.completed);
    assert_eq!(d.waker, None);
}

#[test]
fn delay_future_deadline_is_pending_and_arms_timer_for_deadline() {
    let mut d = Delay::new(1000);
    let w = Waker::new(7);
    let (r, cmd) = d.poll(0, w);
    assert_eq!(r, Ok(PollResult::Pending));
    assert_eq!(cmd, TimerCmd::StartTimer { when: 1000 });
    assert_eq!(d.waker, Some(w));
    assert!(!d.completed);
}

#[test]
fn delay_equivalent_wakers_start_one_timer() {
    let mut d = Delay::new(1000);
    let (_, cmd1) = d.poll(0, Waker::new(3));
    let (r2, cmd2) = d.poll(500, Waker::new(3));
    assert_eq!(cmd1, TimerCmd::StartTimer { when: 1000 });
    assert_eq!(r2, Ok(PollResult::Pending));
    assert_eq!(cmd2, TimerCmd::Nothing);
    assert_eq!(d.waker, Some(Waker::new(3)));
}

#[test]
fn delay_moved_to_other_task_replaces_stored_waker() {
    let mut d = Delay::new(1000);
    let (_, cmd1) = d.poll(0, Waker::new(3));
    assert_eq!(cmd1, TimerCmd::StartTimer { when: 1000 });
    let (r2, cmd2) = d.poll(500, Waker::new(4));
    assert_eq!(r2, Ok(PollResult::Pending));
    assert_eq!(cmd2, TimerCmd::ReplaceWaker);
    assert_eq!(d.waker, Some(Waker::new(4)));
}

#[test]
fn delay_repoll_after_ready_is_flagged_as_defect() {
    let mut d = Delay::new(50);
    let (r1, _) = d.poll(60, Waker::new(0));
    assert_eq!(r1, Ok(PollResult::Ready));
    let (r2, cmd2) = d.poll(70, Waker::new(0));
    assert_eq!(r2, Err(ExecError::PollAfterReady));
    assert_eq!(cmd2, TimerCmd::Nothing);
    assert!(d.completed);
    assert_eq!(d.when, 50);
}

#[test]
fn delay_ready_race_after_timer_armed_still_reports_ready() {
    let mut d = Delay::new(1000);
    let w = Waker::new(1);
    let (r1, _) = d.poll(0, w);
    assert_eq!(r1, Ok(PollResult::Pending));
    let (r2, cmd2) = d.poll(1000, w);
    assert_eq!(r2, Ok(PollResult::Ready));
    assert_eq!(cmd2, TimerCmd::Nothing);
}

#[test]
fn delay_at_the_clocks_far_edge_still_completes() {
    let mut d = Delay::new(u64::MAX);
    let (r1, cmd1) = d.poll(0, Waker::new(0));
    assert_eq!(r1, Ok(PollResult::Pending));
    assert_eq!(cmd1, TimerCmd::StartTimer { when: u64::MAX });
    let (r2, cmd2) = d.poll(u64::MAX, Waker::new(0));
    assert_eq!(r2, Ok(PollResult::Ready));
    assert_eq!(cmd2, TimerCmd::Nothing);
}

#[test]
fn waker_equivalence_is_same_destination_task() {
    assert!(Waker::new(1).will_wake(&Waker::new(1)));
    assert!(!Waker::new(1).will_wake(&Waker::new(2)));
}

#[test]
fn interval_yields_three_ticks_then_permanent_exhaustion() {
    let w = Waker::new(0);
    let mut i = Interval::new(3, 0);
    let (r1, _) = i.poll_next(0, w);
    assert_eq!(r1, StreamPoll::Tick);
    let (r2, _) = i.poll_next(3000, w);
    assert_eq!(r2, StreamPoll::Tick);
    let (r3, _) = i.poll_next(6000, w);
    assert_eq!(r3, StreamPoll::Tick);
    let (r4, cmd4) = i.poll_next(9000, w);
    assert_eq!(r4, StreamPoll::Exhausted);
    assert_eq!(cmd4, TimerCmd::Nothing);
    let (r5, _) = i.poll_next(12000, w);
    assert_eq!(r5, StreamPoll::Exhausted);
    assert_eq!(i.rem, 0);
}

#[test]
fn interval_zero_count_is_exhausted_from_the_start() {
    let mut i = Interval::new(0, 0);
    let (r, cmd) = i.poll_next(0, Waker::new(0));
    assert_eq!(r, StreamPoll::Exhausted);
    assert_eq!(cmd, TimerCmd::Nothing);
}

#[test]
fn interval_deadlines_step_by_the_period_not_by_the_clock() {
    let w = Waker::new(0);
    let mut i = Interval::new(2, 0);
    // The first tick is polled late; the next deadline is still measured
    // from the old deadline, so latency does not drift the schedule.
    let (r1, _) = i.poll_next(500, w);
    assert_eq!(r1, StreamPoll::Tick);
    assert_eq!(i.delay.when, 3000);
    let (r2, cmd2) = i.poll_next(1000, w);
    assert_eq!(r2, StreamPoll::Pending);
    assert_eq!(cmd2, TimerCmd::StartTimer { when: 3000 });
}

#[test]
fn executor_polls_tasks_in_fifo_enqueue_order() {
    let mut mt = MiniTokio::new();
    mt.spawn(Op::immediate());
    mt.spawn(Op::immediate());
    mt.spawn(Op::immediate());
    let out = mt.run(0);
    assert_eq!(out.polled, vec![0, 1, 2]);
    assert!(out.timers.is_empty());
    assert!(mt.tasks[0].completed);
    assert!(mt.tasks[1].completed);
    assert!(mt.tasks[2].completed);
}

#[test]
fn executor_scenario_immediate_then_100ms_then_200ms() {
    let mut mt = MiniTokio::new();
    mt.spawn(Op::immediate());
    mt.spawn(Op::wait_until(100));
    mt.spawn(Op::wait_until(200));

    // First pass, at instant 0: the immediate task completes, the two
    // delays suspend and ask for their timers.
    let out = mt.run(0);
    assert_eq!(out.polled, vec![0, 1, 2]);
    assert_eq!(
        out.timers,
        vec![
            TimerRequest { when: 100, waker: Waker::new(1) },
            TimerRequest { when: 200, waker: Waker::new(2) },
        ]
    );
    assert!(mt.tasks[0].completed);
    assert!(!mt.tasks[1].completed);
    assert!(!mt.tasks[2].completed);

    // The 100 ms timer fires first.
    mt.wake(Waker::new(1));
    let out = mt.run(100);
    assert_eq!(out.polled, vec![1]);
    assert!(mt.tasks[1].completed);
    assert!(!mt.tasks[2].completed);

    // Then the 200 ms timer: completion order is immediate, 100, 200.
    mt.wake(Waker::new(2));
    let out = mt.run(200);
    assert_eq!(out.polled, vec![2]);
    assert!(mt.tasks[2].completed);
}

#[test]
fn waking_a_completed_task_is_a_safe_no_op() {
    let mut mt = MiniTokio::new();
    mt.spawn(Op::immediate());
    let out = mt.run(0);
    assert_eq!(out.polled, vec![0]);
    mt.wake(Waker::new(0));
    let out = mt.run(0);
    assert!(out.polled.is_empty());
    assert!(mt.tasks[0].completed);
}

#[test]
fn waking_an_unknown_task_is_a_safe_no_op() {
    let mut mt = MiniTokio::new();
    mt.wake(Waker::new(5));
    assert_eq!(mt.queue.len(), 0);
    let out = mt.run(0);
    assert!(out.polled.is_empty());
}

#[test]
fn pending_task_is_not_repolled_until_woken() {
    let mut mt = MiniTokio::new();
    mt.spawn(Op::wait_until(1000));
    let out = mt.run(0);
    assert_eq!(out.polled, vec![0]);
    // No wake arrived: the queue stays empty, nothing is polled.
    let out = mt.run(500);
    assert!(out.polled.is_empty());
    // The wake arrives; the next pass after the deadline completes it.
    mt.wake(Waker::new(0));
    let out = mt.run(1000);
    assert_eq!(out.polled, vec![0]);
    assert!(mt.tasks[0].completed);
}

#[test]
fn ambient_spawn_without_entering_fails_with_configuration_error() {
    // The binding is thread-scoped: a thread that never entered — such
    // as any thread other than the one that called `enter` — starts from
    // `AmbientContext::new` and holds no executor.
    let ctx = AmbientContext::new();
    let mut mt = MiniTokio::new();
    let r = spawn(&ctx, Op::immediate(), &mut mt);
    assert_eq!(r, Err(ExecError::NoExecutorEntered));
    assert_eq!(mt.tasks.len(), 0);
    assert_eq!(mt.queue.len(), 0);
}

#[test]
fn ambient_spawn_after_entering_enqueues_like_executor_spawn() {
    let mut ctx = AmbientContext::new();
    ctx.enter();
    let mut mt = MiniTokio::new();
    let r = spawn(&ctx, Op::immediate(), &mut mt);
    assert_eq!(r, Ok(()));
    let out = mt.run(0);
    assert_eq!(out.polled, vec![0]);
    assert!(mt.tasks[0].completed);
}

#[test]
fn task_ids_and_wakers_line_up_with_spawn_order() {
    let mut mt = MiniTokio::new();
    mt.spawn(Op::wait_until(10));
    mt.spawn(Op::wait_until(20));
    assert_eq!(mt.tasks[0].id, 0);
    assert_eq!(mt.tasks[1].id, 1);
    let out = mt.run(0);
    assert_eq!(
        out.timers,
        vec![
            TimerRequest { when: 10, waker: Waker::new(0) },
            TimerRequest { when: 20, waker: Waker::new(1) },
        ]
    );
}
