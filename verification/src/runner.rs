//! The per-frame schedule runner: feeds the clock, then runs the sub-steps
//! it gives out, for as long as the frame's execution budget lasts.

use std::time::{Duration, Instant};
use vstd::prelude::*;
use crate::state::{lemma_after_steps, saturate, ClockState, MAX_OVERSTEP_STEPS};
use crate::time::PhysicsTime;

verus! {

/// The wall-clock time, in nanoseconds, that the sub-steps of one frame may
/// take unless a runner is made with another budget: one sub-step's worth.
pub const MAX_PHYSICS_EXEC_TIME: u64 = 15_625_000;

#[verifier::external_type_specification]
#[verifier::external_body]
pub struct ExInstant(Instant);

/// `Instant::now`: the present moment. Nothing is claimed of it.
#[verifier::external_body]
fn stopwatch_start() -> Instant {
    Instant::now()
}

/// `Instant::elapsed`: the time that went by since `start`. Nothing is
/// claimed of it.
#[verifier::external_body]
fn stopwatch_read(start: &Instant) -> Duration {
    start.elapsed()
}

/// `Duration::as_nanos`: the whole duration in nanoseconds. Nothing is
/// claimed of the number.
#[verifier::external_body]
fn whole_nanos(duration: Duration) -> u128 {
    duration.as_nanos()
}

/// The nanoseconds that went by since `start`; nothing holds of every reading.
fn elapsed_nanos(start: &Instant) -> u64 {
    saturating_nanos(whole_nanos(stopwatch_read(start)))
}

/// A number of nanoseconds as the runner holds it: itself, or `u64::MAX` if
/// it is more than that.
pub fn saturating_nanos(nanos: u128) -> (cut: u64)
    ensures
        cut == saturate(nanos as nat),
{
    if nanos > u64::MAX as u128 {
        u64::MAX
    } else {
        nanos as u64
    }
}

/// Runs the sub-steps of a frame within a wall-clock budget. When the
/// simulation is too slow to keep pace, the runner cuts the frame's work
/// short and lets the clock carry the debt, which the clock in turn bounds.
#[derive(Clone, Copy, Debug)]
pub struct ScheduleRunner {
    /// The wall-clock time, in nanoseconds, after which a frame runs no
    /// further sub-step.
    pub max_exec_time: u64,
}

impl ScheduleRunner {
    /// A runner that gives each frame `max_exec_time` nanoseconds.
    pub fn new(max_exec_time: u64) -> (runner: ScheduleRunner)
        ensures
            runner.max_exec_time == max_exec_time,
    {
        ScheduleRunner { max_exec_time }
    }

    /// Whether a frame that has been running sub-steps for `elapsed`
    /// nanoseconds has used up its budget.
    pub fn budget_spent(&self, elapsed: u64) -> (spent: bool)
        ensures
            spent == (elapsed >= self.max_exec_time),
    {
        elapsed >= self.max_exec_time
    }

    /// Runs sub-steps while the clock gives them out: `step_fn` once for
    /// each, and after each a look at `elapsed_fn`, the time that the frame
    /// has spent so far. The loop ends when the clock has no sub-step left or
    /// the budget is spent, whichever comes first.
    ///
    /// So at least one sub-step runs if the clock has any. If every reading
    /// of the time meets the budget, no second one runs; if none does, all
    /// of them run.
    pub fn run_steps<F: FnMut(), T: Fn() -> u64>(
        &self,
        time: &mut PhysicsTime,
        mut step_fn: F,
        elapsed_fn: T,
    ) -> (steps: u64)
        requires
            call_requires(step_fn, ()),
            call_requires(elapsed_fn, ()),
        ensures
            steps <= old(time)@.max_steps(),
            old(time)@.max_steps() > 0 ==> steps >= 1,
            final(time)@ == old(time)@.after_steps(steps as nat),
            final(time)@.wf(),
            (forall|reading: u64|
                call_ensures(elapsed_fn, (), reading) ==> reading >= self.max_exec_time)
                ==> steps <= 1,
            (forall|reading: u64|
                call_ensures(elapsed_fn, (), reading) ==> reading < self.max_exec_time)
                ==> steps == old(time)@.max_steps(),
    {
        // Reading the clock brings its invariant into view.
        let _ = time.elapsed();
        let ghost start: ClockState = time@;
        let mut steps: u64 = 0;
        proof {
            lemma_after_steps(start, 0);
        }
        loop
            invariant_except_break
                (forall|reading: u64|
                    call_ensures(elapsed_fn, (), reading) ==> reading >= self.max_exec_time)
                    ==> steps == 0,
            invariant
                start.wf(),
                start == old(time)@,
                steps <= start.max_steps(),
                time@ == start.after_steps(steps as nat),
                call_requires(step_fn, ()),
                call_requires(elapsed_fn, ()),
            ensures
                steps <= start.max_steps(),
                start.max_steps() > 0 ==> steps >= 1,
                time@ == start.after_steps(steps as nat),
                time@.wf(),
                (forall|reading: u64|
                    call_ensures(elapsed_fn, (), reading) ==> reading >= self.max_exec_time)
                    ==> steps <= 1,
                (forall|reading: u64|
                    call_ensures(elapsed_fn, (), reading) ==> reading < self.max_exec_time)
                    ==> steps == start.max_steps(),
            decreases start.max_steps() - steps,
        {
            proof {
                lemma_after_steps(start, steps as nat);
            }
            if !time.try_consume_step() {
                break ;
            }
            step_fn();
            steps = steps + 1;
            let reading: u64 = elapsed_fn();
            if self.budget_spent(reading) {
                break ;
            }
        }
        steps
    }

    /// Runs one frame: takes in `wall_delta` nanoseconds of wall-clock time,
    /// runs `step_fn` once for every sub-step that the clock gives out while
    /// the budget lasts, and caps what overstep is left. Returns how many
    /// sub-steps it ran.
    ///
    /// How many that is depends on how long they took. Whatever they took,
    /// it is at least one if the clock had any to give, and the clock ends
    /// the frame as `after_frame` says for that number.
    pub fn advance<F: FnMut()>(&self, time: &mut PhysicsTime, wall_delta: u64, step_fn: F) -> (steps:
        u64)
        requires
            call_requires(step_fn, ()),
        ensures
            steps <= old(time)@.accumulate(wall_delta as nat).max_steps(),
            old(time)@.accumulate(wall_delta as nat).max_steps() > 0 ==> steps >= 1,
            final(time)@ == old(time)@.after_frame(wall_delta as nat, steps as nat),
            final(time)@.overstep <= MAX_OVERSTEP_STEPS * final(time)@.fixed_step,
            final(time)@.wf(),
            old(time)@.mode is OneTick ==> steps == 1 && final(time)@.mode is Paused,
            old(time)@.mode is Paused ==> steps == 0,
            self.max_exec_time == 0 ==> steps <= 1,
    {
        time.accumulate(wall_delta);
        let start = stopwatch_start();
        let elapsed_fn = || -> (nanos: u64) { elapsed_nanos(&start) };
        let steps = self.run_steps(time, step_fn, elapsed_fn);
        time.clamp_overstep();
        steps
    }
}

impl Default for ScheduleRunner {
    /// A runner with a budget of `MAX_PHYSICS_EXEC_TIME`.
    fn default() -> (runner: ScheduleRunner)
        ensures
            runner.max_exec_time == MAX_PHYSICS_EXEC_TIME,
    {
        ScheduleRunner { max_exec_time: MAX_PHYSICS_EXEC_TIME }
    }
}

} // verus!
