//! What holds of the clock whatever is done to it, stated over its model and
//! proved.

use vstd::prelude::*;
use crate::mode::{PhysicsTimeMode, Speed};
use crate::state::{lemma_after_steps, saturate, ClockState, MAX_OVERSTEP_STEPS};

verus! {

/// One thing that happens to a clock.
pub enum Event {
    /// A host frame that brought `wall_delta` nanoseconds of wall-clock time
    /// and executed `steps` sub-steps.
    Frame { wall_delta: nat, steps: nat },
    Pause,
    Resume,
    Step,
    Run { speed: Speed },
    Reset,
}

impl Event {
    /// Whether the event can happen to a clock in `state`: a frame executes
    /// no more sub-steps than the clock gives out.
    pub open spec fn possible(self, state: ClockState) -> bool {
        match self {
            Event::Frame { wall_delta, steps } => steps <= state.accumulate(wall_delta).max_steps(),
            _ => true,
        }
    }

    /// The clock after the event.
    pub open spec fn apply(self, state: ClockState) -> ClockState {
        match self {
            Event::Frame { wall_delta, steps } => state.after_frame(wall_delta, steps),
            Event::Pause => state.pause(),
            Event::Resume => state.resume(),
            Event::Step => state.step(),
            Event::Run { speed } => state.run(speed),
            Event::Reset => state.reset(),
        }
    }
}

/// The clock after all of `events`, first to last.
pub open spec fn after_events(state: ClockState, events: Seq<Event>) -> ClockState
    decreases events.len(),
{
    if events.len() == 0 {
        state
    } else {
        events.last().apply(after_events(state, events.drop_last()))
    }
}

/// Whether each of `events` can happen when its turn comes.
pub open spec fn all_possible(state: ClockState, events: Seq<Event>) -> bool
    decreases events.len(),
{
    if events.len() == 0 {
        true
    } else {
        &&& all_possible(state, events.drop_last())
        &&& events.last().possible(after_events(state, events.drop_last()))
    }
}

/// Accumulating wall-clock time changes the overstep and nothing else.
pub proof fn law_accumulate_keeps_clock(state: ClockState, wall_delta: nat)
    requires
        state.wf(),
    ensures
        state.accumulate(wall_delta).wf(),
        state.accumulate(wall_delta).mode == state.mode,
        state.accumulate(wall_delta).elapsed_total == state.elapsed_total,
        state.accumulate(wall_delta).fixed_step == state.fixed_step,
        state.accumulate(wall_delta).overstep >= state.overstep,
        !(state.mode is Running) ==> state.accumulate(wall_delta) == state,
{
}

/// Step quantization, one frame: a frame that executes `steps` sub-steps
/// moves the elapsed time on by exactly `steps` times the sub-step duration,
/// unless that passes the largest duration the clock can hold, where it
/// stops. So an elapsed time that was a whole number of sub-steps still is.
pub proof fn law_frame_quantized(state: ClockState, wall_delta: nat, steps: nat)
    requires
        state.wf(),
        steps <= state.accumulate(wall_delta).max_steps(),
    ensures
        state.after_frame(wall_delta, steps).wf(),
        state.after_frame(wall_delta, steps).elapsed_total == saturate(
            state.elapsed_total + steps * state.fixed_step,
        ),
        state.after_frame(wall_delta, steps).fixed_step == state.fixed_step,
        state.is_quantized() && state.elapsed_total + steps * state.fixed_step <= u64::MAX
            ==> state.after_frame(wall_delta, steps).is_quantized(),
{
    let fed = state.accumulate(wall_delta);
    lemma_after_steps(fed, steps);
    let step = state.fixed_step as int;
    vstd::arithmetic::div_mod::lemma_mod_multiples_vanish(
        steps as int,
        state.elapsed_total as int,
        step,
    );
    assert(step * steps == steps * step) by (nonlinear_arith);
    assert(steps * step >= 0) by (nonlinear_arith)
        requires
            steps >= 0,
            step > 0,
    ;
}

/// Step quantization and the overstep bound, any history: whatever frames
/// and commands a clock goes through, in whatever order, its elapsed time is
/// a whole number of sub-steps or stands at the largest duration the clock
/// can hold, and once a frame is over, no more than three sub-steps' worth
/// of overstep is left.
pub proof fn law_invariants_hold(state: ClockState, events: Seq<Event>)
    requires
        state.wf(),
        all_possible(state, events),
    ensures
        after_events(state, events).wf(),
        after_events(state, events).is_quantized() || after_events(state, events).is_saturated(),
        after_events(state, events).fixed_step == state.fixed_step,
        events.len() > 0 && events.last() is Frame ==> after_events(state, events).overstep
            <= MAX_OVERSTEP_STEPS * state.fixed_step,
    decreases events.len(),
{
    if events.len() > 0 {
        let before = after_events(state, events.drop_last());
        law_invariants_hold(state, events.drop_last());
        match events.last() {
            Event::Frame { wall_delta, steps } => {
                law_frame_quantized(before, wall_delta, steps);
                lemma_after_steps(before.accumulate(wall_delta), steps);
                law_overstep_bound(before.accumulate(wall_delta).after_steps(steps));
            },
            Event::Reset => {
                vstd::arithmetic::div_mod::lemma_small_mod(0, state.fixed_step);
            },
            _ => {},
        }
        assert(after_events(state, events) == events.last().apply(before));
    }
}

/// The overstep bound: clamping leaves at most three sub-steps' worth of
/// overstep, takes nothing from an overstep within that bound, and touches
/// nothing else.
pub proof fn law_overstep_bound(state: ClockState)
    requires
        state.wf(),
    ensures
        state.clamp().wf(),
        0 <= state.clamp().overstep <= MAX_OVERSTEP_STEPS * state.fixed_step,
        state.clamp().overstep <= state.overstep,
        state.overstep <= MAX_OVERSTEP_STEPS * state.fixed_step ==> state.clamp() == state,
        state.clamp().clamp() == state.clamp(),
        state.clamp().mode == state.mode,
        state.clamp().elapsed_total == state.elapsed_total,
{
}

/// Pause idempotence: pausing a paused clock changes nothing, pausing any
/// clock leaves its overstep and its elapsed time alone, and a paused clock
/// gives out no sub-step.
pub proof fn law_pause_idempotent(state: ClockState)
    requires
        state.wf(),
    ensures
        state.pause().wf(),
        state.pause().pause() == state.pause(),
        state.mode is Paused ==> state.pause() == state,
        state.pause().overstep == state.overstep,
        state.pause().elapsed_total == state.elapsed_total,
        !state.pause().can_consume(),
        state.pause().max_steps() == 0,
        state.pause().try_consume() == state.pause(),
{
}

/// One-tick exactness: after `step`, from whatever mode, the next frame has
/// exactly one sub-step to execute, and leaves the clock paused, with no
/// overstep and one sub-step more on its elapsed time.
pub proof fn law_one_tick_exact(state: ClockState, wall_delta: nat)
    requires
        state.wf(),
    ensures
        state.step().wf(),
        state.step().accumulate(wall_delta).max_steps() == 1,
        state.step().after_frame(wall_delta, 1).mode is Paused,
        state.step().after_frame(wall_delta, 1).overstep == 0,
        state.step().after_frame(wall_delta, 1).elapsed_total == saturate(
            state.elapsed_total + state.fixed_step,
        ),
        state.step().after_frame(wall_delta, 1).max_steps() == 0,
{
    assert(1 * state.fixed_step == state.fixed_step);
}

/// Resume restores the rate: a clock set running at `speed`, then paused,
/// then resumed, runs at `speed` again; stepping in between changes nothing
/// about that.
pub proof fn law_resume_restores_rate(state: ClockState, speed: Speed)
    requires
        state.wf(),
    ensures
        state.run(speed).pause().resume() == state.run(speed),
        state.run(speed).pause().resume().mode == (PhysicsTimeMode::Running { speed }),
        state.run(speed).step().resume().mode == (PhysicsTimeMode::Running { speed }),
        state.resume().mode == state.previous_running_mode,
        state.resume().wf(),
        state.mode is Running ==> state.resume() == state,
{
}

/// Backpressure: a frame of a running clock that gets only one sub-step done
/// keeps the rest of its accumulated virtual time for the next frame, up to
/// the bound of three sub-steps' worth.
pub proof fn law_backpressure_carries_debt(state: ClockState, wall_delta: nat)
    requires
        state.wf(),
        state.mode is Running,
        state.accumulate(wall_delta).max_steps() >= 1,
    ensures
        state.accumulate(wall_delta).overstep >= state.fixed_step,
        state.after_frame(wall_delta, 1).overstep == vstd::math::min(
            state.accumulate(wall_delta).overstep - state.fixed_step,
            MAX_OVERSTEP_STEPS * state.fixed_step,
        ),
        state.after_frame(wall_delta, 1).mode == state.mode,
{
    let fed = state.accumulate(wall_delta);
    lemma_after_steps(fed, 0);
    assert(1 * state.fixed_step == state.fixed_step);
}

/// Reset semantics: whatever state a clock was in, reset leaves it running
/// at normal speed with no overstep and no elapsed time.
pub proof fn law_reset(state: ClockState)
    requires
        0 < state.fixed_step <= u64::MAX,
    ensures
        state.reset().wf(),
        state.reset().elapsed_total == 0,
        state.reset().overstep == 0,
        state.reset().mode == PhysicsTimeMode::normal(),
        state.reset().previous_running_mode == PhysicsTimeMode::normal(),
        state.reset().fixed_step == state.fixed_step,
{
}

} // verus!
