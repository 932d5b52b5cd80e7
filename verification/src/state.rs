//! The mathematical model of the simulation clock: its state as plain
//! values, and every operation as a function from state to state.
//!
//! Durations are natural numbers of nanoseconds. The executable clock keeps
//! them in 64 bits and saturates, so the model saturates at `u64::MAX` too.

use vstd::prelude::*;
use crate::mode::{PhysicsTimeMode, Speed};

verus! {

/// How many sub-steps' worth of unspent virtual time a frame may leave
/// behind.
pub const MAX_OVERSTEP_STEPS: u64 = 3;

/// `n`, cut off at the largest duration the clock can hold.
pub open spec fn saturate(n: nat) -> nat {
    if n > u64::MAX {
        u64::MAX as nat
    } else {
        n
    }
}

/// The state of a simulation clock.
pub struct ClockState {
    /// The current operating mode.
    pub mode: PhysicsTimeMode,
    /// The `Running` mode entered last, which `resume` goes back to.
    pub previous_running_mode: PhysicsTimeMode,
    /// The duration of one sub-step.
    pub fixed_step: nat,
    /// Virtual time accumulated and not yet spent on sub-steps.
    pub overstep: nat,
    /// The virtual time of all sub-steps executed so far.
    pub elapsed_total: nat,
}

impl ClockState {
    /// Whether the elapsed time stopped at the largest duration the clock
    /// can hold.
    pub open spec fn is_saturated(self) -> bool {
        self.elapsed_total == u64::MAX
    }

    /// Whether the elapsed time is a whole number of sub-steps.
    pub open spec fn is_quantized(self) -> bool {
        self.elapsed_total % self.fixed_step == 0
    }

    /// What holds of every clock, whatever was done to it.
    pub open spec fn wf(self) -> bool {
        &&& 0 < self.fixed_step <= u64::MAX
        &&& self.overstep <= u64::MAX
        &&& self.elapsed_total <= u64::MAX
        &&& self.previous_running_mode is Running
        &&& (self.mode is Running ==> self.previous_running_mode == self.mode)
        &&& (self.is_quantized() || self.is_saturated())
    }

    /// A fresh clock: running at normal speed, with nothing accumulated and
    /// nothing elapsed.
    pub open spec fn initial(fixed_step: nat) -> ClockState {
        ClockState {
            mode: PhysicsTimeMode::normal(),
            previous_running_mode: PhysicsTimeMode::normal(),
            fixed_step,
            overstep: 0,
            elapsed_total: 0,
        }
    }

    /// The clock put back to its fresh state; its sub-step duration stays.
    pub open spec fn reset(self) -> ClockState {
        ClockState::initial(self.fixed_step)
    }

    /// The clock switched to `mode`. Only a `Running` mode is remembered as
    /// the one to resume.
    pub open spec fn set_mode(self, mode: PhysicsTimeMode) -> ClockState {
        ClockState {
            mode,
            previous_running_mode: if mode is Running {
                mode
            } else {
                self.previous_running_mode
            },
            ..self
        }
    }

    pub open spec fn pause(self) -> ClockState {
        self.set_mode(PhysicsTimeMode::Paused)
    }

    pub open spec fn resume(self) -> ClockState {
        self.set_mode(self.previous_running_mode)
    }

    pub open spec fn step(self) -> ClockState {
        self.set_mode(PhysicsTimeMode::OneTick)
    }

    pub open spec fn run(self, speed: Speed) -> ClockState {
        self.set_mode(PhysicsTimeMode::Running { speed })
    }

    /// The clock after `wall_delta` nanoseconds of wall-clock time went by.
    /// Only a running clock accumulates: a finite speed adds the scaled
    /// delta, fast-forward fills the overstep to the brim.
    pub open spec fn accumulate(self, wall_delta: nat) -> ClockState {
        match self.mode {
            PhysicsTimeMode::Running { speed: Speed::Permille(permille) } => ClockState {
                overstep: saturate(self.overstep + Speed::scaled(wall_delta, permille as nat)),
                ..self
            },
            PhysicsTimeMode::Running { speed: Speed::Unbounded } => ClockState {
                overstep: u64::MAX as nat,
                ..self
            },
            _ => self,
        }
    }

    /// How many sub-steps in a row the clock can give out before it needs
    /// more wall-clock time.
    pub open spec fn max_steps(self) -> nat {
        match self.mode {
            PhysicsTimeMode::Paused => 0,
            PhysicsTimeMode::OneTick => 1,
            PhysicsTimeMode::Running { .. } => self.overstep / self.fixed_step,
        }
    }

    /// Whether the clock has a sub-step to give out.
    pub open spec fn can_consume(self) -> bool {
        match self.mode {
            PhysicsTimeMode::Paused => false,
            PhysicsTimeMode::OneTick => true,
            PhysicsTimeMode::Running { .. } => self.overstep >= self.fixed_step,
        }
    }

    /// The clock after it gave out `steps` sub-steps, for `steps` up to
    /// `max_steps()`. Each sub-step moves the elapsed time on by exactly one
    /// `fixed_step`. A running clock pays for it out of its overstep; a
    /// one-tick clock pauses and drops whatever overstep it had.
    pub open spec fn after_steps(self, steps: nat) -> ClockState {
        if steps == 0 {
            self
        } else {
            match self.mode {
                PhysicsTimeMode::Paused => self,
                PhysicsTimeMode::OneTick => ClockState {
                    mode: PhysicsTimeMode::Paused,
                    overstep: 0,
                    elapsed_total: saturate(self.elapsed_total + steps * self.fixed_step),
                    ..self
                },
                PhysicsTimeMode::Running { .. } => ClockState {
                    overstep: (self.overstep - steps * self.fixed_step) as nat,
                    elapsed_total: saturate(self.elapsed_total + steps * self.fixed_step),
                    ..self
                },
            }
        }
    }

    /// The clock after one attempt to take a sub-step out of it.
    pub open spec fn try_consume(self) -> ClockState {
        if self.can_consume() {
            self.after_steps(1)
        } else {
            self
        }
    }

    /// The most overstep a frame may carry over into the next one.
    pub open spec fn overstep_cap(self) -> nat {
        saturate(MAX_OVERSTEP_STEPS as nat * self.fixed_step)
    }

    /// The clock at the end of a frame: overstep beyond the cap is dropped.
    pub open spec fn clamp(self) -> ClockState {
        ClockState {
            overstep: if self.overstep <= self.overstep_cap() {
                self.overstep
            } else {
                self.overstep_cap()
            },
            ..self
        }
    }

    /// The clock at the end of a frame that got `wall_delta` nanoseconds of
    /// wall-clock time and executed `steps` sub-steps.
    pub open spec fn after_frame(self, wall_delta: nat, steps: nat) -> ClockState {
        self.accumulate(wall_delta).after_steps(steps).clamp()
    }
}

/// Sub-steps add up: a clock that gave out `steps` sub-steps is a clock like
/// any other, it has one more to give exactly while `steps` is short of
/// `max_steps()`, and giving that one out leaves it where `steps + 1`
/// sub-steps in a row would have.
pub proof fn lemma_after_steps(state: ClockState, steps: nat)
    requires
        state.wf(),
        steps <= state.max_steps(),
    ensures
        state.max_steps() <= u64::MAX,
        state.after_steps(steps).wf(),
        state.after_steps(steps).can_consume() <==> steps < state.max_steps(),
        steps < state.max_steps() ==> state.after_steps(steps).try_consume() == state.after_steps(
            steps + 1,
        ),
        state.after_steps(steps).max_steps() == state.max_steps() - steps,
{
    let step = state.fixed_step as int;
    let over = state.overstep as int;
    let elapsed = state.elapsed_total as int;
    let k = steps as int;
    vstd::arithmetic::div_mod::lemma_fundamental_div_mod(over, step);
    vstd::arithmetic::div_mod::lemma_mod_bound(over, step);
    vstd::arithmetic::div_mod::lemma_div_pos_is_pos(over, step);
    assert(step * (over / step) <= over);
    assert(over / step <= over) by (nonlinear_arith)
        requires
            step >= 1,
            over / step >= 0,
            step * (over / step) <= over,
    ;
    assert((k + 1) * step == k * step + step) by (nonlinear_arith);
    assert(1 * step == step);
    assert(k * step >= 0) by (nonlinear_arith)
        requires
            k >= 0,
            step > 0,
    ;
    vstd::arithmetic::div_mod::lemma_mod_multiples_vanish(k, elapsed, step);
    assert(step * k == k * step) by (nonlinear_arith);
    if state.mode is Running {
        assert(k * step <= over) by (nonlinear_arith)
            requires
                0 <= k <= over / step,
                step > 0,
                step * (over / step) <= over,
        ;
        let rest = over - k * step;
        assert(rest / step == over / step - k) by {
            assert((over / step - k) * step == step * (over / step) - k * step)
                by (nonlinear_arith);
            vstd::arithmetic::div_mod::lemma_fundamental_div_mod_converse(
                rest,
                step,
                over / step - k,
                over % step,
            );
        }
        assert(rest >= step <==> k < over / step) by {
            vstd::arithmetic::div_mod::lemma_fundamental_div_mod(rest, step);
            vstd::arithmetic::div_mod::lemma_mod_bound(rest, step);
            assert(rest / step >= 1 ==> step * (rest / step) >= step) by (nonlinear_arith)
                requires
                    step > 0,
            ;
            assert(rest / step <= 0 ==> step * (rest / step) <= 0) by (nonlinear_arith)
                requires
                    step > 0,
            ;
        }
    }
}

} // verus!
