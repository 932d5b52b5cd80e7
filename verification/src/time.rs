//! The simulation clock.

use vstd::prelude::*;
use crate::mode::{PhysicsTimeMode, Speed};
use crate::state::{ClockState, MAX_OVERSTEP_STEPS};

verus! {

/// The duration of one sub-step, in nanoseconds, unless a clock is made with
/// another: 15.625 ms, which is 64 sub-steps a second.
pub const DEFAULT_TIMESTEP: u64 = 15_625_000;

/// The mode-dependent part of the clock.
#[derive(Clone, Copy, Debug)]
pub struct PhysicsTimeInner {
    /// The current operating mode.
    pub mode: PhysicsTimeMode,
    /// The `Running` mode entered last.
    pub old_mode: PhysicsTimeMode,
    /// The duration of one sub-step, in nanoseconds.
    pub timestep: u64,
    /// Virtual time accumulated and not yet spent, in nanoseconds.
    pub overstep: u64,
}

impl PhysicsTimeInner {
    /// Switches to `mode`. A `Running` mode is also remembered as the one to
    /// resume after a pause; `Paused` and `OneTick` leave that memory alone.
    pub fn set_mode(&mut self, mode: PhysicsTimeMode)
        ensures
            final(self).mode == mode,
            final(self).old_mode == if mode is Running {
                mode
            } else {
                old(self).old_mode
            },
            final(self).timestep == old(self).timestep,
            final(self).overstep == old(self).overstep,
    {
        if mode.is_running() {
            self.old_mode = mode;
        }
        self.mode = mode;
    }
}

impl Default for PhysicsTimeInner {
    fn default() -> (inner: PhysicsTimeInner)
        ensures
            inner.mode == PhysicsTimeMode::normal(),
            inner.old_mode == PhysicsTimeMode::normal(),
            inner.timestep == DEFAULT_TIMESTEP,
            inner.overstep == 0,
    {
        PhysicsTimeInner {
            mode: PhysicsTimeMode::default(),
            old_mode: PhysicsTimeMode::default(),
            timestep: DEFAULT_TIMESTEP,
            overstep: 0,
        }
    }
}

/// A fixed-timestep simulation clock. It turns wall-clock time into whole
/// sub-steps of virtual time, and keeps count of the virtual time that the
/// executed sub-steps add up to.
#[derive(Clone, Copy, Debug)]
pub struct PhysicsTime {
    context: PhysicsTimeInner,
    elapsed: u64,
}

impl View for PhysicsTime {
    type V = ClockState;

    closed spec fn view(&self) -> ClockState {
        ClockState {
            mode: self.context.mode,
            previous_running_mode: self.context.old_mode,
            fixed_step: self.context.timestep as nat,
            overstep: self.context.overstep as nat,
            elapsed_total: self.elapsed as nat,
        }
    }
}

impl PhysicsTime {
    #[verifier::type_invariant]
    spec fn well_formed(&self) -> bool {
        self@.wf()
    }

    /// A fresh clock whose sub-steps last `timestep` nanoseconds. There is no
    /// clock with sub-steps of no duration.
    pub fn with_timestep(timestep: u64) -> (time: Option<PhysicsTime>)
        ensures
            timestep == 0 <==> time is None,
            time matches Some(t) ==> t@ == ClockState::initial(timestep as nat) && t@.wf(),
    {
        if timestep == 0 {
            None
        } else {
            let mode = PhysicsTimeMode::default();
            Some(
                PhysicsTime {
                    context: PhysicsTimeInner { mode, old_mode: mode, timestep, overstep: 0 },
                    elapsed: 0,
                },
            )
        }
    }

    /// The mode-dependent part of the clock.
    pub fn context(&self) -> (context: &PhysicsTimeInner)
        ensures
            context.mode == self@.mode,
            context.old_mode == self@.previous_running_mode,
            context.timestep == self@.fixed_step,
            context.overstep == self@.overstep,
    {
        &self.context
    }

    /// The virtual time of all sub-steps executed so far, in nanoseconds.
    pub fn elapsed(&self) -> (elapsed: u64)
        ensures
            elapsed == self@.elapsed_total,
            self@.wf(),
    {
        proof {
            use_type_invariant(self);
        }
        self.elapsed
    }

    /// Puts the clock back to its fresh state: running at normal speed, with
    /// nothing accumulated and nothing elapsed.
    pub fn reset(&mut self)
        ensures
            final(self)@ == old(self)@.reset(),
            final(self)@.wf(),
    {
        proof {
            use_type_invariant(&*self);
        }
        let mode = PhysicsTimeMode::default();
        self.context = PhysicsTimeInner {
            mode,
            old_mode: mode,
            timestep: self.context.timestep,
            overstep: 0,
        };
        self.elapsed = 0;
    }

    /// Switches the clock to `mode`, as `PhysicsTimeInner::set_mode` does.
    /// Accumulated and elapsed time stay as they are.
    pub fn set_mode(&mut self, mode: PhysicsTimeMode)
        ensures
            final(self)@ == old(self)@.set_mode(mode),
            final(self)@.wf(),
    {
        proof {
            use_type_invariant(&*self);
        }
        let mut context = self.context;
        context.set_mode(mode);
        self.context = context;
    }

    /// Takes in `wall_delta` nanoseconds of wall-clock time. A running clock
    /// adds them, scaled by its speed, to its overstep, which saturates;
    /// fast-forward fills the overstep to the brim. A paused clock and a
    /// one-tick clock let the time pass.
    pub fn accumulate(&mut self, wall_delta: u64)
        ensures
            final(self)@ == old(self)@.accumulate(wall_delta as nat),
            final(self)@.wf(),
    {
        proof {
            use_type_invariant(&*self);
        }
        match self.context.mode {
            PhysicsTimeMode::Running { speed: Speed::Permille(permille) } => {
                let sum: u128 = self.context.overstep as u128 + Speed::scale(wall_delta, permille);
                self.context.overstep = if sum > u64::MAX as u128 {
                    u64::MAX
                } else {
                    sum as u64
                };
            },
            PhysicsTimeMode::Running { speed: Speed::Unbounded } => {
                self.context.overstep = u64::MAX;
            },
            _ => {},
        }
    }

    /// Tries to take one sub-step out of the clock, and says whether the
    /// caller now owes the simulation one step.
    ///
    /// A paused clock gives none. A one-tick clock gives its one, pauses, and
    /// drops whatever overstep it had. A running clock gives one if it has a
    /// whole `timestep` of overstep, and pays for it out of that. Every
    /// sub-step given out moves the elapsed time on by one `timestep`.
    pub fn try_consume_step(&mut self) -> (consumed: bool)
        ensures
            consumed == old(self)@.can_consume(),
            final(self)@ == old(self)@.try_consume(),
            final(self)@.wf(),
    {
        proof {
            use_type_invariant(&*self);
        }
        let consumed = match self.context.mode {
            PhysicsTimeMode::Paused => false,
            PhysicsTimeMode::OneTick => {
                self.context.mode = PhysicsTimeMode::Paused;
                self.context.overstep = 0;
                true
            },
            PhysicsTimeMode::Running { .. } => {
                match self.context.overstep.checked_sub(self.context.timestep) {
                    Some(rest) => {
                        self.context.overstep = rest;
                        true
                    },
                    None => false,
                }
            },
        };
        if consumed {
            proof {
                lemma_one_more_step(self.elapsed as nat, self.context.timestep as nat);
            }
            self.elapsed = self.elapsed.saturating_add(self.context.timestep);
        }
        consumed
    }

    /// Ends a frame: drops whatever overstep exceeds three sub-steps, so that
    /// a stall is never caught up on at length.
    pub fn clamp_overstep(&mut self)
        ensures
            final(self)@ == old(self)@.clamp(),
            final(self)@.overstep <= MAX_OVERSTEP_STEPS * final(self)@.fixed_step,
            final(self)@.wf(),
    {
        proof {
            use_type_invariant(&*self);
        }
        let cap = match self.context.timestep.checked_mul(MAX_OVERSTEP_STEPS) {
            Some(cap) => cap,
            None => u64::MAX,
        };
        if self.context.overstep > cap {
            self.context.overstep = cap;
        }
    }
}

impl Default for PhysicsTime {
    /// A fresh clock with sub-steps of `DEFAULT_TIMESTEP`.
    fn default() -> (time: PhysicsTime)
        ensures
            time@ == ClockState::initial(DEFAULT_TIMESTEP as nat),
            time@.wf(),
    {
        PhysicsTime { context: PhysicsTimeInner::default(), elapsed: 0 }
    }
}

/// The commands that change the clock's mode.
pub trait PhysicsTimeExt {
    /// Any mode to `Paused`.
    fn pause(&mut self);

    /// Back to the `Running` mode entered last.
    fn resume(&mut self);

    /// Any mode to `OneTick`.
    fn step(&mut self);

    /// Any mode to `Running` at `speed`.
    fn run(&mut self, speed: Speed);
}

impl PhysicsTimeExt for PhysicsTime {
    fn pause(&mut self)
        ensures
            final(self)@ == old(self)@.pause(),
            final(self)@.wf(),
    {
        self.set_mode(PhysicsTimeMode::Paused);
    }

    fn resume(&mut self)
        ensures
            final(self)@ == old(self)@.resume(),
            final(self)@.wf(),
    {
        let old_mode = self.context.old_mode;
        self.set_mode(old_mode);
    }

    fn step(&mut self)
        ensures
            final(self)@ == old(self)@.step(),
            final(self)@.wf(),
    {
        self.set_mode(PhysicsTimeMode::OneTick);
    }

    fn run(&mut self, speed: Speed)
        ensures
            final(self)@ == old(self)@.run(speed),
            final(self)@.wf(),
    {
        self.set_mode(PhysicsTimeMode::Running { speed });
    }
}

/// One more sub-step keeps a whole number of sub-steps whole.
proof fn lemma_one_more_step(elapsed: nat, timestep: nat)
    requires
        timestep > 0,
    ensures
        elapsed % timestep == 0 ==> (elapsed + timestep) % timestep == 0,
        elapsed + 1 * timestep == elapsed + timestep,
{
    vstd::arithmetic::div_mod::lemma_mod_add_multiples_vanish(elapsed as int, timestep as int);
}

} // verus!
