//! Operating modes of the simulation clock.

use vstd::prelude::*;

verus! {

/// The speed, in thousandths of the wall-clock rate, at which virtual time
/// keeps pace with real time.
pub const NORMAL_SPEED: u32 = 1000;

/// How fast virtual time accumulates while the clock is running.
#[derive(Clone, Copy, Debug, PartialEq, Eq, Structural)]
pub enum Speed {
    /// Virtual time accumulates at `permille / 1000` times the wall-clock
    /// rate.
    Permille(u32),
    /// Fast-forward: every frame runs as many sub-steps as its execution
    /// budget allows, whatever wall-clock time has passed.
    Unbounded,
}

/// The mode the simulation clock is in.
#[derive(Clone, Copy, Debug, PartialEq, Eq, Structural)]
pub enum PhysicsTimeMode {
    /// No virtual time accumulates and no sub-step runs.
    Paused,
    /// Exactly one sub-step is owed; consuming it pauses the clock.
    OneTick,
    /// Virtual time accumulates at `speed`.
    Running { speed: Speed },
}

impl Speed {
    /// The virtual time that `wall_delta` nanoseconds of wall-clock time are
    /// worth at `permille` thousandths of the wall-clock rate, rounded down.
    pub open spec fn scaled(wall_delta: nat, permille: nat) -> nat {
        wall_delta * permille / 1000
    }

    /// Scales a wall-clock delta by a finite speed.
    pub fn scale(wall_delta: u64, permille: u32) -> (virtual_delta: u128)
        ensures
            virtual_delta == Speed::scaled(wall_delta as nat, permille as nat),
            virtual_delta <= 0xffff_ffff_ffff_ffff * 0xffff_ffff,
    {
        assert(wall_delta * permille <= 0xffff_ffff_ffff_ffff * 0xffff_ffff) by (nonlinear_arith)
            requires
                wall_delta <= 0xffff_ffff_ffff_ffff,
                permille <= 0xffff_ffff,
        ;
        (wall_delta as u128) * (permille as u128) / 1000
    }
}

impl PhysicsTimeMode {
    /// The mode of a clock that runs at normal speed.
    pub open spec fn normal() -> PhysicsTimeMode {
        PhysicsTimeMode::Running { speed: Speed::Permille(NORMAL_SPEED) }
    }

    /// Whether this is one of the `Running` modes.
    pub fn is_running(&self) -> (running: bool)
        ensures
            running == (*self is Running),
    {
        match self {
            PhysicsTimeMode::Running { .. } => true,
            _ => false,
        }
    }
}

impl Default for PhysicsTimeMode {
    /// A clock starts out running at normal speed.
    fn default() -> (mode: PhysicsTimeMode)
        ensures
            mode == PhysicsTimeMode::normal(),
    {
        PhysicsTimeMode::Running { speed: Speed::Permille(NORMAL_SPEED) }
    }
}

} // verus!
