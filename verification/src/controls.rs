//! The control surface: which button stands for the clock's mode, what
//! pressing a button does to the clock, and the clock face.

use vstd::prelude::*;
use crate::mode::{PhysicsTimeMode, Speed, NORMAL_SPEED};
use crate::state::ClockState;
use crate::time::{PhysicsTime, PhysicsTimeExt};

verus! {

/// The buttons of the control surface.
#[derive(Clone, Copy, Debug, PartialEq, Eq, Structural)]
pub enum ControlButton {
    Restart,
    Pause,
    Step,
    Play,
    FastForward,
}

/// The button that stands for `mode`. Any speed but the normal one counts as
/// fast-forward.
pub open spec fn button_of(mode: PhysicsTimeMode) -> ControlButton {
    match mode {
        PhysicsTimeMode::Paused => ControlButton::Pause,
        PhysicsTimeMode::OneTick => ControlButton::Step,
        PhysicsTimeMode::Running { speed } => if speed == Speed::Permille(NORMAL_SPEED) {
            ControlButton::Play
        } else {
            ControlButton::FastForward
        },
    }
}

/// The clock after `button` was pressed. `Pause` toggles between pausing and
/// resuming. `Play` and `FastForward` start their speed, or pause a clock
/// that runs at it already. `Restart` pauses; putting the scene back is the
/// host's part.
pub open spec fn pressed(state: ClockState, button: ControlButton) -> ClockState {
    match button {
        ControlButton::Restart => state.pause(),
        ControlButton::Pause => if state.mode is Paused {
            state.resume()
        } else {
            state.pause()
        },
        ControlButton::Step => state.step(),
        ControlButton::Play => if state.mode == PhysicsTimeMode::normal() {
            state.pause()
        } else {
            state.run(Speed::Permille(NORMAL_SPEED))
        },
        ControlButton::FastForward => if state.mode == (PhysicsTimeMode::Running {
            speed: Speed::Unbounded,
        }) {
            state.pause()
        } else {
            state.run(Speed::Unbounded)
        },
    }
}

/// The button to light up for `mode`.
pub fn active_button(mode: PhysicsTimeMode) -> (button: ControlButton)
    ensures
        button == button_of(mode),
{
    match mode {
        PhysicsTimeMode::Paused => ControlButton::Pause,
        PhysicsTimeMode::OneTick => ControlButton::Step,
        PhysicsTimeMode::Running { speed: Speed::Permille(permille) } => {
            if permille == NORMAL_SPEED {
                ControlButton::Play
            } else {
                ControlButton::FastForward
            }
        },
        PhysicsTimeMode::Running { speed: Speed::Unbounded } => ControlButton::FastForward,
    }
}

/// Presses `button`, and says whether the host is to restart the scene.
pub fn press(time: &mut PhysicsTime, button: ControlButton) -> (restart: bool)
    ensures
        final(time)@ == pressed(old(time)@, button),
        final(time)@.wf(),
        restart == (button is Restart),
{
    let mode = time.context().mode;
    match button {
        ControlButton::Restart => {
            time.pause();
            true
        },
        ControlButton::Pause => {
            if mode == PhysicsTimeMode::Paused {
                time.resume();
            } else {
                time.pause();
            }
            false
        },
        ControlButton::Step => {
            time.step();
            false
        },
        ControlButton::Play => {
            if mode == (PhysicsTimeMode::Running { speed: Speed::Permille(NORMAL_SPEED) }) {
                time.pause();
            } else {
                time.run(Speed::Permille(NORMAL_SPEED));
            }
            false
        },
        ControlButton::FastForward => {
            if mode == (PhysicsTimeMode::Running { speed: Speed::Unbounded }) {
                time.pause();
            } else {
                time.run(Speed::Unbounded);
            }
            false
        },
    }
}

/// An elapsed time as a clock shows it.
#[derive(Clone, Copy, Debug, PartialEq, Eq, Structural)]
pub struct ClockFace {
    pub hours: u64,
    pub minutes: u64,
    pub seconds: u64,
    pub millis: u64,
}

impl ClockFace {
    /// The face for `elapsed` nanoseconds: whole hours, then the minutes,
    /// seconds and milliseconds into the hour, minute and second.
    pub fn of(elapsed: u64) -> (face: ClockFace)
        ensures
            face.hours == (elapsed / 1_000_000_000) / 3600,
            face.minutes == ((elapsed / 1_000_000_000) % 3600) / 60,
            face.seconds == (elapsed / 1_000_000_000) % 60,
            face.millis == (elapsed % 1_000_000_000) / 1_000_000,
            face.minutes < 60,
            face.seconds < 60,
            face.millis < 1000,
    {
        let secs: u64 = elapsed / 1_000_000_000;
        ClockFace {
            hours: secs / 3600,
            minutes: (secs % 3600) / 60,
            seconds: secs % 60,
            millis: (elapsed % 1_000_000_000) / 1_000_000,
        }
    }
}

} // verus!
