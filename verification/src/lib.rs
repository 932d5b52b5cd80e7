//! A fixed-timestep simulation clock: wall-clock time comes in frame by
//! frame, in whatever amounts the host delivers it, and goes out as whole
//! sub-steps of equal duration.

pub mod controls;
pub mod diagnostic;
pub mod laws;
pub mod mode;
pub mod runner;
pub mod state;
pub mod time;
