//! A transition controller: it drives content through its mount, enter and
//! exit phases from a visibility signal and timer completions, and tells the
//! host which notification to emit and which timer to start at each step.

pub mod timeout;
pub mod transition;

pub use timeout::{Timeout, TimeoutModel};
pub use transition::{
    Effects, Tick, Timer, Transition, TransitionModel, TransitionState, TransitionStateComplete,
};
