//! A Pomodoro timer library: a verified countdown state machine that cycles
//! through focus and break phases, together with the formatting and layout
//! helpers a front end needs to draw each frame.

pub mod format;
pub mod layout;
pub mod timer;

