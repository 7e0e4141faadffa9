//! Core logic of a Pomodoro timer: the work/relax cycle, the settings and the
//! payloads exchanged with the user interface, and a pausable countdown timer.
//!
//! Every duration in this crate is a whole number of nanoseconds held in a `u64`.

pub mod clock;
pub mod state;
pub mod timer;
pub mod commands;
pub mod listener;
pub mod tray;
