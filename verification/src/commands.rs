//! What the user interface asks of the timer and the settings, as functions
//! from the current state to the new state and what is to be shown.

pub mod settings;
pub mod timer;
