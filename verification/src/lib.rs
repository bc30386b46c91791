//! A countdown timer for the Pomodoro technique: alternating work and break
//! intervals, with pause and resume, and the text of a large clock face.
//!
//! The timer is a state machine over an explicit clock reading. Its
//! transition function and its remaining-time query are stated once as
//! mathematical functions, and the executable code is proved to compute them.

pub mod clock;
pub mod laws;
pub mod shell;
pub mod span;
pub mod timer;
pub mod visuals;
