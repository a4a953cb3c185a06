//! A countdown timer: a clock that survives pause and resume without drift, and a session
//! state machine that maps keystrokes to clock actions and signals completion once.
pub mod clock;
pub mod input;
pub mod session;
