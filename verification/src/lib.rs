//! Core of a Pomodoro-style countdown timer.
//!
//! The library holds the timer state machine: interval durations, the
//! running/paused flags, and the arithmetic that derives remaining time,
//! a mm:ss display and a progress fraction from absolute timestamps.
//! Rendering and audio live outside the library and drive it by calling
//! `tick` once per frame.

pub mod laws;
pub mod timer;
