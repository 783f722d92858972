//! Core of a command-line pomodoro timer: the binary beep encoder, the
//! per-second round timer with its warning cue and pause handling, and the
//! session cadence that alternates work rounds with short and long breaks.
//!
//! Everything here is pure logic over plain values; playing tones, drawing
//! the progress bar and reading the keyboard are left to the surrounding
//! program, which drives these state machines and performs the actions they
//! return.

pub mod beep;
pub mod session;
pub mod timer;
