//! Launches a configured list of desktop applications and repositions their
//! top-level windows onto specific monitors and screen halves.
//!
//! The crate holds the decision core of that pipeline: monitor-slot
//! resolution, the left/right placement calculator, window-title matching,
//! configuration validation, the per-application launch state machine, and
//! the state of the graphical front-end. The platform calls that surround it
//! (process launch, display and window enumeration, window positioning) are
//! left to the binary that embeds the crate.

pub mod config;
pub mod gui;
pub mod launcher;
pub mod monitor;
pub mod strings;
pub mod window;
