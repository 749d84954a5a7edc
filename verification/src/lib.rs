//! Verified core of a periodic pointer-button actuator for a windowing
//! server: timing derived from a repetition rate and duty cycle, button
//! selector parsing, run-state toggling, and the grab/rebind and actuation
//! decision logic of the two worker loops. All display I/O, threading and
//! presentation live outside this crate and consume these functions.

pub mod button;
pub mod generator;
pub mod runstate;
pub mod settings;
pub mod timing;
pub mod watcher;

use vstd::prelude::*;

verus! {

} // verus!
