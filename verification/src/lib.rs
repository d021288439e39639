//! A minimal serial-port diagnostic library.
//!
//! The library holds the verified core of a serial echo utility: the
//! per-iteration decisions of the echo/inject control loop, the shape of the
//! randomized colored bursts it injects, the injection timer's cadence, the
//! teardown plan for an optional pseudo-terminal helper, and the session
//! configuration. Device I/O, signal handling and process management are left
//! to the surrounding application, which drives the loop with these functions.

pub mod burst;
pub mod config;
pub mod provisioner;
pub mod report;
pub mod session;
pub mod timer;

use vstd::prelude::*;

verus! {

/// Milliseconds that must elapse since the last injection before a new
/// randomized burst is written to the serial device.
pub const INJECT_INTERVAL_MS: u64 = 2000;

} // verus!
