//! The hardware watchdog: it restarts the machine unless it is written to in
//! time.

use vstd::prelude::*;

verus! {

/// Milliseconds that may safely pass after the watchdog was triggered.
pub const SAFE_TIMEOUT: u64 = 15_000;

/// The watchdog. It holds nothing: all it does is to be written to.
pub struct Watchdog {}

} // verus!
