//! Blocking delays at nanosecond, microsecond and millisecond granularity,
//! spun precisely by the host rather than by a hardware timer.

use vstd::prelude::*;

verus! {

/// Relies on spin_sleep::sleep: blocks the calling thread for at least the
/// given number of nanoseconds (native sleep, then spin).
#[verifier::external_body]
fn sleep_nanos(nanos: u64) {
    spin_sleep::sleep(core::time::Duration::from_nanos(nanos));
}

/// A blocking delay provider.
#[derive(Debug, Default)]
pub struct Delay;

impl Delay {
    /// Constructs a new delay provider.
    pub fn new() -> Delay {
        Delay {}
    }

    /// Blocks for at least `ns` nanoseconds.
    pub fn delay_ns(&mut self, ns: u32) {
        sleep_nanos(ns as u64);
    }

    /// Blocks for at least `us` microseconds.
    pub fn delay_us(&mut self, us: u32) {
        sleep_nanos((us as u64) * 1000);
    }

    /// Blocks for at least `ms` milliseconds.
    pub fn delay_ms(&mut self, ms: u32) {
        sleep_nanos((ms as u64) * 1000000);
    }
}

} // verus!
