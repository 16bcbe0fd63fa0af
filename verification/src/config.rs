//! Timing configuration of the surrounding event loop.

use vstd::prelude::*;

verus! {

/// One millisecond, in nanoseconds.
pub const NANOS_PER_MILLI: u64 = 1_000_000;

/// How often the screen is redrawn and how often the player is ticked.
/// Both spans are in nanoseconds.
pub struct Config {
    pub refresh_rate: u64,
    pub tick_gap: u64,
}

impl Config {
    /// Redraw every 50 ms, tick every 100 ms.
    pub open spec fn spec_default() -> Config {
        Config { refresh_rate: 50_000_000, tick_gap: 100_000_000 }
    }

    /// Redraw every 50 ms, tick every 100 ms.
    #[verifier::when_used_as_spec(spec_default)]
    pub fn default() -> (c: Self)
        ensures
            c == Config::spec_default(),
            c.refresh_rate == 50 * NANOS_PER_MILLI,
            c.tick_gap == 100 * NANOS_PER_MILLI,
    {
        Config { refresh_rate: 50 * NANOS_PER_MILLI, tick_gap: 100 * NANOS_PER_MILLI }
    }
}

} // verus!
