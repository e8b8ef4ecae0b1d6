//! The timer singleton.
//!
//! The compare-register programming and the interrupt handler live in the
//! surrounding program; this module holds the singleton accounting: the
//! instance may be taken exactly once for the process lifetime.

use vstd::prelude::*;

verus! {

/// Frequency of the low-frequency clock driving the RTC, in Hz.
pub const LFCLK_HZ: u64 = 32768;

/// The RTC ticks a duration of `secs` seconds plus `nanos` nanoseconds
/// spans, rounded down.
pub open spec fn ticks_spec(secs: int, nanos: int) -> int {
    secs * 32768 + (nanos * 32768) / 1_000_000_000
}

/// Converts a duration to RTC ticks.  The RTC counter is 24 bits wide, so
/// only durations under `2^24` ticks (about 512 seconds) can be waited for;
/// a longer one would trip an assertion on the target.
pub fn ticks_for(secs: u64, nanos: u32) -> (r: u32)
    requires
        nanos < 1_000_000_000,
        ticks_spec(secs as int, nanos as int) < 0x100_0000,
    ensures
        r == ticks_spec(secs as int, nanos as int),
{
    let t = secs * LFCLK_HZ + ((nanos as u64) * LFCLK_HZ) / 1_000_000_000;
    t as u32
}

/// [singleton] An `async`-aware timer.
pub struct Timer {
    _private: (),
}

impl Timer {
    /// Takes the singleton instance of this timer.  `taken` is the
    /// once-flag backing the claim; it starts `false` and never returns to
    /// it.  A second take would panic on the target, so the flag must still
    /// be clear.
    pub fn take(taken: &mut bool) -> (r: Timer)
        requires
            !*old(taken),
        ensures
            *final(taken),
    {
        *taken = true;
        Timer { _private: () }
    }
}

} // verus!
