//! The fixed-point time unit shared by the whole crate.

use vstd::prelude::*;

verus! {

/// Number of ticks in one second. The rate is a multiple of both 240 and
/// 1000, so the 240 Hz base step and whole milliseconds are exact.
pub const TICKS_PER_SECOND: u64 = 240_000_000;

/// Number of ticks in one millisecond.
pub const TICKS_PER_MILLI: u64 = 240_000;

/// One step of the 240 Hz base rate.
pub const BASE_STEP: u64 = 1_000_000;

/// The 60 Hz frame interval that the strategies aim at by default.
pub const DEFAULT_TARGET_INTERVAL: u64 = 4_000_000;

/// A frame counts as healthy when its delta is closer than this (one
/// millisecond) to the target interval.
pub const GOOD_FRAME_TOLERANCE: u64 = 240_000;

/// The sum of two tick counts, held at the largest representable count.
pub open spec fn clamped_sum(a: int, b: int) -> int {
    if a + b > u64::MAX {
        u64::MAX as int
    } else {
        a + b
    }
}

/// Distance between two tick counts.
pub open spec fn distance(a: int, b: int) -> int {
    if a >= b {
        a - b
    } else {
        b - a
    }
}

} // verus!
