use vstd::prelude::*;

verus! {

/// Largest distance, in microseconds, between the time a note is due and the
/// time it is captured at which the capture still counts.
pub const MISS_THR: i64 = 100_000;

/// Whether `elapsed` microseconds are strictly more than `millibeats`
/// thousandths of a beat at a tempo of `bpm` thousandths of a beat per
/// minute. A beat lasts 60 000 000 000 / `bpm` microseconds; the two sides
/// are compared multiplied out, so nothing is rounded. At tempo zero a beat
/// never ends, and nothing is longer.
pub open spec fn longer_than_beats(elapsed: int, millibeats: int, bpm: int) -> bool {
    elapsed * bpm > millibeats * 60_000_000
}

/// Decides [`longer_than_beats`] for any difference of two clock readings.
pub(crate) fn exceeds_beats(elapsed: i128, millibeats: u32, bpm: u32) -> (r: bool)
    requires
        -0x1_0000_0000_0000_0000_0000 < elapsed < 0x1_0000_0000_0000_0000_0000,
    ensures
        r == longer_than_beats(elapsed as int, millibeats as int, bpm as int),
{
    let b: i128 = bpm as i128;
    let m: i128 = millibeats as i128;
    assert(-0x1_0000_0000_0000_0000_0000_0000_0000 < elapsed * b
        < 0x1_0000_0000_0000_0000_0000_0000_0000) by (nonlinear_arith)
        requires
            -0x1_0000_0000_0000_0000_0000 < elapsed < 0x1_0000_0000_0000_0000_0000,
            0 <= b < 0x1_0000_0000,
    ;
    assert(0 <= m * 60_000_000 < 0x1_0000_0000_0000_0000) by (nonlinear_arith)
        requires
            0 <= m < 0x1_0000_0000,
    ;
    elapsed * b > m * 60_000_000
}

} // verus!
