//! Figures the player shows: the clock, the progress gauge, the volume
//! gauge and the height of a spectrum bar on screen.

use vstd::prelude::*;

verus! {

/// Whole minutes and remaining seconds of a duration in seconds, as a clock
/// shows them (`mm:ss`).
pub fn clock_parts(secs: u64) -> (r: (u64, u64))
    ensures
        r.0 == secs / 60,
        r.1 == secs % 60,
        r.1 < 60,
{
    (secs / 60, secs % 60)
}

/// Percentage of the track played, rounded down and never over 100; zero
/// for a track shorter than a second.
pub open spec fn progress(elapsed_ms: int, total_ms: int) -> int {
    if total_ms < 1000 {
        0
    } else if elapsed_ms * 100 / total_ms > 100 {
        100
    } else {
        elapsed_ms * 100 / total_ms
    }
}

/// Percentage of the track played, as `progress` states.
pub fn progress_percent(elapsed_ms: u64, total_ms: u64) -> (r: u16)
    ensures
        r == progress(elapsed_ms as int, total_ms as int),
        r <= 100,
{
    if total_ms < 1000 {
        return 0;
    }
    if elapsed_ms > total_ms {
        assert((elapsed_ms as int) * 100 / (total_ms as int) >= 100) by (nonlinear_arith)
            requires
                elapsed_ms > total_ms,
                total_ms > 0,
        ;
        return 100;
    }
    let p: u128 = (elapsed_ms as u128) * 100 / (total_ms as u128);
    assert(p <= 100) by (nonlinear_arith)
        requires
            p as int == (elapsed_ms as int) * 100 / (total_ms as int),
            elapsed_ms <= total_ms,
            total_ms > 0,
    ;
    p as u16
}

/// A gain in thousandths as a whole percentage.
pub fn volume_percent(level: u32) -> (r: u32)
    ensures
        r == level / 10,
{
    level / 10
}

/// Rows of a screen area `height` rows high that a bar of `bar` thousandths
/// fills.
pub fn bar_rows(bar: u32, height: usize) -> (r: usize)
    ensures
        r == if (bar as int) * height / 1000 > height {
            height as int
        } else {
            (bar as int) * height / 1000
        },
        r <= height,
{
    assert((bar as int) * (height as int) <= 0xffff_ffff * 0xffff_ffff_ffff_ffff) by (nonlinear_arith)
        requires
            bar <= 0xffff_ffff,
            height <= 0xffff_ffff_ffff_ffff,
    ;
    let rows: u128 = (bar as u128) * (height as u128) / 1000;
    if rows > height as u128 {
        height
    } else {
        rows as usize
    }
}

} // verus!
