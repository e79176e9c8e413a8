//! Protocol-level facts that relate the engine's contracts to each other.

use vstd::prelude::*;
use crate::engine::{sample_tick, scan_duration_ticks};

verus! {

/// Channels are sampled in strictly increasing tick order: within one
/// scan, a channel with a higher index is always sampled later. Together
/// with the frame contract of `ScanEngine::scan` — bit `i` holds the
/// level read at `sample_tick(start, half_period, i)` — this fixes the
/// bit ordering: channel 0, sampled first, is bit 0 of the frame.
pub proof fn lemma_samples_strictly_ordered(start: int, half_period: int, i: int, j: int)
    requires
        half_period >= 1,
        0 <= i < j < 16,
    ensures
        sample_tick(start, half_period, i) < sample_tick(start, half_period, j),
{
    assert((2 * i + 1) * half_period < (2 * j + 1) * half_period) by (nonlinear_arith)
        requires
            half_period >= 1,
            i < j,
    ;
}

/// Every sample of a scan falls inside its clocking phase: strictly
/// between the scan's first tick and the tick its sixteenth clock period
/// ends, `start + 32 * half_period`, after which only the quiet wait runs.
pub proof fn lemma_samples_within_clocking(start: int, half_period: int, i: int)
    requires
        half_period >= 1,
        0 <= i < 16,
    ensures
        start < sample_tick(start, half_period, i) < start + 32 * half_period,
{
    assert(0 < (2 * i + 1) * half_period < 32 * half_period) by (nonlinear_arith)
        requires
            half_period >= 1,
            0 <= i < 16,
    ;
}

/// The quiet interval is never silently shortened. `ScanEngine::scan`
/// returns only at `start + scan_duration_ticks(..)`, with the clocking
/// of its frame already over at `start + 32 * half_period`; the tick
/// source is monotonic, so a second call — which clocks nothing before
/// the tick it starts at — begins at least `quiet_period` ticks after
/// the first frame's clocking ended.
pub proof fn lemma_quiet_period_separates_scans(
    half_period: int,
    quiet_period: int,
    start: int,
    next_start: int,
)
    requires
        next_start >= start + scan_duration_ticks(half_period, quiet_period),
    ensures
        next_start - (start + 32 * half_period) >= quiet_period,
{
}

} // verus!
