//! Beat period, phase and the "on time" window.
use vstd::prelude::*;

verus! {

/// Milliseconds in one minute.
pub const MS_PER_MINUTE: u32 = 60_000;

/// The phase is never reported above this many milliseconds.
pub const PHASE_CAP_MS: u32 = 10_000;

/// Microseconds in one millisecond.
pub const US_PER_MS: u64 = 1_000;

/// Length of one beat in whole milliseconds.
pub open spec fn period_spec(target_bpm: int) -> int {
    60_000int / target_bpm
}

/// Whole milliseconds from `reference_us` to `now_us`, zero when `now_us` is
/// not later, and never above the cap.
pub open spec fn phase_spec(now_us: int, reference_us: int) -> int {
    if now_us <= reference_us {
        0
    } else if (now_us - reference_us) / 1_000 > 10_000 {
        10_000
    } else {
        (now_us - reference_us) / 1_000
    }
}

/// The window centre lies half a tolerance before the beat boundary.
pub open spec fn window_centre(period: int, tolerance: int) -> int {
    period - tolerance / 2
}

pub open spec fn on_time_spec(phase: int, period: int, tolerance: int) -> bool {
    let d = phase - window_centre(period, tolerance);
    (if d >= 0 { d } else { -d }) < tolerance
}

pub open spec fn cue_offset_spec(phase: int, period: int, base_offset: int) -> int {
    period - phase + base_offset
}

/// Ideal beat length in milliseconds for `target_bpm` beats per minute,
/// rounded down.
pub fn period_ms(target_bpm: u32) -> (r: u32)
    requires
        target_bpm > 0,
    ensures
        r == period_spec(target_bpm as int),
{
    MS_PER_MINUTE / target_bpm
}

/// Milliseconds elapsed from `reference_us` to `now_us`, clamped to
/// `[0, PHASE_CAP_MS]`.
pub fn phase_ms(now_us: u64, reference_us: u64) -> (r: u32)
    ensures
        r == phase_spec(now_us as int, reference_us as int),
        r <= PHASE_CAP_MS,
{
    if now_us <= reference_us {
        0
    } else {
        let elapsed_ms: u64 = (now_us - reference_us) / US_PER_MS;
        if elapsed_ms > PHASE_CAP_MS as u64 {
            PHASE_CAP_MS
        } else {
            elapsed_ms as u32
        }
    }
}

/// Whether a click at `phase` falls in the tolerance window, which is
/// `tolerance` wide on each side of `period - tolerance / 2`.
pub fn is_on_time(phase: u32, period: u32, tolerance: u32) -> (r: bool)
    ensures
        r == on_time_spec(phase as int, period as int, tolerance as int),
{
    let centre: i64 = period as i64 - (tolerance / 2) as i64;
    let d: i64 = phase as i64 - centre;
    let dist: i64 = if d >= 0 { d } else { -d };
    dist < tolerance as i64
}

/// Position of the moving indicator: it sweeps from `period + base_offset`
/// down towards the fixed marker at `base_offset` as the beat approaches.
pub fn cue_offset(phase: u32, period: u32, base_offset: i32) -> (r: i64)
    ensures
        r == cue_offset_spec(phase as int, period as int, base_offset as int),
{
    period as i64 - phase as i64 + base_offset as i64
}

/// For a fixed reference the phase never decreases as time advances, and it
/// never exceeds the cap.
pub proof fn lemma_phase_monotone(earlier_us: int, later_us: int, reference_us: int)
    requires
        earlier_us <= later_us,
    ensures
        phase_spec(earlier_us, reference_us) <= phase_spec(later_us, reference_us),
        0 <= phase_spec(later_us, reference_us) <= 10_000,
{
    if earlier_us > reference_us {
        assert((earlier_us - reference_us) / 1_000 <= (later_us - reference_us) / 1_000)
            by (nonlinear_arith)
            requires
                earlier_us - reference_us <= later_us - reference_us,
                0 < earlier_us - reference_us,
        ;
    }
}

/// The on-time window is symmetric about its centre: two phases at the same
/// distance on either side of `period - tolerance / 2` get the same answer.
pub proof fn lemma_on_time_symmetric(period: int, tolerance: int, distance: int)
    ensures
        on_time_spec(window_centre(period, tolerance) + distance, period, tolerance)
            == on_time_spec(window_centre(period, tolerance) - distance, period, tolerance),
{
}

} // verus!
