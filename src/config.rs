//! Session settings, each kept within its documented range.
use vstd::prelude::*;

verus! {

pub const MIN_TARGET_BPM: u32 = 100;

pub const MAX_TARGET_BPM: u32 = 300;

pub const MAX_TOLERANCE_MS: u32 = 200;

pub const MIN_STATS_WINDOW: u32 = 2;

/// The statistics window never exceeds what the history can hold.
pub const MAX_STATS_WINDOW: u32 = 10_000;

pub const DEFAULT_TARGET_BPM: u32 = 120;

pub const DEFAULT_TOLERANCE_MS: u32 = 40;

pub const DEFAULT_STATS_WINDOW: u32 = 30;

/// `v` brought into `[lo, hi]`.
pub open spec fn clamp_spec(v: int, lo: int, hi: int) -> int {
    if v < lo {
        lo
    } else if v > hi {
        hi
    } else {
        v
    }
}

fn clamp_u32(v: u32, lo: u32, hi: u32) -> (r: u32)
    requires
        lo <= hi,
    ensures
        r == clamp_spec(v as int, lo as int, hi as int),
{
    if v < lo {
        lo
    } else if v > hi {
        hi
    } else {
        v
    }
}

/// What the user sets: the target tempo, the half-width of the on-time
/// window, and how many recent clicks the score covers.
#[derive(Clone, Copy, Debug, PartialEq, Eq)]
pub struct SessionConfig {
    /// Beats per minute, in `[MIN_TARGET_BPM, MAX_TARGET_BPM]`.
    pub target_bpm: u32,
    /// Milliseconds, in `[0, MAX_TOLERANCE_MS]`.
    pub tolerance_ms: u32,
    /// Clicks, in `[MIN_STATS_WINDOW, MAX_STATS_WINDOW]`.
    pub beat_count_for_stats: u32,
}

impl SessionConfig {
    pub open spec fn wf(self) -> bool {
        &&& MIN_TARGET_BPM <= self.target_bpm <= MAX_TARGET_BPM
        &&& self.tolerance_ms <= MAX_TOLERANCE_MS
        &&& MIN_STATS_WINDOW <= self.beat_count_for_stats <= MAX_STATS_WINDOW
    }

    /// A configuration with each value clamped into its range.
    pub fn new(target_bpm: u32, tolerance_ms: u32, beat_count_for_stats: u32) -> (r: Self)
        ensures
            r.wf(),
            r.target_bpm == clamp_spec(target_bpm as int, MIN_TARGET_BPM as int, MAX_TARGET_BPM as int),
            r.tolerance_ms == clamp_spec(tolerance_ms as int, 0, MAX_TOLERANCE_MS as int),
            r.beat_count_for_stats == clamp_spec(
                beat_count_for_stats as int,
                MIN_STATS_WINDOW as int,
                MAX_STATS_WINDOW as int,
            ),
    {
        SessionConfig {
            target_bpm: clamp_u32(target_bpm, MIN_TARGET_BPM, MAX_TARGET_BPM),
            tolerance_ms: clamp_u32(tolerance_ms, 0, MAX_TOLERANCE_MS),
            beat_count_for_stats: clamp_u32(beat_count_for_stats, MIN_STATS_WINDOW, MAX_STATS_WINDOW),
        }
    }

    /// Sets the target tempo, clamped into range.
    pub fn set_target_bpm(&mut self, target_bpm: u32)
        ensures
            *final(self) == (SessionConfig {
                target_bpm: clamp_spec(target_bpm as int, MIN_TARGET_BPM as int, MAX_TARGET_BPM as int) as u32,
                ..*old(self)
            }),
    {
        self.target_bpm = clamp_u32(target_bpm, MIN_TARGET_BPM, MAX_TARGET_BPM);
    }

    /// Sets the tolerance, clamped into range.
    pub fn set_tolerance_ms(&mut self, tolerance_ms: u32)
        ensures
            *final(self) == (SessionConfig {
                tolerance_ms: clamp_spec(tolerance_ms as int, 0, MAX_TOLERANCE_MS as int) as u32,
                ..*old(self)
            }),
    {
        self.tolerance_ms = clamp_u32(tolerance_ms, 0, MAX_TOLERANCE_MS);
    }

    /// Sets the statistics window, clamped into range.
    pub fn set_beat_count_for_stats(&mut self, beat_count_for_stats: u32)
        ensures
            *final(self) == (SessionConfig {
                beat_count_for_stats: clamp_spec(
                    beat_count_for_stats as int,
                    MIN_STATS_WINDOW as int,
                    MAX_STATS_WINDOW as int,
                ) as u32,
                ..*old(self)
            }),
    {
        self.beat_count_for_stats = clamp_u32(beat_count_for_stats, MIN_STATS_WINDOW, MAX_STATS_WINDOW);
    }
}

impl Default for SessionConfig {
    /// 120 BPM, 40 ms of tolerance, a window of 30 clicks.
    fn default() -> (r: Self)
        ensures
            r.wf(),
            r.target_bpm == DEFAULT_TARGET_BPM,
            r.tolerance_ms == DEFAULT_TOLERANCE_MS,
            r.beat_count_for_stats == DEFAULT_STATS_WINDOW,
    {
        SessionConfig {
            target_bpm: DEFAULT_TARGET_BPM,
            tolerance_ms: DEFAULT_TOLERANCE_MS,
            beat_count_for_stats: DEFAULT_STATS_WINDOW,
        }
    }
}

} // verus!
