//! The session: click history, runtime state and the transitions between
//! idle, warming up and active.
use vstd::prelude::*;
use crate::config::SessionConfig;
use crate::stats::{compute_stats, SessionStats};
use crate::timing::{
    cue_offset, cue_offset_spec, is_on_time, on_time_spec, period_ms, period_spec, phase_ms,
    phase_spec,
};
use crate::tracker::{all_valid, bpm_of_interval, derive_bpm_milli, push_capped, push_click, BeatClick, HISTORY_CAP,
    MILLI_BPM_NUMERATOR};

verus! {

/// After this many clicks without a reset the cue is hidden.
pub const WARM_UP_BEATS: u64 = 10;

/// A pause longer than this (in microseconds) may end a short session.
pub const STALE_RESET_US: u64 = 4_000_000;

/// Where the fixed marker stands; the moving indicator reaches it on the beat.
pub const CUE_BASE_OFFSET: i32 = 300;

/// Statistics are worth showing from this many recorded clicks on.
pub const STATS_DISPLAY_MIN: usize = 30;

/// Where a session stands in its warm-up.
#[derive(Clone, Copy, Debug, PartialEq, Eq)]
pub enum SessionState {
    /// No click since the start or the last reset.
    Idle,
    /// Fewer than `WARM_UP_BEATS` clicks: the cue is shown.
    WarmingUp,
    /// `WARM_UP_BEATS` clicks or more: the cue is hidden.
    Active,
}

/// What the renderer draws on a frame.
#[derive(Clone, Copy, Debug, PartialEq, Eq)]
pub struct CueState {
    pub visible: bool,
    /// Position of the moving indicator; the marker is at `CUE_BASE_OFFSET`.
    pub offset: i64,
    /// Whether a click now would fall in the on-time window.
    pub on_time: bool,
}

/// One training session.
#[derive(Clone, Debug)]
pub struct Session {
    pub config: SessionConfig,
    /// Accepted clicks, oldest first.
    pub history: Vec<BeatClick>,
    /// When the last click came, if any since the start or the last reset.
    pub last_click_us: Option<u64>,
    /// The instant from which the phase is measured.
    pub beat_reference_us: u64,
    /// Clicks since the start or the last reset.
    pub consecutive_beat_count: u64,
    pub cue_visible: bool,
}

pub open spec fn sat_sub(a: int, b: int) -> int {
    if a >= b {
        a - b
    } else {
        0
    }
}

pub open spec fn sat_inc(c: u64) -> u64 {
    if c < u64::MAX {
        (c + 1) as u64
    } else {
        c
    }
}

/// Tempo of a click at `now_us`, given the previous click.
pub open spec fn click_bpm(last_click_us: Option<u64>, now_us: u64) -> Option<u64> {
    match last_click_us {
        Some(l) => bpm_of_interval(sat_sub(now_us as int, l as int)),
        None => None,
    }
}

pub open spec fn cue_shown(count: u64) -> bool {
    count < WARM_UP_BEATS
}

pub open spec fn state_of(count: u64) -> SessionState {
    if count == 0 {
        SessionState::Idle
    } else if count < WARM_UP_BEATS {
        SessionState::WarmingUp
    } else {
        SessionState::Active
    }
}

impl Session {
    pub open spec fn wf(self) -> bool {
        &&& self.config.wf()
        &&& self.history@.len() <= HISTORY_CAP
        &&& all_valid(self.history@)
        &&& self.cue_visible == cue_shown(self.consecutive_beat_count)
    }

    /// The session has gone stale at `now_us`: the last click is more than
    /// `STALE_RESET_US` ago and fewer than `beat_count_for_stats - 1` clicks
    /// are recorded.
    pub open spec fn is_stale(self, now_us: u64) -> bool {
        &&& self.last_click_us matches Some(l)
        &&& sat_sub(now_us as int, l as int) > STALE_RESET_US
        &&& self.history@.len() < self.config.beat_count_for_stats - 1
    }

    /// The phase at `now_us`, in milliseconds.
    pub open spec fn phase_at(self, now_us: u64) -> int {
        phase_spec(now_us as int, self.beat_reference_us as int)
    }

    pub open spec fn period(self) -> int {
        period_spec(self.config.target_bpm as int)
    }

    /// The state after a reset: no clicks, an empty history, the cue shown.
    pub open spec fn is_reset_of(self, before: Self) -> bool {
        &&& self.config == before.config
        &&& self.history@.len() == 0
        &&& self.last_click_us.is_none()
        &&& self.consecutive_beat_count == 0
        &&& self.cue_visible
    }

    /// A fresh session whose phase counts from `now_us`.
    pub fn new(config: SessionConfig, now_us: u64) -> (r: Self)
        requires
            config.wf(),
        ensures
            r.wf(),
            r.config == config,
            r.history@.len() == 0,
            r.last_click_us.is_none(),
            r.beat_reference_us == now_us,
            r.consecutive_beat_count == 0,
            r.cue_visible,
    {
        Session {
            config,
            history: Vec::new(),
            last_click_us: None,
            beat_reference_us: now_us,
            consecutive_beat_count: 0,
            cue_visible: true,
        }
    }

    /// Records a click at `now_us`. A click with a finite positive tempo is
    /// appended to the history and returned; the first click after a start
    /// or reset, and one at the same instant as the previous, are counted
    /// but not recorded.
    pub fn on_click(&mut self, now_us: u64) -> (r: Option<BeatClick>)
        requires
            old(self).wf(),
        ensures
            final(self).wf(),
            match click_bpm(old(self).last_click_us, now_us) {
                Some(b) => {
                    &&& r == Some(BeatClick {
                        derived_bpm_milli: b,
                        was_cue_visible: old(self).cue_visible,
                        timestamp_us: now_us,
                    })
                    &&& final(self).history@ == push_capped(old(self).history@, r.unwrap())
                },
                None => {
                    &&& r.is_none()
                    &&& final(self).history@ == old(self).history@
                },
            },
            final(self).consecutive_beat_count == sat_inc(old(self).consecutive_beat_count),
            final(self).cue_visible == cue_shown(final(self).consecutive_beat_count),
            final(self).last_click_us == Some(now_us),
            final(self).beat_reference_us == now_us,
            final(self).config == old(self).config,
    {
        let derived: Option<u64> = match self.last_click_us {
            Some(l) => {
                let interval: u64 = if now_us >= l { now_us - l } else { 0 };
                derive_bpm_milli(interval)
            },
            None => None,
        };
        let r: Option<BeatClick> = match derived {
            Some(b) => {
                let c = BeatClick {
                    derived_bpm_milli: b,
                    was_cue_visible: self.cue_visible,
                    timestamp_us: now_us,
                };
                push_click(&mut self.history, c);
                assert(all_valid(self.history@));
                Some(c)
            },
            None => None,
        };
        if self.consecutive_beat_count < u64::MAX {
            self.consecutive_beat_count = self.consecutive_beat_count + 1;
        }
        self.cue_visible = self.consecutive_beat_count < WARM_UP_BEATS;
        self.last_click_us = Some(now_us);
        self.beat_reference_us = now_us;
        r
    }

    /// Records a click at `now_us` at exactly the target tempo, whatever the
    /// interval; a debugging aid.
    pub fn on_perfect_click(&mut self, now_us: u64) -> (r: BeatClick)
        requires
            old(self).wf(),
        ensures
            final(self).wf(),
            r == (BeatClick {
                derived_bpm_milli: (old(self).config.target_bpm * 1_000) as u64,
                was_cue_visible: old(self).cue_visible,
                timestamp_us: now_us,
            }),
            final(self).history@ == push_capped(old(self).history@, r),
            final(self).consecutive_beat_count == sat_inc(old(self).consecutive_beat_count),
            final(self).cue_visible == cue_shown(final(self).consecutive_beat_count),
            final(self).last_click_us == Some(now_us),
            final(self).beat_reference_us == now_us,
            final(self).config == old(self).config,
    {
        let c = BeatClick {
            derived_bpm_milli: self.config.target_bpm as u64 * 1_000,
            was_cue_visible: self.cue_visible,
            timestamp_us: now_us,
        };
        push_click(&mut self.history, c);
        assert(all_valid(self.history@));
        if self.consecutive_beat_count < u64::MAX {
            self.consecutive_beat_count = self.consecutive_beat_count + 1;
        }
        self.cue_visible = self.consecutive_beat_count < WARM_UP_BEATS;
        self.last_click_us = Some(now_us);
        self.beat_reference_us = now_us;
        c
    }

    /// Clears the click count, the history and the last click.
    pub fn on_reset(&mut self)
        requires
            old(self).wf(),
        ensures
            final(self).wf(),
            final(self).is_reset_of(*old(self)),
            final(self).beat_reference_us == old(self).beat_reference_us,
    {
        self.consecutive_beat_count = 0;
        self.history.clear();
        self.last_click_us = None;
        self.cue_visible = true;
    }

    /// Per-frame update at `now_us`: a stale session is reset, and while
    /// nothing is recorded the indicator restarts once it has reached the
    /// marker, so the user can start whenever ready.
    pub fn on_tick(&mut self, now_us: u64)
        requires
            old(self).wf(),
        ensures
            final(self).wf(),
            old(self).is_stale(now_us) ==> final(self).is_reset_of(*old(self)),
            !old(self).is_stale(now_us) ==> {
                &&& final(self).history@ == old(self).history@
                &&& final(self).last_click_us == old(self).last_click_us
                &&& final(self).consecutive_beat_count == old(self).consecutive_beat_count
                &&& final(self).cue_visible == old(self).cue_visible
            },
            final(self).config == old(self).config,
            final(self).beat_reference_us == if final(self).history@.len() == 0
                && cue_offset_spec(old(self).phase_at(now_us), old(self).period(), CUE_BASE_OFFSET as int) <= 0 {
                now_us
            } else {
                old(self).beat_reference_us
            },
    {
        let stale: bool = match self.last_click_us {
            Some(l) => {
                let gap: u64 = if now_us >= l { now_us - l } else { 0 };
                gap > STALE_RESET_US && self.history.len() < self.config.beat_count_for_stats as usize - 1
            },
            None => false,
        };
        if stale {
            self.on_reset();
        }
        let phase: u32 = phase_ms(now_us, self.beat_reference_us);
        let period: u32 = period_ms(self.config.target_bpm);
        if self.history.len() == 0 && cue_offset(phase, period, CUE_BASE_OFFSET) <= 0 {
            self.beat_reference_us = now_us;
        }
    }

    /// Applies new settings; they take effect from the next frame.
    pub fn on_config_change(&mut self, config: SessionConfig)
        requires
            old(self).wf(),
            config.wf(),
        ensures
            final(self).wf(),
            *final(self) == (Session { config, ..*old(self) }),
    {
        self.config = config;
    }

    /// What to draw at `now_us`.
    pub fn cue_state(&self, now_us: u64) -> (r: CueState)
        requires
            self.wf(),
        ensures
            r.visible == self.cue_visible,
            r.offset == cue_offset_spec(self.phase_at(now_us), self.period(), CUE_BASE_OFFSET as int),
            r.on_time == on_time_spec(self.phase_at(now_us), self.period(), self.config.tolerance_ms as int),
    {
        let phase: u32 = phase_ms(now_us, self.beat_reference_us);
        let period: u32 = period_ms(self.config.target_bpm);
        CueState {
            visible: self.cue_visible,
            offset: cue_offset(phase, period, CUE_BASE_OFFSET),
            on_time: is_on_time(phase, period, self.config.tolerance_ms),
        }
    }

    /// Where the session stands in its warm-up.
    pub fn state(&self) -> (r: SessionState)
        ensures
            r == state_of(self.consecutive_beat_count),
    {
        if self.consecutive_beat_count == 0 {
            SessionState::Idle
        } else if self.consecutive_beat_count < WARM_UP_BEATS {
            SessionState::WarmingUp
        } else {
            SessionState::Active
        }
    }

    /// Statistics of the history so far; `None` while it is empty.
    pub fn current_stats(&self) -> (r: Option<SessionStats>)
        requires
            self.wf(),
        ensures
            r.is_none() <==> self.history@.len() == 0,
            r matches Some(st) ==> crate::stats::stats_of(self.history@, self.config, st),
    {
        compute_stats(&self.history, &self.config)
    }

    /// Whether enough clicks are recorded for the statistics to be shown.
    pub fn stats_ready(&self) -> (r: bool)
        ensures
            r == (self.history@.len() >= STATS_DISPLAY_MIN),
    {
        self.history.len() >= STATS_DISPLAY_MIN
    }

    /// Clicks still needed to fill the statistics window.
    pub fn beats_remaining(&self) -> (r: u32)
        requires
            self.wf(),
        ensures
            r == sat_sub(self.config.beat_count_for_stats as int, self.history@.len() as int),
    {
        let len: usize = self.history.len();
        let window: usize = self.config.beat_count_for_stats as usize;
        if len < window {
            (window - len) as u32
        } else {
            0
        }
    }
}

/// A click `now_us - last_us` microseconds after the previous one is
/// recorded at 60000 / interval BPM, in milli-BPM rounded down, for every
/// interval from one microsecond up to `MILLI_BPM_NUMERATOR`.
pub proof fn lemma_click_tempo(last_us: u64, now_us: u64)
    requires
        last_us < now_us,
        now_us - last_us <= MILLI_BPM_NUMERATOR,
    ensures
        click_bpm(Some(last_us), now_us) == Some((MILLI_BPM_NUMERATOR / ((now_us - last_us) as u64)) as u64),
{
}

/// A click at the same instant as the previous one, or reported earlier,
/// gives no tempo, so `on_click` leaves the history as it was.
pub proof fn lemma_zero_interval_not_recorded(last_us: u64, now_us: u64)
    requires
        now_us <= last_us,
    ensures
        click_bpm(Some(last_us), now_us).is_none(),
{
}

proof fn lemma_count_after_clicks(sessions: Seq<Session>, k: int)
    requires
        0 <= k < sessions.len(),
        sessions.len() <= u64::MAX,
        sessions[0].consecutive_beat_count == 0,
        forall|i: int|
            1 <= i < sessions.len() ==> (#[trigger] sessions[i]).consecutive_beat_count == sat_inc(
                sessions[i - 1].consecutive_beat_count,
            ),
    ensures
        sessions[k].consecutive_beat_count == k,
    decreases k,
{
    if k > 0 {
        lemma_count_after_clicks(sessions, k - 1);
        assert(sessions[k].consecutive_beat_count == sat_inc(sessions[k - 1].consecutive_beat_count));
    }
}

/// Clicks from a reset session (`sessions[k]` is the session after `k` calls
/// of `on_click`, each of which increments the count) keep the cue shown for
/// the first `WARM_UP_BEATS` clicks and hide it from then on.
pub proof fn lemma_warm_up_clicks(sessions: Seq<Session>)
    requires
        0 < sessions.len() <= u64::MAX,
        sessions[0].consecutive_beat_count == 0,
        forall|i: int| 0 <= i < sessions.len() ==> (#[trigger] sessions[i]).wf(),
        forall|i: int|
            1 <= i < sessions.len() ==> (#[trigger] sessions[i]).consecutive_beat_count == sat_inc(
                sessions[i - 1].consecutive_beat_count,
            ),
    ensures
        forall|k: int|
            0 <= k < sessions.len() ==> ((#[trigger] sessions[k]).cue_visible <==> k < WARM_UP_BEATS),
{
    assert forall|k: int| 0 <= k < sessions.len() implies ((#[trigger] sessions[k]).cue_visible
        <==> k < WARM_UP_BEATS) by {
        lemma_count_after_clicks(sessions, k);
    }
}

/// A gap of more than `STALE_RESET_US` since the last click resets a
/// session exactly when fewer than `beat_count_for_stats - 1` clicks are
/// recorded.
pub proof fn lemma_stale_gap(s: Session, now_us: u64, last_us: u64)
    requires
        s.wf(),
        s.last_click_us == Some(last_us),
        now_us >= last_us + STALE_RESET_US + 1,
    ensures
        s.is_stale(now_us) <==> s.history@.len() < s.config.beat_count_for_stats - 1,
{
}

} // verus!
