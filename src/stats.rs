//! Session statistics computed from the click history.
use vstd::prelude::*;
use crate::config::SessionConfig;
use crate::tracker::{all_valid, BeatClick, MILLI_BPM_NUMERATOR};

verus! {

/// Summary of a non-empty history. Tempos are in milli-BPM.
#[derive(Clone, Copy, Debug, PartialEq, Eq)]
pub struct SessionStats {
    /// Mean tempo, rounded down.
    pub average_bpm_milli: u64,
    /// Mean tempo minus the target tempo.
    pub average_deviation_milli: i64,
    /// Tempo and index of the click closest to the target.
    pub best_beat: (u64, usize),
    /// Tempo and index of the click furthest from the target.
    pub worst_beat: (u64, usize),
    /// Sum over the statistics window of each click's distance from the
    /// target divided by ten, in thousandths and rounded down; lower is
    /// better.
    pub score_milli: u64,
}

pub open spec fn abs_diff(a: int, b: int) -> int {
    if a >= b {
        a - b
    } else {
        b - a
    }
}

/// Distance of a click's tempo from the target, in milli-BPM.
pub open spec fn deviation(c: BeatClick, target_milli: int) -> int {
    abs_diff(c.derived_bpm_milli as int, target_milli)
}

pub open spec fn target_milli(config: SessionConfig) -> int {
    config.target_bpm as int * 1_000
}

pub open spec fn bpm_sum(s: Seq<BeatClick>) -> int
    decreases s.len(),
{
    if s.len() == 0 {
        0
    } else {
        bpm_sum(s.drop_last()) + s.last().derived_bpm_milli as int
    }
}

pub open spec fn deviation_sum(s: Seq<BeatClick>, target: int) -> int
    decreases s.len(),
{
    if s.len() == 0 {
        0
    } else {
        deviation_sum(s.drop_last(), target) + deviation(s.last(), target)
    }
}

/// The last `window` clicks, or all of them when there are fewer.
pub open spec fn stats_window(s: Seq<BeatClick>, window: int) -> Seq<BeatClick> {
    if s.len() <= window {
        s
    } else {
        s.subrange(s.len() - window, s.len() as int)
    }
}

/// `i` is the first index whose click is closest to the target.
pub open spec fn is_best_index(s: Seq<BeatClick>, target: int, i: int) -> bool {
    &&& 0 <= i < s.len()
    &&& forall|j: int| 0 <= j < s.len() ==> deviation(s[i], target) <= deviation(#[trigger] s[j], target)
    &&& forall|j: int| 0 <= j < i ==> deviation(s[i], target) < deviation(#[trigger] s[j], target)
}

/// `i` is the first index whose click is furthest from the target.
pub open spec fn is_worst_index(s: Seq<BeatClick>, target: int, i: int) -> bool {
    &&& 0 <= i < s.len()
    &&& forall|j: int| 0 <= j < s.len() ==> deviation(s[i], target) >= deviation(#[trigger] s[j], target)
    &&& forall|j: int| 0 <= j < i ==> deviation(s[i], target) > deviation(#[trigger] s[j], target)
}

/// What `compute_stats` reports for a non-empty history.
pub open spec fn stats_of(s: Seq<BeatClick>, config: SessionConfig, r: SessionStats) -> bool {
    let t = target_milli(config);
    &&& r.average_bpm_milli == bpm_sum(s) / s.len() as int
    &&& r.average_deviation_milli == r.average_bpm_milli - t
    &&& is_best_index(s, t, r.best_beat.1 as int)
    &&& r.best_beat.0 == s[r.best_beat.1 as int].derived_bpm_milli
    &&& is_worst_index(s, t, r.worst_beat.1 as int)
    &&& r.worst_beat.0 == s[r.worst_beat.1 as int].derived_bpm_milli
    &&& r.score_milli == deviation_sum(stats_window(s, config.beat_count_for_stats as int), t) / 10
}

proof fn lemma_deviation_bound(c: BeatClick, target: int)
    requires
        c.valid(),
        0 <= target <= MILLI_BPM_NUMERATOR,
    ensures
        0 <= deviation(c, target) <= MILLI_BPM_NUMERATOR,
{
}

fn deviation_exec(bpm_milli: u64, target: u64) -> (r: u64)
    ensures
        r == abs_diff(bpm_milli as int, target as int),
{
    if bpm_milli >= target {
        bpm_milli - target
    } else {
        target - bpm_milli
    }
}

/// Sum of tempos, in milli-BPM.
fn sum_bpm(history: &Vec<BeatClick>) -> (r: u128)
    requires
        all_valid(history@),
    ensures
        r == bpm_sum(history@),
        r <= history@.len() * MILLI_BPM_NUMERATOR,
{
    let mut acc: u128 = 0;
    let mut i: usize = 0;
    while i < history.len()
        invariant
            i <= history@.len(),
            all_valid(history@),
            acc == bpm_sum(history@.subrange(0, i as int)),
            acc <= i * MILLI_BPM_NUMERATOR,
        decreases history@.len() - i,
    {
        assert(history@.subrange(0, i + 1).drop_last() =~= history@.subrange(0, i as int));
        assert(history@[i as int].valid());
        acc = acc + history[i].derived_bpm_milli as u128;
        i = i + 1;
        assert(acc <= i * MILLI_BPM_NUMERATOR) by (nonlinear_arith)
            requires
                acc <= (i - 1) * MILLI_BPM_NUMERATOR + MILLI_BPM_NUMERATOR,
        ;
    }
    assert(history@.subrange(0, i as int) =~= history@);
    acc
}

/// Sum of distances from the target over the clicks from `start` on.
fn sum_deviation_from(history: &Vec<BeatClick>, start: usize, target: u64) -> (r: u64)
    requires
        all_valid(history@),
        start <= history@.len(),
        history@.len() - start <= 10_000,
        target <= MILLI_BPM_NUMERATOR,
    ensures
        r == deviation_sum(history@.subrange(start as int, history@.len() as int), target as int),
{
    let mut acc: u64 = 0;
    let mut i: usize = start;
    while i < history.len()
        invariant
            start <= i <= history@.len(),
            history@.len() - start <= 10_000,
            all_valid(history@),
            target <= MILLI_BPM_NUMERATOR,
            acc == deviation_sum(history@.subrange(start as int, i as int), target as int),
            acc <= (i - start) * MILLI_BPM_NUMERATOR,
        decreases history@.len() - i,
    {
        assert(history@.subrange(start as int, i + 1).drop_last()
            =~= history@.subrange(start as int, i as int));
        proof {
            lemma_deviation_bound(history@[i as int], target as int);
        }
        let d: u64 = deviation_exec(history[i].derived_bpm_milli, target);
        assert(acc + d <= (i + 1 - start) * MILLI_BPM_NUMERATOR) by (nonlinear_arith)
            requires
                acc <= (i - start) * MILLI_BPM_NUMERATOR,
                d <= MILLI_BPM_NUMERATOR,
        ;
        assert((i + 1 - start) * MILLI_BPM_NUMERATOR <= 10_000 * MILLI_BPM_NUMERATOR) by (nonlinear_arith)
            requires
                i + 1 - start <= 10_000,
        ;
        acc = acc + d;
        i = i + 1;
    }
    acc
}

/// Index of the first click closest to (`best`) or furthest from the target.
fn extreme_index(history: &Vec<BeatClick>, target: u64, best: bool) -> (r: usize)
    requires
        history@.len() > 0,
    ensures
        best ==> is_best_index(history@, target as int, r as int),
        !best ==> is_worst_index(history@, target as int, r as int),
{
    let mut k: usize = 0;
    let mut k_dev: u64 = deviation_exec(history[0].derived_bpm_milli, target);
    let mut i: usize = 1;
    while i < history.len()
        invariant
            1 <= i <= history@.len(),
            0 <= k < i,
            k_dev == deviation(history@[k as int], target as int),
            best ==> forall|j: int| 0 <= j < i ==> k_dev <= deviation(#[trigger] history@[j], target as int),
            best ==> forall|j: int| 0 <= j < k ==> k_dev < deviation(#[trigger] history@[j], target as int),
            !best ==> forall|j: int| 0 <= j < i ==> k_dev >= deviation(#[trigger] history@[j], target as int),
            !best ==> forall|j: int| 0 <= j < k ==> k_dev > deviation(#[trigger] history@[j], target as int),
        decreases history@.len() - i,
    {
        let d: u64 = deviation_exec(history[i].derived_bpm_milli, target);
        if (best && d < k_dev) || (!best && d > k_dev) {
            k = i;
            k_dev = d;
        }
        i = i + 1;
    }
    k
}

/// Statistics of `history` against `config`, or `None` when the history is
/// empty and there is nothing to report.
pub fn compute_stats(history: &Vec<BeatClick>, config: &SessionConfig) -> (r: Option<SessionStats>)
    requires
        config.wf(),
        all_valid(history@),
    ensures
        r.is_none() <==> history@.len() == 0,
        r matches Some(st) ==> stats_of(history@, *config, st),
{
    let n: usize = history.len();
    if n == 0 {
        return None;
    }
    let target: u64 = config.target_bpm as u64 * 1_000;
    let total: u128 = sum_bpm(history);
    assert(total as int / n as int <= MILLI_BPM_NUMERATOR) by (nonlinear_arith)
        requires
            total <= n * MILLI_BPM_NUMERATOR,
            n > 0,
    ;
    let average: u64 = (total / n as u128) as u64;
    let average_deviation: i64 = average as i64 - target as i64;
    let best: usize = extreme_index(history, target, true);
    let worst: usize = extreme_index(history, target, false);
    let window: usize = config.beat_count_for_stats as usize;
    let start: usize = if n <= window { 0 } else { n - window };
    let window_sum: u64 = sum_deviation_from(history, start, target);
    assert(history@.subrange(start as int, n as int)
        =~= stats_window(history@, config.beat_count_for_stats as int));
    Some(SessionStats {
        average_bpm_milli: average,
        average_deviation_milli: average_deviation,
        best_beat: (history[best].derived_bpm_milli, best),
        worst_beat: (history[worst].derived_bpm_milli, worst),
        score_milli: window_sum / 10,
    })
}

} // verus!
