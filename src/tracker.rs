//! Click records and the bounded click history.
use vstd::prelude::*;

verus! {

/// Microseconds in a minute times one thousand: dividing it by an interval in
/// microseconds gives the tempo in milli-BPM.
pub const MILLI_BPM_NUMERATOR: u64 = 60_000_000_000;

/// The history keeps at most this many clicks; the oldest leaves first.
pub const HISTORY_CAP: usize = 10_000;

/// One accepted click.
#[derive(Clone, Copy, Debug, PartialEq, Eq)]
pub struct BeatClick {
    /// Tempo implied by the interval since the previous click, in milli-BPM.
    pub derived_bpm_milli: u64,
    /// Whether the cue was shown when the click came.
    pub was_cue_visible: bool,
    /// When the click came, in microseconds.
    pub timestamp_us: u64,
}

impl BeatClick {
    /// A recorded click always has a positive tempo of at most
    /// `MILLI_BPM_NUMERATOR` milli-BPM (an interval of one microsecond).
    pub open spec fn valid(self) -> bool {
        0 < self.derived_bpm_milli <= MILLI_BPM_NUMERATOR
    }
}

/// Tempo of a click `interval_us` after the previous one, rounded down; none
/// for a zero interval (an infinite tempo) or one so long that the tempo
/// rounds to zero.
pub open spec fn bpm_of_interval(interval_us: int) -> Option<u64> {
    if 0 < interval_us <= MILLI_BPM_NUMERATOR {
        Some((MILLI_BPM_NUMERATOR / (interval_us as u64)) as u64)
    } else {
        None
    }
}

/// A history with `c` appended, dropping the oldest entry when the cap is
/// passed.
pub open spec fn push_capped(history: Seq<BeatClick>, c: BeatClick) -> Seq<BeatClick> {
    if history.len() + 1 > HISTORY_CAP {
        history.push(c).drop_first()
    } else {
        history.push(c)
    }
}

/// Every entry of a history is valid.
pub open spec fn all_valid(history: Seq<BeatClick>) -> bool {
    forall|i: int| 0 <= i < history.len() ==> (#[trigger] history[i]).valid()
}

/// Tempo in milli-BPM of a click that came `interval_us` after the previous
/// one, or `None` where no finite positive tempo results.
pub fn derive_bpm_milli(interval_us: u64) -> (r: Option<u64>)
    ensures
        r == bpm_of_interval(interval_us as int),
        r matches Some(b) ==> 0 < b <= MILLI_BPM_NUMERATOR,
{
    if interval_us == 0 || interval_us > MILLI_BPM_NUMERATOR {
        None
    } else {
        let b: u64 = MILLI_BPM_NUMERATOR / interval_us;
        assert(b >= 1) by (nonlinear_arith)
            requires
                b == MILLI_BPM_NUMERATOR / interval_us,
                0 < interval_us <= MILLI_BPM_NUMERATOR,
        ;
        assert(b <= MILLI_BPM_NUMERATOR) by (nonlinear_arith)
            requires
                b == MILLI_BPM_NUMERATOR / interval_us,
                0 < interval_us,
        ;
        Some(b)
    }
}

/// Appends `c` to `history`, evicting the oldest entry once the cap is passed.
pub fn push_click(history: &mut Vec<BeatClick>, c: BeatClick)
    requires
        old(history)@.len() <= HISTORY_CAP,
    ensures
        final(history)@ == push_capped(old(history)@, c),
        final(history)@.len() <= HISTORY_CAP,
{
    history.push(c);
    if history.len() > HISTORY_CAP {
        history.remove(0);
        assert(history@ =~= push_capped(old(history)@, c));
    }
}

} // verus!
