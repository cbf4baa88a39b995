//! A monotonic clock in microseconds.
use vstd::prelude::*;

verus! {

/// wasm_timer's instant (std's `Instant` off the web), carried opaquely.
#[verifier::external_type_specification]
#[verifier::external_body]
pub struct ExInstant(wasm_timer::Instant);

/// Relies on wasm_timer::Instant::now: the current instant of the
/// platform's monotonic clock. Nothing is promised of its value.
#[verifier::external_body]
fn instant_now() -> (r: wasm_timer::Instant) {
    wasm_timer::Instant::now()
}

/// Relies on wasm_timer::Instant::elapsed and Duration::as_micros: the
/// whole microseconds since `origin`. The value depends on the time, so
/// nothing is promised of it.
#[verifier::external_body]
fn micros_since(origin: &wasm_timer::Instant) -> (r: u128) {
    origin.elapsed().as_micros()
}

/// The reading a clock reports after `last` when the platform says `raw_us`:
/// the raw value cut down to `u64`, never below `last`.
pub open spec fn next_reading_spec(last: u64, raw_us: u128) -> u64 {
    if raw_us > u64::MAX as u128 {
        u64::MAX
    } else if raw_us > last as u128 {
        raw_us as u64
    } else {
        last
    }
}

/// The next clock reading given the previous one and the raw microseconds.
pub fn next_reading(last: u64, raw_us: u128) -> (r: u64)
    ensures
        r == next_reading_spec(last, raw_us),
        r >= last,
{
    if raw_us > u64::MAX as u128 {
        u64::MAX
    } else if raw_us > last as u128 {
        raw_us as u64
    } else {
        last
    }
}

/// Microseconds since the clock was started. Readings never go backwards,
/// whatever the platform reports.
pub struct Clock {
    origin: wasm_timer::Instant,
    last_us: u64,
}

impl Clock {
    /// The most recent reading.
    pub closed spec fn last(self) -> u64 {
        self.last_us
    }

    /// Starts a clock at zero.
    pub fn start() -> (r: Self)
        ensures
            r.last() == 0,
    {
        Clock { origin: instant_now(), last_us: 0 }
    }

    /// Microseconds since the start, never less than the previous reading.
    pub fn now_us(&mut self) -> (r: u64)
        ensures
            r >= old(self).last(),
            final(self).last() == r,
    {
        self.last_us = next_reading(self.last_us, micros_since(&self.origin));
        self.last_us
    }
}

} // verus!
