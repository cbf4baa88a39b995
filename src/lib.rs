//! Beat-timing and scoring engine for a rhythm trainer.
//!
//! The engine turns a target tempo into a beat period, tracks the time since
//! the last click, decides when the "click now" cue is shown, records the tempo
//! of every click and summarises a session. All times are integers: instants
//! and intervals in microseconds, phases and periods in milliseconds, and
//! tempos in thousandths of a beat per minute ("milli-BPM").

pub mod clock;
pub mod config;
pub mod session;
pub mod stats;
pub mod timing;
pub mod tracker;

pub use clock::Clock;
pub use config::SessionConfig;
pub use session::{CueState, Session, SessionState};
pub use stats::{compute_stats, SessionStats};
pub use timing::{cue_offset, is_on_time, period_ms, phase_ms};
pub use tracker::{derive_bpm_milli, BeatClick};
