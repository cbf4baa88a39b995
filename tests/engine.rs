use beat_trainer::clock::next_reading;
use beat_trainer::{
    compute_stats, cue_offset, derive_bpm_milli, is_on_time, period_ms, phase_ms, BeatClick, Clock,
    CueState, Session, SessionConfig, SessionState,
};

fn click(bpm_milli: u64, at_us: u64) -> BeatClick {
    BeatClick { derived_bpm_milli: bpm_milli, was_cue_visible: true, timestamp_us: at_us }
}

fn session_with(beat_count_for_stats: u32) -> Session {
    Session::new(SessionConfig::new(120, 40, beat_count_for_stats), 0)
}

#[test]
fn period_is_floor_of_minute_over_tempo() {
    assert_eq!(period_ms(120), 500);
    assert_eq!(period_ms(100), 600);
    assert_eq!(period_ms(300), 200);
    assert_eq!(period_ms(7), 8571);
    for bpm in 100..=300u32 {
        assert_eq!(period_ms(bpm), 60_000 / bpm);
    }
}

#[test]
fn phase_counts_whole_milliseconds_and_is_clamped() {
    assert_eq!(phase_ms(1_500_999, 1_000_000), 500);
    assert_eq!(phase_ms(5, 10), 0);
    assert_eq!(phase_ms(10, 10), 0);
    assert_eq!(phase_ms(10_000_000, 0), 10_000);
    assert_eq!(phase_ms(20_000_000, 0), 10_000);
    let mut prev = 0;
    for now in (0..12_000_000u64).step_by(7_919) {
        let p = phase_ms(now, 0);
        assert!(p >= prev);
        assert!(p <= 10_000);
        prev = p;
    }
}

#[test]
fn on_time_window_is_centred_before_the_beat() {
    assert!(is_on_time(420, 500, 80));
    assert!(is_on_time(500, 500, 80));
    assert!(is_on_time(460, 500, 80));
    assert!(!is_on_time(300, 500, 80));
    assert!(!is_on_time(380, 500, 80));
    assert!(!is_on_time(540, 500, 80));
    for d in 0..=460u32 {
        assert_eq!(is_on_time(460 + d, 500, 80), is_on_time(460 - d, 500, 80));
    }
    assert!(!is_on_time(500, 500, 0));
}

#[test]
fn cue_offset_sweeps_towards_marker() {
    assert_eq!(cue_offset(100, 500, 300), 700);
    assert_eq!(cue_offset(500, 500, 300), 300);
    assert_eq!(cue_offset(10_000, 500, 300), -9_200);
}

#[test]
fn derived_tempo_from_interval() {
    assert_eq!(derive_bpm_milli(500_000), Some(120_000));
    assert_eq!(derive_bpm_milli(400_000), Some(150_000));
    assert_eq!(derive_bpm_milli(700_000), Some(85_714));
    assert_eq!(derive_bpm_milli(1), Some(60_000_000_000));
    assert_eq!(derive_bpm_milli(60_000_000_000), Some(1));
    assert_eq!(derive_bpm_milli(60_000_000_001), None);
    assert_eq!(derive_bpm_milli(0), None);
}

#[test]
fn two_clicks_half_a_second_apart_give_target_tempo() {
    let mut s = session_with(30);
    assert_eq!(s.on_click(1_000_000), None);
    let c = s.on_click(1_500_000).expect("a recorded click");
    let bpm = c.derived_bpm_milli as f64 / 1000.0;
    assert!((bpm - 120.0).abs() <= 0.5);
    assert_eq!(c.timestamp_us, 1_500_000);
    assert!(c.was_cue_visible);
    assert_eq!(s.history.len(), 1);
}

#[test]
fn zero_interval_click_is_not_recorded() {
    let mut s = session_with(30);
    s.on_click(1_000_000);
    s.on_click(1_500_000);
    let before = s.history.len();
    assert_eq!(s.on_click(1_500_000), None);
    assert_eq!(s.history.len(), before);
    assert_eq!(s.consecutive_beat_count, 3);
    assert_eq!(s.last_click_us, Some(1_500_000));
    // an earlier timestamp counts as a zero interval
    assert_eq!(s.on_click(1_400_000), None);
    assert_eq!(s.history.len(), before);
}

#[test]
fn empty_history_has_no_statistics() {
    let cfg = SessionConfig::default();
    assert_eq!(compute_stats(&Vec::new(), &cfg), None);
    let s = Session::new(cfg, 0);
    assert_eq!(s.current_stats(), None);
}

#[test]
fn statistics_of_two_symmetric_clicks() {
    let cfg = SessionConfig::new(120, 40, 30);
    let h = vec![click(100_000, 0), click(140_000, 1)];
    let st = compute_stats(&h, &cfg).expect("statistics");
    assert_eq!(st.average_bpm_milli, 120_000);
    assert_eq!(st.average_deviation_milli, 0);
    assert_eq!(st.best_beat, (100_000, 0));
    assert_eq!(st.worst_beat, (100_000, 0));
    assert_eq!(st.score_milli, 4_000);
}

#[test]
fn statistics_pick_first_extremes_and_signed_deviation() {
    let cfg = SessionConfig::new(120, 40, 30);
    let h = vec![click(130_000, 0), click(119_000, 1), click(90_000, 2), click(121_000, 3), click(150_000, 4)];
    let st = compute_stats(&h, &cfg).expect("statistics");
    assert_eq!(st.average_bpm_milli, 122_000);
    assert_eq!(st.average_deviation_milli, 2_000);
    assert_eq!(st.best_beat, (119_000, 1));
    assert_eq!(st.worst_beat, (90_000, 2));
    // (10 + 1 + 30 + 1 + 30) / 10 = 7.2
    assert_eq!(st.score_milli, 7_200);
    let below = vec![click(100_000, 0), click(110_001, 1)];
    let st = compute_stats(&below, &cfg).expect("statistics");
    assert_eq!(st.average_bpm_milli, 105_000);
    assert_eq!(st.average_deviation_milli, -15_000);
}

#[test]
fn score_covers_only_the_statistics_window() {
    let cfg = SessionConfig::new(120, 40, 2);
    let h = vec![click(200_000, 0), click(121_000, 1), click(117_000, 2)];
    let st = compute_stats(&h, &cfg).expect("statistics");
    // only the last two: (1 + 3) / 10
    assert_eq!(st.score_milli, 400);
    assert_eq!(st.worst_beat, (200_000, 0));
    assert_eq!(st.best_beat, (121_000, 1));
}

#[test]
fn ten_clicks_hide_the_cue_and_reset_shows_it() {
    let mut s = session_with(30);
    assert_eq!(s.state(), SessionState::Idle);
    for i in 0..9u64 {
        s.on_click(1_000_000 + i * 500_000);
        assert!(s.cue_visible);
        assert_eq!(s.state(), SessionState::WarmingUp);
    }
    s.on_click(10_000_000);
    assert_eq!(s.consecutive_beat_count, 10);
    assert!(!s.cue_visible);
    assert_eq!(s.state(), SessionState::Active);
    let c = s.on_click(10_500_000).expect("a recorded click");
    assert!(!c.was_cue_visible);
    s.on_reset();
    assert!(s.cue_visible);
    assert_eq!(s.consecutive_beat_count, 0);
    assert!(s.history.is_empty());
    assert_eq!(s.state(), SessionState::Idle);
}

#[test]
fn long_pause_resets_a_short_session() {
    let mut s = session_with(30);
    s.on_click(1_000_000);
    s.on_click(1_500_000);
    s.on_click(2_000_000);
    s.on_tick(4_000_000);
    assert_eq!(s.consecutive_beat_count, 3);
    s.on_tick(7_000_000);
    assert_eq!(s.consecutive_beat_count, 0);
    assert!(s.history.is_empty());
    assert_eq!(s.last_click_us, None);
    assert!(s.cue_visible);
}

#[test]
fn long_pause_keeps_a_nearly_complete_session() {
    let mut s = session_with(3);
    s.on_click(1_000_000);
    s.on_click(1_500_000);
    s.on_click(2_000_000);
    assert_eq!(s.history.len(), 2);
    s.on_tick(7_000_000);
    assert_eq!(s.consecutive_beat_count, 3);
    assert_eq!(s.history.len(), 2);
}

#[test]
fn pause_of_exactly_four_seconds_is_not_stale() {
    let mut s = session_with(30);
    s.on_click(1_000_000);
    s.on_click(1_500_000);
    s.on_tick(5_500_000);
    assert_eq!(s.consecutive_beat_count, 2);
    s.on_tick(5_500_001);
    assert_eq!(s.consecutive_beat_count, 0);
}

#[test]
fn idle_indicator_restarts_at_the_marker() {
    let mut s = session_with(30);
    s.on_tick(700_000);
    assert_eq!(s.beat_reference_us, 0);
    // period 500 + marker 300: the indicator reaches zero at 800 ms
    s.on_tick(800_000);
    assert_eq!(s.beat_reference_us, 800_000);
    s.on_click(900_000);
    s.on_click(1_400_000);
    s.on_tick(3_000_000);
    assert_eq!(s.beat_reference_us, 1_400_000);
}

#[test]
fn cue_state_follows_phase() {
    let mut s = Session::new(SessionConfig::new(120, 80, 30), 0);
    s.on_click(1_000_000);
    assert_eq!(s.cue_state(1_420_000), CueState { visible: true, offset: 380, on_time: true });
    assert_eq!(s.cue_state(1_300_000), CueState { visible: true, offset: 500, on_time: false });
    assert_eq!(s.cue_state(30_000_000).offset, -9_200);
}

#[test]
fn history_keeps_the_newest_clicks() {
    let mut s = session_with(30);
    s.on_click(0);
    for i in 1..=10_002u64 {
        s.on_click(i * 1_000);
    }
    assert_eq!(s.history.len(), 10_000);
    assert_eq!(s.history[0].timestamp_us, 3_000);
    assert_eq!(s.history[9_999].timestamp_us, 10_002_000);
}

#[test]
fn statistics_readiness_and_remaining_beats() {
    let mut s = session_with(30);
    s.on_click(0);
    for i in 1..=29u64 {
        s.on_click(i * 500_000);
    }
    assert_eq!(s.history.len(), 29);
    assert!(!s.stats_ready());
    assert_eq!(s.beats_remaining(), 1);
    s.on_click(30 * 500_000);
    assert!(s.stats_ready());
    assert_eq!(s.beats_remaining(), 0);
    let st = s.current_stats().expect("statistics");
    assert_eq!(st.average_bpm_milli, 120_000);
    assert_eq!(st.score_milli, 0);
}

#[test]
fn config_values_are_clamped() {
    let c = SessionConfig::new(50, 500, 1);
    assert_eq!((c.target_bpm, c.tolerance_ms, c.beat_count_for_stats), (100, 200, 2));
    let mut c = SessionConfig::new(400, 20, 50_000);
    assert_eq!((c.target_bpm, c.tolerance_ms, c.beat_count_for_stats), (300, 20, 10_000));
    c.set_target_bpm(150);
    c.set_tolerance_ms(1_000);
    c.set_beat_count_for_stats(0);
    assert_eq!((c.target_bpm, c.tolerance_ms, c.beat_count_for_stats), (150, 200, 2));
    let d = SessionConfig::default();
    assert_eq!((d.target_bpm, d.tolerance_ms, d.beat_count_for_stats), (120, 40, 30));
    let mut s = Session::new(d, 0);
    s.on_config_change(c);
    assert_eq!(s.config, c);
}

#[test]
fn clock_never_goes_backwards() {
    let mut clock = Clock::start();
    let a = clock.now_us();
    let b = clock.now_us();
    assert!(b >= a);
}

#[test]
fn clock_reading_is_cut_down_and_never_goes_back() {
    assert_eq!(next_reading(100, 250), 250);
    assert_eq!(next_reading(100, 50), 100);
    assert_eq!(next_reading(100, 100), 100);
    assert_eq!(next_reading(0, u64::MAX as u128 + 7), u64::MAX);
}

#[test]
fn perfect_click_records_the_target_tempo() {
    let mut s = Session::new(SessionConfig::new(150, 40, 30), 0);
    let c = s.on_perfect_click(2_000_000);
    assert_eq!(c, BeatClick { derived_bpm_milli: 150_000, was_cue_visible: true, timestamp_us: 2_000_000 });
    assert_eq!(s.history.len(), 1);
    assert_eq!(s.consecutive_beat_count, 1);
    assert_eq!(s.last_click_us, Some(2_000_000));
    assert_eq!(s.beat_reference_us, 2_000_000);
    let c = s.on_click(2_250_000).expect("a recorded click");
    assert_eq!(c.derived_bpm_milli, 240_000);
    assert_eq!(s.history.len(), 2);
}
