use clip_sync_repair::lag_sweep::{lag_sweep_span, LagSweepParams, LagSweepSpan};
use clip_sync_repair::schema::LagChannel;

fn params(window: usize, max_lag: i64, sample_rate: u32) -> LagSweepParams {
    LagSweepParams { window, max_lag, sample_rate, channel: LagChannel::Mono }
}

#[test]
fn knobs_in_whole_milliseconds() {
    let p = params(48_000, 28_800, 48_000);
    assert_eq!(p.win_ms(), 1000);
    assert_eq!(p.max_lag_ms(), 600);
    assert_eq!(p.ml(), 28_800);
    // Rounded down.
    let p = params(4_000, 64, 48_000);
    assert_eq!(p.win_ms(), 83);
    assert_eq!(p.max_lag_ms(), 1);
    // A negative lag searches nothing; a zero rate counts as 1 Hz; huge values saturate.
    let p = params(3, -5, 0);
    assert_eq!(p.ml(), 0);
    assert_eq!(p.max_lag_ms(), 0);
    assert_eq!(p.win_ms(), 3000);
    assert_eq!(params(usize::MAX, 0, 1).win_ms(), u32::MAX);
}

#[test]
fn pre_shoulder_sweeps_the_last_window_before_the_anchor() {
    let s = lag_sweep_span(params(100, 20, 48_000), 300, 10_000, 1_000, true).unwrap();
    assert_eq!(s, LagSweepSpan { a_start: 200, a_end: 300, b_lo: 880, b_hi: 1020 });
}

#[test]
fn post_shoulder_sweeps_the_first_window_after_the_anchor() {
    let s = lag_sweep_span(params(100, 20, 48_000), 300, 10_000, 1_000, false).unwrap();
    assert_eq!(s, LagSweepSpan { a_start: 0, a_end: 100, b_lo: 980, b_hi: 1120 });
}

#[test]
fn the_template_shrinks_to_the_border_and_the_haystack_to_b() {
    let s = lag_sweep_span(params(500, 20, 48_000), 64, 1_050, 1_000, false).unwrap();
    assert_eq!(s, LagSweepSpan { a_start: 0, a_end: 64, b_lo: 980, b_hi: 1_050 });
}

#[test]
fn an_unrunnable_sweep_is_none() {
    // Template under 8 samples.
    assert!(lag_sweep_span(params(7, 20, 48_000), 300, 10_000, 1_000, true).is_none());
    assert!(lag_sweep_span(params(100, 20, 48_000), 7, 10_000, 1_000, false).is_none());
    // The search would start before the haystack.
    assert!(lag_sweep_span(params(100, 20, 48_000), 300, 10_000, 119, true).is_none());
    assert!(lag_sweep_span(params(100, 20, 48_000), 300, 10_000, 19, false).is_none());
    // The haystack ends before the search starts.
    assert!(lag_sweep_span(params(100, 20, 48_000), 300, 900, 1_000, false).is_none());
    // Edge cases that just fit.
    assert!(lag_sweep_span(params(100, 20, 48_000), 300, 10_000, 120, true).is_some());
    assert!(lag_sweep_span(params(100, 20, 48_000), 300, 10_000, 20, false).is_some());
}
