use clip_sync_repair::gap_listen::{
    clamp_frame_range, fingerprint_selection, gap_selected, is_partial_dump, listen_warns,
    patched_window_action, slice_frames, FrameRange, GapPatchStatusKind, PatchedWindowAction,
    UNBOUNDED_LISTEN_WARN_GAPS,
};

/// Ramp where every frame's samples encode `frame * 10 + channel`.
fn ramp(frames: usize, channels: u16) -> Vec<f32> {
    (0..frames)
        .flat_map(|f| (0..channels).map(move |c| (f * 10 + c as usize) as f32))
        .collect()
}

/// `[start_secs, end_secs]` at `sample_rate`, start floored and end ceiled, then clamped.
fn frame_range(start_secs: f64, end_secs: f64, sample_rate: u32, total_frames: usize) -> FrameRange {
    let rate = f64::from(sample_rate.max(1));
    let start = (start_secs.max(0.0) * rate).floor() as usize;
    let end = (end_secs.max(0.0) * rate).ceil() as usize;
    clamp_frame_range(start, end, total_frames)
}

#[test]
fn warn_threshold_is_in_the_intended_band() {
    assert!((10..=50).contains(&UNBOUNDED_LISTEN_WARN_GAPS));
}

#[test]
fn frame_range_floors_start_and_ceils_end() {
    assert_eq!(frame_range(1.5, 2.25, 100, 1000), FrameRange { start: 150, end: 225 });
    let r = frame_range(1.004, 2.001, 1000, 100_000);
    assert_eq!(r, FrameRange { start: 1004, end: 2001 });
}

#[test]
fn frame_range_clamps_both_ends_instead_of_erroring() {
    assert_eq!(frame_range(-3.0, 1.0, 100, 1000), FrameRange { start: 0, end: 100 });
    assert_eq!(frame_range(9.0, 99.0, 100, 1000), FrameRange { start: 900, end: 1000 });
    let r = frame_range(50.0, 60.0, 100, 1000);
    assert!(r.is_empty());
    assert!(r.end >= r.start);
}

#[test]
fn slice_window_cuts_on_frame_boundaries() {
    let samples = ramp(10, 2);
    let window = slice_frames(&samples, 2, FrameRange { start: 3, end: 6 });
    assert_eq!(window.len() / 2, 3);
    assert_eq!(window, vec![30.0, 31.0, 40.0, 41.0, 50.0, 51.0]);
    assert_eq!(window.len() % 2, 0);
}

#[test]
fn slice_window_strides_by_the_buffers_own_channel_count() {
    let b_samples = ramp(10, 2);
    let correct = slice_frames(&b_samples, 2, FrameRange { start: 2, end: 5 });
    assert_eq!(correct.len() / 2, 3);
    assert_eq!(correct, vec![20.0, 21.0, 30.0, 31.0, 40.0, 41.0]);
    let wrong = slice_frames(&b_samples, 6, FrameRange { start: 2, end: 5 });
    assert_ne!(wrong, correct);
    assert_eq!(wrong.len() % 6, 0);
}

#[test]
fn slice_window_clamps_a_range_past_the_buffer() {
    let samples = ramp(4, 2);
    let window = slice_frames(&samples, 2, FrameRange { start: 2, end: 99 });
    assert_eq!(window.len() / 2, 2);
    assert_eq!(window, vec![20.0, 21.0, 30.0, 31.0]);
}

#[test]
fn slice_window_never_inverts_or_overruns() {
    let samples = ramp(4, 2);
    assert!(slice_frames(&samples, 2, FrameRange { start: 3, end: 1 }).is_empty());
    assert!(slice_frames(&samples, 2, FrameRange { start: 9, end: 12 }).is_empty());
    // A zero channel count is read as one channel.
    assert_eq!(slice_frames(&[1u8, 2, 3], 0, FrameRange { start: 1, end: 3 }), vec![2, 3]);
    // A trailing partial frame is never copied.
    assert_eq!(slice_frames(&[1u8, 2, 3, 4, 5], 2, FrameRange { start: 0, end: 9 }), vec![1, 2, 3, 4]);
}

#[test]
fn frame_range_len_saturates() {
    assert_eq!(FrameRange { start: 5, end: 9 }.len(), 4);
    assert_eq!(FrameRange { start: 9, end: 5 }.len(), 0);
    assert!(FrameRange { start: 9, end: 5 }.is_empty());
    assert!(!FrameRange { start: 0, end: 1 }.is_empty());
}

#[test]
fn listen_selection_rules() {
    assert!(!listen_warns(25));
    assert!(listen_warns(26));
    assert!(fingerprint_selection(&[0, 1, 2], 3).is_empty());
    assert_eq!(fingerprint_selection(&[2, 0], 3), vec![2, 0]);
    assert!(is_partial_dump(2, 3));
    assert!(!is_partial_dump(3, 3));
}

#[test]
fn post_patch_actions() {
    assert_eq!(patched_window_action(Some(GapPatchStatusKind::Patched), true, 1, 2), PatchedWindowAction::WritePatched);
    assert_eq!(patched_window_action(Some(GapPatchStatusKind::Patched), true, 7, 7), PatchedWindowAction::WritePatchedUnchanged);
    assert_eq!(patched_window_action(Some(GapPatchStatusKind::Skipped), true, 1, 1), PatchedWindowAction::ReportRefused);
    assert_eq!(patched_window_action(Some(GapPatchStatusKind::NotPlanned), true, 1, 2), PatchedWindowAction::ReportPlannedNotPlanned);
    assert_eq!(patched_window_action(Some(GapPatchStatusKind::NotPlanned), false, 1, 2), PatchedWindowAction::Quiet);
    assert_eq!(patched_window_action(Some(GapPatchStatusKind::NotApplied), true, 1, 2), PatchedWindowAction::WarnNotApplied);
    assert_eq!(patched_window_action(None, true, 1, 2), PatchedWindowAction::ReportNoOutcome);
}

#[test]
fn empty_selection_characterizes_every_gap() {
    assert!(gap_selected(&[], 0));
    assert!(gap_selected(&[], 99));
    assert!(gap_selected(&[4, 2], 2));
    assert!(!gap_selected(&[4, 2], 3));
}

#[test]
fn a_full_selection_and_the_empty_one_cover_the_same_gaps() {
    let select = [2usize, 0, 1];
    let handed = fingerprint_selection(&select, 3);
    assert!(handed.is_empty());
    for g in 0..3 {
        assert_eq!(gap_selected(&handed, g), gap_selected(&select, g));
    }
}
