use clip_sync_repair::corpus::{
    bit_depth_str, channel_layout_mismatch, declared_not_measured, entry_stem, entry_verdict, hms,
    not_measured_by_projection, projected_lag_decision_fields, was_resampled, BitDepth,
};
use clip_sync_repair::schema::{DetailTier, LagVerdict};

#[test]
fn conditional_lag_fields_stay_out_of_the_unconditional_list() {
    let unconditional = not_measured_by_projection();
    for f in projected_lag_decision_fields() {
        assert!(
            !unconditional.contains(&f),
            "{f} is conditional; it must not sit in the unconditional list too"
        );
    }
}

#[test]
fn bit_depth_tokens_are_pinned() {
    assert_eq!(bit_depth_str(BitDepth::Int16), "s16");
    assert_eq!(bit_depth_str(BitDepth::Int24), "s24");
    assert_eq!(bit_depth_str(BitDepth::Int32), "s32");
    assert_eq!(bit_depth_str(BitDepth::Float32), "f32");
    assert_eq!(bit_depth_str(BitDepth::Other(20)), "other:20");
}

#[test]
fn other_bit_depth_reads_back_its_width() {
    for bits in [0u32, 8, 20, 64, u32::MAX] {
        let token = bit_depth_str(BitDepth::Other(bits));
        let width: u32 = token.strip_prefix("other:").unwrap().parse().unwrap();
        assert_eq!(width, bits);
    }
}

#[test]
fn was_resampled_distinguishes_no_from_unanswerable() {
    assert_eq!(was_resampled(Some(44_100), 48_000), Some(true));
    assert_eq!(was_resampled(Some(48_000), 48_000), Some(false));
    // Pre-provenance corpus: unanswerable, and must not read as "not resampled".
    assert_eq!(was_resampled(None, 48_000), None);
}

#[test]
fn channel_layout_mismatch_compares_native_counts() {
    assert!(channel_layout_mismatch(6, 2));
    assert!(!channel_layout_mismatch(2, 2));
}

#[test]
fn hms_pads_each_part() {
    assert_eq!(hms(0), "00-00-00");
    assert_eq!(hms(832), "00-13-52");
    assert_eq!(hms(3_661), "01-01-01");
    assert_eq!(hms(360_000), "100-00-00");
}

#[test]
fn entry_verdict_prefers_lag_then_outcome_then_na() {
    let pre = [LagVerdict::Decorrelated, LagVerdict::TimingOffset];
    let post = [LagVerdict::Ambiguous];
    assert_eq!(entry_verdict(&pre, &post, Some("skip")), "decorrelated");
    assert_eq!(entry_verdict(&[], &post, Some("skip")), "ambiguous");
    assert_eq!(entry_verdict(&[], &[], Some("fillable")), "fillable");
    assert_eq!(entry_verdict(&[], &[], None), "na");
}

#[test]
fn entry_stem_is_sortable_and_non_leaking() {
    let stem = entry_stem(
        "0123456789abcdef",
        "fedcba9876543210",
        832,
        7,
        DetailTier::Full,
        "timing_offset",
    );
    assert_eq!(stem, "01234567_fedc_t00-13-52_g007_full_timing_offset");
    // Short ids are used whole; wide indices are not truncated.
    let stem = entry_stem("ab", "c", 3_661, 1234, DetailTier::Summary, "na");
    assert_eq!(stem, "ab_c_t01-01-01_g1234_summary_na");
}

#[test]
fn declared_not_measured_tracks_what_happened() {
    assert_eq!(declared_not_measured(&[], 3), None);
    assert_eq!(declared_not_measured(&[DetailTier::Summary], 3), None);

    let base: Vec<String> = not_measured_by_projection().iter().map(|s| s.to_string()).collect();
    assert_eq!(declared_not_measured(&[DetailTier::Summary, DetailTier::Full], 0), Some(base.clone()));

    let mut with_lag = base;
    with_lag.extend(projected_lag_decision_fields().iter().map(|s| s.to_string()));
    assert_eq!(declared_not_measured(&[DetailTier::Full], 2), Some(with_lag.clone()));
    assert_eq!(with_lag.len(), 19);
    assert!(with_lag.contains(&"lag_decision.verdict".to_string()));
    assert!(with_lag.contains(&"outcome.seam_shape".to_string()));
}
