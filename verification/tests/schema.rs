use clip_sync_repair::schema::{
    brackets_dual_fit_eligible, combined_edge_pinned, detail_tier_str, dual_fit_rescue_flag,
    failure_stage_from_tag, lag_verdict_str, mono_lag, mono_lag_side, synth_brackets, DetailTier,
    DualFitRescueInput, FailureStage, LagChannel, LagVerdict, SpliceDualfitVerdicts, SynthBracket,
    SynthScore,
};

/// The dual-fit seam verdicts of a gap whose post seam (0.9) beats the post seam at the pre lag
/// (0.1) by far more than the step margin, with 1000 bridge frames.
fn splice_dualfit(gate_pass: bool) -> SpliceDualfitVerdicts {
    SpliceDualfitVerdicts { gate_pass, bridge_frames: 1000, step_real: true }
}

/// A rescuable gap: scored-but-failed brackets, seams pass, step real, donor bridges, B occupied.
fn rescuable(stages: &[Option<FailureStage>], df: SpliceDualfitVerdicts) -> DualFitRescueInput<'_> {
    DualFitRescueInput {
        patched: false,
        bracket_stages: stages,
        splice_dualfit: Some(df),
        donor_aligned_continuous: Some(true),
        donor_nominal_program_quiet: Some(false),
    }
}

#[test]
fn dual_fit_rescue_mirrors_production_eligibility() {
    let scored = [Some(FailureStage::WaveformFloor)];
    let unscored = [Some(FailureStage::StructureAlign)];
    assert_eq!(dual_fit_rescue_flag(&rescuable(&scored, splice_dualfit(true))), Some(true));
    assert_eq!(dual_fit_rescue_flag(&rescuable(&scored, splice_dualfit(false))), Some(false));
    // Nothing was ever scored: a passing seam gate must not be reported as a rescue.
    assert_eq!(dual_fit_rescue_flag(&rescuable(&unscored, splice_dualfit(true))), Some(false));
    // One bracket got past structure alignment ⇒ eligible.
    let mixed = [Some(FailureStage::StructureAlign), Some(FailureStage::Residual)];
    assert_eq!(dual_fit_rescue_flag(&rescuable(&mixed, splice_dualfit(true))), Some(true));
}

#[test]
fn dual_fit_rescue_requires_every_try_dual_fit_condition() {
    let scored = [Some(FailureStage::WaveformFloor)];

    // Step not real: the post seam at the pre lag is just as good.
    let rigid = SpliceDualfitVerdicts { step_real: false, ..splice_dualfit(true) };
    assert_eq!(dual_fit_rescue_flag(&rescuable(&scored, rigid)), Some(false));

    // Shoulders crossed or collapsed.
    let crossed = SpliceDualfitVerdicts { bridge_frames: 0, ..splice_dualfit(true) };
    assert_eq!(dual_fit_rescue_flag(&rescuable(&scored, crossed)), Some(false));
    let crossed = SpliceDualfitVerdicts { bridge_frames: -100, ..splice_dualfit(true) };
    assert_eq!(dual_fit_rescue_flag(&rescuable(&scored, crossed)), Some(false));

    // Non-finite global seam: the comparison is undefined, so the step is not real.
    let nan_global = SpliceDualfitVerdicts { step_real: false, ..splice_dualfit(true) };
    assert_eq!(dual_fit_rescue_flag(&rescuable(&scored, nan_global)), Some(false));

    // Aligned donor has an internal hole.
    let mut broken = rescuable(&scored, splice_dualfit(true));
    broken.donor_aligned_continuous = Some(false);
    assert_eq!(dual_fit_rescue_flag(&broken), Some(false));

    // Program-quiet at nominal.
    let mut quiet = rescuable(&scored, splice_dualfit(true));
    quiet.donor_nominal_program_quiet = Some(true);
    assert_eq!(dual_fit_rescue_flag(&quiet), Some(false));
}

#[test]
fn dual_fit_rescue_absent_rather_than_false_when_inapplicable() {
    let scored = [Some(FailureStage::WaveformFloor)];

    let mut patched = rescuable(&scored, splice_dualfit(true));
    patched.patched = true;
    assert_eq!(dual_fit_rescue_flag(&patched), None);

    let mut no_df = rescuable(&scored, splice_dualfit(true));
    no_df.splice_dualfit = None;
    assert_eq!(dual_fit_rescue_flag(&no_df), None);

    let mut no_donor = rescuable(&scored, splice_dualfit(true));
    no_donor.donor_nominal_program_quiet = None;
    assert_eq!(dual_fit_rescue_flag(&no_donor), None);

    let mut no_aligned = rescuable(&scored, splice_dualfit(true));
    no_aligned.donor_aligned_continuous = None;
    assert_eq!(dual_fit_rescue_flag(&no_aligned), None);

    // No brackets at all ⇒ nothing scored; a definite "would not rescue" once measured.
    assert_eq!(dual_fit_rescue_flag(&rescuable(&[], splice_dualfit(true))), Some(false));
}

#[test]
fn eligibility_needs_a_failure_past_structure_alignment() {
    assert!(!brackets_dual_fit_eligible(&[]));
    assert!(!brackets_dual_fit_eligible(&[None, None]));
    assert!(!brackets_dual_fit_eligible(&[Some(FailureStage::StructureAlign), None]));
    assert!(brackets_dual_fit_eligible(&[None, Some(FailureStage::StructureFloor)]));
    assert!(brackets_dual_fit_eligible(&[Some(FailureStage::Residual)]));
}

#[test]
fn wire_tags_are_snake_case() {
    assert_eq!(detail_tier_str(DetailTier::Summary), "summary");
    assert_eq!(detail_tier_str(DetailTier::Full), "full");
    assert_eq!(lag_verdict_str(LagVerdict::TimingOffset), "timing_offset");
    assert_eq!(lag_verdict_str(LagVerdict::Decorrelated), "decorrelated");
    assert_eq!(lag_verdict_str(LagVerdict::Ambiguous), "ambiguous");
}

#[test]
fn failure_stage_tags_round_trip() {
    assert_eq!(failure_stage_from_tag("structure_align"), Some(FailureStage::StructureAlign));
    assert_eq!(failure_stage_from_tag("structure_floor"), Some(FailureStage::StructureFloor));
    assert_eq!(failure_stage_from_tag("waveform_floor"), Some(FailureStage::WaveformFloor));
    assert_eq!(failure_stage_from_tag("residual"), Some(FailureStage::Residual));
    assert_eq!(failure_stage_from_tag("Residual"), None);
    assert_eq!(failure_stage_from_tag("residual "), None);
    assert_eq!(failure_stage_from_tag(""), None);
}

fn bracket(stage: Option<FailureStage>, score: SynthScore) -> SynthBracket {
    SynthBracket {
        failure_stage: stage,
        score,
        score_on_structure: stage == Some(FailureStage::StructureFloor),
    }
}

#[test]
fn synth_brackets_round_trip_the_stored_summary() {
    let v = synth_brackets(4, 2, Some("waveform_floor"));
    assert_eq!(
        v,
        vec![
            bracket(None, SynthScore::Best),
            bracket(None, SynthScore::Absent),
            bracket(Some(FailureStage::WaveformFloor), SynthScore::BelowBest),
            bracket(Some(FailureStage::StructureAlign), SynthScore::Absent),
        ]
    );
    let stages: Vec<_> = v.iter().map(|b| b.failure_stage).collect();
    assert_eq!(stages.iter().filter(|s| s.is_none()).count(), 2);
    assert!(brackets_dual_fit_eligible(&stages));
}

#[test]
fn synth_brackets_without_a_pass_puts_the_best_on_the_closest_failure() {
    let v = synth_brackets(2, 0, Some("structure_floor"));
    assert_eq!(
        v,
        vec![
            bracket(Some(FailureStage::StructureFloor), SynthScore::Best),
            bracket(Some(FailureStage::StructureAlign), SynthScore::Absent),
        ]
    );
    assert!(v[0].score_on_structure);
    let stages: Vec<_> = v.iter().map(|b| b.failure_stage).collect();
    assert!(brackets_dual_fit_eligible(&stages));

    let only_alignment = synth_brackets(3, 0, Some("structure_align"));
    let stages: Vec<_> = only_alignment.iter().map(|b| b.failure_stage).collect();
    assert!(!brackets_dual_fit_eligible(&stages));
}

#[test]
fn synth_brackets_all_passing_needs_no_stage() {
    let v = synth_brackets(3, 3, None);
    assert_eq!(
        v,
        vec![
            bracket(None, SynthScore::Best),
            bracket(None, SynthScore::Absent),
            bracket(None, SynthScore::Absent),
        ]
    );
    assert!(synth_brackets(0, 0, None).is_empty());
    assert_eq!(synth_brackets(2, 5, None).len(), 2);
}

#[test]
fn mono_rows_are_preferred() {
    let rows = [LagChannel::Selected(2), LagChannel::Mono, LagChannel::Mono];
    assert_eq!(mono_lag_side(&rows), Some(1));
    assert_eq!(mono_lag(&rows), Some(1));
    let selected_only = [LagChannel::Selected(0), LagChannel::Selected(3)];
    assert_eq!(mono_lag_side(&selected_only), None);
    assert_eq!(mono_lag(&selected_only), Some(0));
    assert_eq!(mono_lag_side(&[]), None);
    assert_eq!(mono_lag(&[]), None);
}

#[test]
fn either_pinned_shoulder_taints_the_step() {
    assert_eq!(combined_edge_pinned(None, None), None);
    assert_eq!(combined_edge_pinned(Some(false), None), Some(false));
    assert_eq!(combined_edge_pinned(None, Some(true)), Some(true));
    assert_eq!(combined_edge_pinned(Some(true), Some(false)), Some(true));
    assert_eq!(combined_edge_pinned(Some(false), Some(false)), Some(false));
}
