//! The fingerprint corpus vocabulary: the enums a corpus records, their wire tags, and the two
//! decisions that read them back — dual-fit rescue eligibility and the bracket list a stored gate
//! summary is re-synthesized into.

use vstd::prelude::*;
use crate::text::{chars_eq, chars_of};

verus! {

/// How much detail a gap fingerprint carries (cost tier).
#[derive(Debug, Clone, Copy, PartialEq, Eq, Structural)]
pub enum DetailTier {
    /// Cheap: geometry + intrinsic A-side + baseline scores + outcome.
    Summary,
    /// Adds feasible brackets, per-bracket failure stages, and the lag fingerprint.
    Full,
}

/// How an anchor frame was chosen.
#[derive(Debug, Clone, Copy, PartialEq, Eq, Structural)]
pub enum AnchorSourceKind {
    ScanRefined,
    EnergyPeak,
    BoolTransition,
}

/// Which gate stage rejected a bracket.
#[derive(Debug, Clone, Copy, PartialEq, Eq, Structural)]
pub enum FailureStage {
    StructureAlign,
    StructureFloor,
    WaveformFloor,
    Residual,
}

/// Which signal a lag curve was measured on.
#[derive(Debug, Clone, Copy, PartialEq, Eq, Structural)]
pub enum LagChannel {
    Mono,
    /// The seam-gate-selected channel index.
    Selected(usize),
}

/// Verdict from a lag curve.
#[derive(Debug, Clone, Copy, PartialEq, Eq, Structural)]
pub enum LagVerdict {
    /// A shift recovers strong correlation — recoverable timing offset.
    TimingOffset,
    /// No shift recovers correlation — sources genuinely differ.
    Decorrelated,
    /// Partial; weak shared content.
    Ambiguous,
}

/// Why a fingerprint corpus refused pairwise A↔B measurement. Absent ⇒ comparable.
#[derive(Debug, Clone, Copy, PartialEq, Eq, Structural)]
pub enum IncomparableReason {
    /// The two sides' native channel counts disagree after track selection.
    ChannelLayoutMismatch,
}

/// Final gate decision tags for a gap.
#[derive(Debug, Clone)]
pub struct GateOutcome {
    pub plan_kind: String,
    pub tier: String,
    pub seam_shape: String,
    pub fit_path: Option<String>,
    pub signature_mode: Option<String>,
    pub skip_reason: Option<String>,
    /// Would production's dual-fit rescue this bracket-gate skip? See [`dual_fit_rescue_flag`].
    pub dual_fit_rescue: Option<bool>,
}

/// The wire tag of a detail tier.
pub open spec fn detail_tier_text(t: DetailTier) -> Seq<char> {
    match t {
        DetailTier::Summary => "summary"@,
        DetailTier::Full => "full"@,
    }
}

/// The wire tag of a detail tier.
pub fn detail_tier_str(t: DetailTier) -> (r: &'static str)
    ensures
        r@ == detail_tier_text(t),
{
    match t {
        DetailTier::Summary => "summary",
        DetailTier::Full => "full",
    }
}

/// The wire tag of a lag verdict.
pub open spec fn lag_verdict_text(v: LagVerdict) -> Seq<char> {
    match v {
        LagVerdict::TimingOffset => "timing_offset"@,
        LagVerdict::Decorrelated => "decorrelated"@,
        LagVerdict::Ambiguous => "ambiguous"@,
    }
}

/// The wire tag of a lag verdict.
pub fn lag_verdict_str(v: LagVerdict) -> (r: &'static str)
    ensures
        r@ == lag_verdict_text(v),
{
    match v {
        LagVerdict::TimingOffset => "timing_offset",
        LagVerdict::Decorrelated => "decorrelated",
        LagVerdict::Ambiguous => "ambiguous",
    }
}

/// The wire tag a failure stage is written under.
pub open spec fn failure_stage_tag(s: FailureStage) -> Seq<char> {
    match s {
        FailureStage::StructureAlign => "structure_align"@,
        FailureStage::StructureFloor => "structure_floor"@,
        FailureStage::WaveformFloor => "waveform_floor"@,
        FailureStage::Residual => "residual"@,
    }
}

/// The failure stage a corpus tag names, if any.
pub open spec fn stage_for_tag(t: Seq<char>) -> Option<FailureStage> {
    if t == "structure_align"@ {
        Some(FailureStage::StructureAlign)
    } else if t == "structure_floor"@ {
        Some(FailureStage::StructureFloor)
    } else if t == "waveform_floor"@ {
        Some(FailureStage::WaveformFloor)
    } else if t == "residual"@ {
        Some(FailureStage::Residual)
    } else {
        None
    }
}

/// Corpus-reader `failure_stage` tag → [`FailureStage`]; any other text is `None`.
pub fn failure_stage_from_tag(tag: &str) -> (r: Option<FailureStage>)
    ensures
        r == stage_for_tag(tag@),
{
    let v = chars_of(tag);
    let t = v.as_slice();
    if chars_eq(t, "structure_align") {
        Some(FailureStage::StructureAlign)
    } else if chars_eq(t, "structure_floor") {
        Some(FailureStage::StructureFloor)
    } else if chars_eq(t, "waveform_floor") {
        Some(FailureStage::WaveformFloor)
    } else if chars_eq(t, "residual") {
        Some(FailureStage::Residual)
    } else {
        None
    }
}

/// Every failure stage reads back from its own wire tag, and a tag names a stage only when it is
/// exactly that stage's tag.
pub proof fn lemma_failure_stage_tag_round_trips(s: FailureStage, t: Seq<char>)
    ensures
        stage_for_tag(failure_stage_tag(s)) == Some(s),
        stage_for_tag(t) == Some(s) ==> t == failure_stage_tag(s),
{
    reveal_strlit("structure_align");
    reveal_strlit("structure_floor");
    reveal_strlit("waveform_floor");
    reveal_strlit("residual");
    assert("structure_align"@[10] != "structure_floor"@[10]);
    assert("structure_align"@.len() != "waveform_floor"@.len());
    assert("structure_align"@.len() != "residual"@.len());
    assert("structure_floor"@.len() != "waveform_floor"@.len());
    assert("structure_floor"@.len() != "residual"@.len());
    assert("waveform_floor"@.len() != "residual"@.len());
}

/// A bracket whose recorded failure came after structure alignment: it was actually scored.
pub open spec fn scored_failure(stage: Option<FailureStage>) -> bool {
    stage matches Some(s) && s != FailureStage::StructureAlign
}

/// Some bracket failed at a stage past structure alignment.
pub open spec fn dual_fit_eligible(stages: Seq<Option<FailureStage>>) -> bool {
    exists|i: int| 0 <= i < stages.len() && #[trigger] scored_failure(stages[i])
}

/// The fingerprint analogue of production's dual-fit eligibility, over the brackets' failure
/// stages: true iff some bracket failed at a stage past structure alignment. Zero brackets ⇒
/// nothing scored ⇒ not eligible.
pub fn brackets_dual_fit_eligible(stages: &[Option<FailureStage>]) -> (r: bool)
    ensures
        r == dual_fit_eligible(stages@),
{
    let mut i: usize = 0;
    while i < stages.len()
        invariant
            i <= stages@.len(),
            forall|j: int| 0 <= j < i ==> !#[trigger] scored_failure(stages@[j]),
        decreases stages.len() - i,
    {
        let hit = match stages[i] {
            Some(s) => s != FailureStage::StructureAlign,
            None => false,
        };
        if hit {
            assert(scored_failure(stages@[i as int]));
            return true;
        }
        i = i + 1;
    }
    false
}

/// The dual-fit seam measurements, reduced to the verdicts the rescue decision reads.
#[derive(Debug, Clone, Copy, PartialEq, Eq, Structural)]
pub struct SpliceDualfitVerdicts {
    /// Both shoulders clear the seam floors.
    pub gate_pass: bool,
    /// The bridge length between the two re-anchored shoulders, in frames.
    pub bridge_frames: i64,
    /// The post seam at its own lag beats the post seam at the pre lag by the step margin.
    pub step_real: bool,
}

/// What [`dual_fit_rescue_flag`] reads, so every call site passes the same set.
pub struct DualFitRescueInput<'a> {
    /// Bracket-gate `any_ok`.
    pub patched: bool,
    /// Each bracket's failure stage.
    pub bracket_stages: &'a [Option<FailureStage>],
    pub splice_dualfit: Option<SpliceDualfitVerdicts>,
    /// Whether the registered (aligned) donor bridges the hole.
    pub donor_aligned_continuous: Option<bool>,
    /// Whether the nominal donor is program-quiet.
    pub donor_nominal_program_quiet: Option<bool>,
}

/// Would production's dual-fit rescue this gap? `None` when the gap was patched or any input is
/// missing; otherwise the conjunction of the accept conditions.
pub open spec fn dual_fit_rescue(
    patched: bool,
    stages: Seq<Option<FailureStage>>,
    splice: Option<SpliceDualfitVerdicts>,
    aligned_continuous: Option<bool>,
    nominal_quiet: Option<bool>,
) -> Option<bool> {
    if patched {
        None
    } else {
        match (splice, aligned_continuous, nominal_quiet) {
            (Some(df), Some(continuous), Some(quiet)) => Some(
                dual_fit_eligible(stages) && df.gate_pass && df.bridge_frames > 0 && df.step_real
                    && continuous && !quiet,
            ),
            _ => None,
        }
    }
}

/// Would production's dual-fit rescue this gap? `None` means "no claim": a patched gap never
/// reaches dual-fit, and a gap missing any input is not measurable.
pub fn dual_fit_rescue_flag(input: &DualFitRescueInput<'_>) -> (r: Option<bool>)
    ensures
        r == dual_fit_rescue(
            input.patched,
            input.bracket_stages@,
            input.splice_dualfit,
            input.donor_aligned_continuous,
            input.donor_nominal_program_quiet,
        ),
{
    if input.patched {
        return None;
    }
    let df = match input.splice_dualfit {
        Some(df) => df,
        None => return None,
    };
    let continuous = match input.donor_aligned_continuous {
        Some(c) => c,
        None => return None,
    };
    let quiet = match input.donor_nominal_program_quiet {
        Some(q) => q,
        None => return None,
    };
    Some(
        brackets_dual_fit_eligible(input.bracket_stages) && df.gate_pass && df.bridge_frames > 0
            && df.step_real && continuous && !quiet,
    )
}

/// Which score a synthesized bracket carries, relative to the stored best bracket seam.
#[derive(Debug, Clone, Copy, PartialEq, Eq, Structural)]
pub enum SynthScore {
    /// No score.
    Absent,
    /// The stored best min-seam itself.
    Best,
    /// The stored best min-seam less `0.01`, so it sorts just below the best.
    BelowBest,
}

/// One bracket re-synthesized from a stored gate summary.
#[derive(Debug, Clone, Copy, PartialEq, Eq, Structural)]
pub struct SynthBracket {
    pub failure_stage: Option<FailureStage>,
    pub score: SynthScore,
    /// The score belongs on the structure fields (a structure-floor failure) rather than the seam
    /// fields.
    pub score_on_structure: bool,
}

/// Bracket `i` of the list synthesized from `total` brackets, `passing` of them passing, the
/// closest failure being `closest`: the passing brackets come first (the first one carrying the
/// best score), then the closest failure (scored just below the best, or at the best when nothing
/// passed), then structure-alignment fillers with no score.
pub open spec fn synth_slot(passing: nat, closest: Option<FailureStage>, i: nat) -> SynthBracket {
    let (stage, score) = if i < passing {
        (None, if i == 0 { SynthScore::Best } else { SynthScore::Absent })
    } else if i == passing {
        (closest, if passing == 0 { SynthScore::Best } else { SynthScore::BelowBest })
    } else {
        (Some(FailureStage::StructureAlign), SynthScore::Absent)
    };
    SynthBracket {
        failure_stage: stage,
        score,
        score_on_structure: stage == Some(FailureStage::StructureFloor),
    }
}

/// How many brackets of `s` carry no failure stage (they passed).
pub open spec fn passing_count(s: Seq<SynthBracket>) -> nat
    decreases s.len(),
{
    if s.len() == 0 {
        0
    } else {
        passing_count(s.drop_last()) + if s.last().failure_stage is None {
            1nat
        } else {
            0nat
        }
    }
}

/// The failure stages of a bracket list, in order.
pub open spec fn stages_of(s: Seq<SynthBracket>) -> Seq<Option<FailureStage>> {
    s.map_values(|b: SynthBracket| b.failure_stage)
}

/// Synthesize a bracket list that round-trips a stored gate summary (`total` brackets, `passing`
/// of them passing, the closest failure's stage tag `closest`) through the corpus reader's
/// derivations. A failing bracket needs a closest stage, so `closest` must name one whenever
/// `passing < total`.
pub fn synth_brackets(total: usize, passing: usize, closest: Option<&str>) -> (r: Vec<SynthBracket>)
    requires
        passing < total ==> (closest matches Some(t) && stage_for_tag(t@) is Some),
    ensures
        r@.len() == total,
        forall|i: int|
            0 <= i < total ==> #[trigger] r@[i] == synth_slot(
                passing as nat,
                match closest {
                    Some(t) => stage_for_tag(t@),
                    None => None,
                },
                i as nat,
            ),
{
    let closest_stage = match closest {
        Some(t) => failure_stage_from_tag(t),
        None => None,
    };
    let ghost cs = closest_stage;
    let mut r: Vec<SynthBracket> = Vec::new();
    let mut i: usize = 0;
    while i < total
        invariant
            i <= total,
            r@.len() == i,
            cs == closest_stage,
            forall|j: int| 0 <= j < i ==> #[trigger] r@[j] == synth_slot(passing as nat, cs, j as nat),
        decreases total - i,
    {
        let (stage, score) = if i < passing {
            (None, if i == 0 { SynthScore::Best } else { SynthScore::Absent })
        } else if i == passing {
            (closest_stage, if passing == 0 { SynthScore::Best } else { SynthScore::BelowBest })
        } else {
            (Some(FailureStage::StructureAlign), SynthScore::Absent)
        };
        let on_structure = match stage {
            Some(FailureStage::StructureFloor) => true,
            _ => false,
        };
        r.push(SynthBracket { failure_stage: stage, score, score_on_structure: on_structure });
        i = i + 1;
    }
    r
}

/// Reading a synthesized list back gives the summary it was built from: `total` brackets, of
/// which `min(passing, total)` pass; it is dual-fit eligible exactly when some bracket fails and
/// the closest failure came after structure alignment; and the closest failure is the only
/// failing bracket that carries a score.
pub proof fn lemma_synth_brackets_round_trip(
    s: Seq<SynthBracket>,
    total: nat,
    passing: nat,
    closest: Option<FailureStage>,
)
    requires
        passing < total ==> closest is Some,
        s.len() == total,
        forall|i: int| 0 <= i < total ==> #[trigger] s[i] == synth_slot(passing, closest, i as nat),
    ensures
        passing_count(s) == if passing < total { passing } else { total },
        dual_fit_eligible(stages_of(s)) <==> (passing < total && scored_failure(closest)),
        forall|i: int|
            0 <= i < total && s[i].failure_stage is Some && s[i].score != SynthScore::Absent
                ==> i == passing,
{
    lemma_passing_count_prefix(s, total, passing, closest, total);
    assert(s.subrange(0, total as int) =~= s);
    let st = stages_of(s);
    if passing < total {
        assert(st[passing as int] == closest);
        assert(scored_failure(closest) ==> scored_failure(st[passing as int]));
    }
    assert(dual_fit_eligible(st) ==> (passing < total && scored_failure(closest))) by {
        if dual_fit_eligible(st) {
            let i = choose|i: int| 0 <= i < st.len() && #[trigger] scored_failure(st[i]);
            assert(st[i] == s[i].failure_stage);
            assert(s[i] == synth_slot(passing, closest, i as nat));
        }
    }
}

proof fn lemma_passing_count_prefix(
    s: Seq<SynthBracket>,
    total: nat,
    passing: nat,
    closest: Option<FailureStage>,
    k: nat,
)
    requires
        passing < total ==> closest is Some,
        s.len() == total,
        k <= total,
        forall|i: int| 0 <= i < total ==> #[trigger] s[i] == synth_slot(passing, closest, i as nat),
    ensures
        passing_count(s.subrange(0, k as int)) == if passing < k { passing } else { k },
    decreases k,
{
    if k > 0 {
        lemma_passing_count_prefix(s, total, passing, closest, (k - 1) as nat);
        let p = s.subrange(0, k as int);
        assert(p.drop_last() =~= s.subrange(0, k - 1));
        assert(p.last() == s[k - 1]);
        assert(s[k - 1] == synth_slot(passing, closest, (k - 1) as nat));
    }
}

/// Which lag row of one shoulder the splice summary reads: the first one measured on the mono
/// downmix, given each row's channel. `None` when no row is mono.
pub fn mono_lag_side(channels: &[LagChannel]) -> (r: Option<usize>)
    ensures
        match r {
            Some(i) => i < channels@.len() && channels@[i as int] == LagChannel::Mono && forall|j: int|
                0 <= j < i ==> channels@[j] != LagChannel::Mono,
            None => forall|j: int| 0 <= j < channels@.len() ==> channels@[j] != LagChannel::Mono,
        },
{
    let mut i: usize = 0;
    while i < channels.len()
        invariant
            i <= channels@.len(),
            forall|j: int| 0 <= j < i ==> channels@[j] != LagChannel::Mono,
        decreases channels.len() - i,
    {
        if channels[i] == LagChannel::Mono {
            return Some(i);
        }
        i = i + 1;
    }
    None
}

/// Which lag row stands for a measurement when only one is read: the first mono row, else the
/// first row of any channel. `None` only when there are no rows.
pub fn mono_lag(channels: &[LagChannel]) -> (r: Option<usize>)
    ensures
        match r {
            Some(i) => {
                &&& i < channels@.len()
                &&& {
                    ||| channels@[i as int] == LagChannel::Mono && (forall|j: int|
                        0 <= j < i ==> channels@[j] != LagChannel::Mono)
                    ||| i == 0 && (forall|j: int|
                        0 <= j < channels@.len() ==> channels@[j] != LagChannel::Mono)
                }
            },
            None => channels@.len() == 0,
        },
{
    match mono_lag_side(channels) {
        Some(i) => Some(i),
        None => if channels.len() > 0 {
            Some(0)
        } else {
            None
        },
    }
}

/// Is a splice step taken across two shoulders search-exhausted? The step spans both, so either
/// shoulder's edge-pinned peak taints it; `None` only when neither shoulder recorded the flag.
pub fn combined_edge_pinned(pre: Option<bool>, post: Option<bool>) -> (r: Option<bool>)
    ensures
        r == match (pre, post) {
            (None, None) => None,
            (a, b) => Some(a == Some(true) || b == Some(true)),
        },
{
    match (pre, post) {
        (None, None) => None,
        (a, b) => {
            let pa = match a {
                Some(x) => x,
                None => false,
            };
            let pb = match b {
                Some(x) => x,
                None => false,
            };
            Some(pa || pb)
        },
    }
}

} // verus!
