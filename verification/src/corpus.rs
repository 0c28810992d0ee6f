//! Corpus bookkeeping that is pure text and counting: per-gap file stems, the fields a projected
//! corpus declares unmeasured, and the provenance questions a corpus answers about its sources.

use vstd::prelude::*;
use crate::schema::{DetailTier, LagVerdict, detail_tier_str, detail_tier_text, lag_verdict_str,
    lag_verdict_text};
use crate::text::{append_decimal, append_decimal_padded, decimal, decimal_padded, digits_value,
    lemma_decimal_parses_back};

verus! {

/// `hh-mm-ss` of a whole number of seconds, each part zero-padded to two digits (hours may run
/// longer).
pub open spec fn hms_text(secs: nat) -> Seq<char> {
    decimal_padded(secs / 3600, 2) + "-"@ + decimal_padded((secs % 3600) / 60, 2) + "-"@
        + decimal_padded(secs % 60, 2)
}

/// `hh-mm-ss` of a whole number of seconds.
pub fn hms(secs: u64) -> (r: String)
    ensures
        r@ == hms_text(secs as nat),
{
    let mut r = String::new();
    append_decimal_padded(&mut r, secs / 3600, 2);
    r.append("-");
    append_decimal_padded(&mut r, (secs % 3600) / 60, 2);
    r.append("-");
    append_decimal_padded(&mut r, secs % 60, 2);
    r
}

/// The headline tag of a gap's file name: the first editorial lag verdict (pre shoulder first),
/// else the seam-gate outcome's tier, else `na`.
pub open spec fn entry_verdict_text(
    pre: Seq<LagVerdict>,
    post: Seq<LagVerdict>,
    outcome_tier: Option<Seq<char>>,
) -> Seq<char> {
    if pre.len() > 0 {
        lag_verdict_text(pre[0])
    } else if post.len() > 0 {
        lag_verdict_text(post[0])
    } else {
        match outcome_tier {
            Some(t) => t,
            None => "na"@,
        }
    }
}

/// The headline tag of a gap's file name, from the verdicts of its editorial lag rows (`pre`,
/// then `post`; both empty when the gap has none) and its gate outcome tier.
pub fn entry_verdict(pre: &[LagVerdict], post: &[LagVerdict], outcome_tier: Option<&str>) -> (r:
    String)
    ensures
        r@ == entry_verdict_text(
            pre@,
            post@,
            match outcome_tier {
                Some(t) => Some(t@),
                None => None,
            },
        ),
{
    if pre.len() > 0 {
        String::from_str(lag_verdict_str(pre[0]))
    } else if post.len() > 0 {
        String::from_str(lag_verdict_str(post[0]))
    } else {
        match outcome_tier {
            Some(t) => String::from_str(t),
            None => String::from_str("na"),
        }
    }
}

/// The first `n` characters of `s` (all of it when shorter).
pub open spec fn prefix(s: Seq<char>, n: nat) -> Seq<char> {
    if s.len() <= n {
        s
    } else {
        s.subrange(0, n as int)
    }
}

/// `<a8>_<b4>_t<hh-mm-ss>_g<idx>_<tier>_<verdict>`: the first 8 characters of A's source id,
/// the first 4 of B's, the refined gap start, the gap index padded to 3 digits, the detail tier
/// and the headline verdict.
pub open spec fn entry_stem_text(
    a_id: Seq<char>,
    b_id: Seq<char>,
    start_secs: nat,
    index: nat,
    tier: DetailTier,
    verdict: Seq<char>,
) -> Seq<char> {
    prefix(a_id, 8) + "_"@ + prefix(b_id, 4) + "_t"@ + hms_text(start_secs) + "_g"@
        + decimal_padded(index, 3) + "_"@ + detail_tier_text(tier) + "_"@ + verdict
}

/// The extension-free file stem every artifact of one gap shares (the fingerprint JSON and the
/// listening WAVs), from the source ids, the gap's refined start in whole seconds, its index, its
/// detail tier and its headline verdict ([`entry_verdict`]).
pub fn entry_stem(
    a_id: &str,
    b_id: &str,
    a_refined_start_secs: u64,
    index: usize,
    tier: DetailTier,
    verdict: &str,
) -> (r: String)
    ensures
        r@ == entry_stem_text(a_id@, b_id@, a_refined_start_secs as nat, index as nat, tier, verdict@),
{
    let a_len = a_id.unicode_len();
    let a8 = a_id.substring_char(0, if a_len <= 8 { a_len } else { 8 });
    let b_len = b_id.unicode_len();
    let b4 = b_id.substring_char(0, if b_len <= 4 { b_len } else { 4 });
    proof {
        assert(a_id@.subrange(0, a_len as int) =~= a_id@);
        assert(b_id@.subrange(0, b_len as int) =~= b_id@);
    }
    let mut r = String::from_str(a8);
    r.append("_");
    r.append(b4);
    r.append("_t");
    let t = hms(a_refined_start_secs);
    r.append(t.as_str());
    r.append("_g");
    append_decimal_padded(&mut r, index as u64, 3);
    r.append("_");
    r.append(detail_tier_str(tier));
    r.append("_");
    r.append(verdict);
    r
}

/// The fields a projected `Full` gap carries as structural defaults rather than measurements.
pub open spec fn not_measured_by_projection_spec() -> Seq<Seq<char>> {
    seq![
        "levels.bin_ms"@,
        "levels.profile_db"@,
        "levels.floor_db"@,
        "levels.speech_peak_db"@,
        "silence.collar_rms_peak_ratio"@,
        "silence.collar_above_relative_floor"@,
        "silence.silence_peak_fraction"@,
        "contour.has_anchor_seam_contour"@,
        "contour.pre_flatness"@,
        "contour.post_flatness"@,
        "anchors.pre"@,
        "anchors.post"@,
        "outcome.seam_shape"@,
    ]
}

/// The `lag_decision` shoulder fields a projection fabricates when no sweep was measured.
pub open spec fn projected_lag_decision_fields_spec() -> Seq<Seq<char>> {
    seq![
        "lag_decision.window_ms"@,
        "lag_decision.max_lag_ms"@,
        "lag_decision.peak_lag_samples"@,
        "lag_decision.frac_lag_samples"@,
        "lag_decision.lag0_r"@,
        "lag_decision.verdict"@,
    ]
}

/// The views of a list of owned strings.
pub open spec fn string_views(v: Seq<String>) -> Seq<Seq<char>> {
    v.map_values(|s: String| s@)
}

/// The views of a list of strings.
pub open spec fn views(v: Seq<&'static str>) -> Seq<Seq<char>> {
    v.map_values(|s: &'static str| s@)
}

/// The fields a projected `Full` gap carries as structural defaults rather than measurements;
/// declared on every corpus whose gaps went through the projection.
pub fn not_measured_by_projection() -> (r: Vec<&'static str>)
    ensures
        views(r@) == not_measured_by_projection_spec(),
{
    let r: Vec<&'static str> = vec![
        "levels.bin_ms",
        "levels.profile_db",
        "levels.floor_db",
        "levels.speech_peak_db",
        "silence.collar_rms_peak_ratio",
        "silence.collar_above_relative_floor",
        "silence.silence_peak_fraction",
        "contour.has_anchor_seam_contour",
        "contour.pre_flatness",
        "contour.post_flatness",
        "anchors.pre",
        "anchors.post",
        "outcome.seam_shape",
    ];
    assert(views(r@) =~= not_measured_by_projection_spec());
    r
}

/// The `lag_decision` shoulder fields a projection fabricates; declared only when some gap was
/// actually projected rather than measured.
pub fn projected_lag_decision_fields() -> (r: Vec<&'static str>)
    ensures
        views(r@) == projected_lag_decision_fields_spec(),
{
    let r: Vec<&'static str> = vec![
        "lag_decision.window_ms",
        "lag_decision.max_lag_ms",
        "lag_decision.peak_lag_samples",
        "lag_decision.frac_lag_samples",
        "lag_decision.lag0_r",
        "lag_decision.verdict",
    ];
    assert(views(r@) =~= projected_lag_decision_fields_spec());
    r
}

/// No field is both unconditionally declared and conditionally declared: a measured
/// `lag_decision` is never disowned by the unconditional list.
pub proof fn lemma_declared_lists_are_disjoint(i: int, j: int)
    requires
        0 <= i < not_measured_by_projection_spec().len(),
        0 <= j < projected_lag_decision_fields_spec().len(),
    ensures
        not_measured_by_projection_spec()[i] != projected_lag_decision_fields_spec()[j],
{
    reveal_strlit("levels.bin_ms");
    reveal_strlit("levels.profile_db");
    reveal_strlit("levels.floor_db");
    reveal_strlit("levels.speech_peak_db");
    reveal_strlit("silence.collar_rms_peak_ratio");
    reveal_strlit("silence.collar_above_relative_floor");
    reveal_strlit("silence.silence_peak_fraction");
    reveal_strlit("contour.has_anchor_seam_contour");
    reveal_strlit("contour.pre_flatness");
    reveal_strlit("contour.post_flatness");
    reveal_strlit("anchors.pre");
    reveal_strlit("anchors.post");
    reveal_strlit("outcome.seam_shape");
    reveal_strlit("lag_decision.window_ms");
    reveal_strlit("lag_decision.max_lag_ms");
    reveal_strlit("lag_decision.peak_lag_samples");
    reveal_strlit("lag_decision.frac_lag_samples");
    reveal_strlit("lag_decision.lag0_r");
    reveal_strlit("lag_decision.verdict");
    let a = not_measured_by_projection_spec()[i];
    let b = projected_lag_decision_fields_spec()[j];
    assert(b[0] == 'l' && b[1] == 'a');
    assert(a[0] != 'l' || a[1] != 'a');
}

/// What a corpus declares unmeasured once its gaps are rebuilt: `None` (leave the declaration as
/// it is) unless some gap reached the `Full` rebuild; then the unconditional list, followed by the
/// `lag_decision` fields when `projected_lag_gaps > 0` gaps got a fabricated lag row.
pub open spec fn declared_not_measured_spec(tiers: Seq<DetailTier>, projected_lag_gaps: nat) -> Option<
    Seq<Seq<char>>,
> {
    if exists|i: int| 0 <= i < tiers.len() && #[trigger] tiers[i] == DetailTier::Full {
        Some(
            not_measured_by_projection_spec() + if projected_lag_gaps > 0 {
                projected_lag_decision_fields_spec()
            } else {
                Seq::empty()
            },
        )
    } else {
        None
    }
}

/// The declaration looks at every gap, not one in particular: any gap at the `Full` tier makes
/// it present, an all-`Summary` corpus leaves it absent, swapping two gaps never changes it, and
/// when present it always opens with the unconditional list and adds the `lag_decision` fields
/// exactly when some gap got a fabricated lag row.
pub proof fn lemma_declaration_reads_every_gap(tiers: Seq<DetailTier>, projected_lag_gaps: nat)
    ensures
        forall|i: int|
            0 <= i < tiers.len() && #[trigger] tiers[i] == DetailTier::Full
                ==> declared_not_measured_spec(tiers, projected_lag_gaps) is Some,
        (forall|i: int| 0 <= i < tiers.len() ==> #[trigger] tiers[i] == DetailTier::Summary)
            ==> declared_not_measured_spec(tiers, projected_lag_gaps) is None,
        forall|i: int, j: int|
            0 <= i < tiers.len() && 0 <= j < tiers.len() ==> #[trigger] declared_not_measured_spec(
                tiers.update(i, tiers[j]).update(j, tiers[i]),
                projected_lag_gaps,
            ) == declared_not_measured_spec(tiers, projected_lag_gaps),
        declared_not_measured_spec(tiers, projected_lag_gaps) matches Some(d) ==> d.subrange(0, 13)
            == not_measured_by_projection_spec() && (d.len() == 13 <==> projected_lag_gaps == 0)
            && (projected_lag_gaps > 0 ==> d.subrange(13, d.len() as int)
            == projected_lag_decision_fields_spec()),
{
    assert forall|i: int, j: int| 0 <= i < tiers.len() && 0 <= j < tiers.len() implies
        #[trigger] declared_not_measured_spec(tiers.update(i, tiers[j]).update(j, tiers[i]),
        projected_lag_gaps) == declared_not_measured_spec(tiers, projected_lag_gaps) by {
        let t2 = tiers.update(i, tiers[j]).update(j, tiers[i]);
        assert(t2.len() == tiers.len());
        if exists|k: int| 0 <= k < tiers.len() && #[trigger] tiers[k] == DetailTier::Full {
            let k = choose|k: int| 0 <= k < tiers.len() && #[trigger] tiers[k] == DetailTier::Full;
            let k2 = if k == i { j } else if k == j { i } else { k };
            assert(t2[k2] == DetailTier::Full);
        }
        if exists|k: int| 0 <= k < t2.len() && #[trigger] t2[k] == DetailTier::Full {
            let k = choose|k: int| 0 <= k < t2.len() && #[trigger] t2[k] == DetailTier::Full;
            let k2 = if k == i { j } else if k == j { i } else { k };
            assert(tiers[k2] == DetailTier::Full);
        }
    }
    if declared_not_measured_spec(tiers, projected_lag_gaps) is Some {
        let d = declared_not_measured_spec(tiers, projected_lag_gaps)->0;
        let base = not_measured_by_projection_spec();
        assert(base.len() == 13);
        assert(d.subrange(0, 13) =~= base);
        if projected_lag_gaps > 0 {
            assert(d.subrange(13, d.len() as int) =~= projected_lag_decision_fields_spec());
        }
    }
}

/// What a corpus declares unmeasured, given its gaps' detail tiers and how many gaps got a
/// fabricated `lag_decision` row (see [`declared_not_measured_spec`]).
pub fn declared_not_measured(tiers: &[DetailTier], projected_lag_gaps: usize) -> (r: Option<
    Vec<String>,
>)
    ensures
        match r {
            Some(v) => declared_not_measured_spec(tiers@, projected_lag_gaps as nat) == Some(
                string_views(v@),
            ),
            None => declared_not_measured_spec(tiers@, projected_lag_gaps as nat) is None,
        },
        forall|i: int| 0 <= i < tiers@.len() && #[trigger] tiers@[i] == DetailTier::Full ==> r is Some,
        (forall|i: int| 0 <= i < tiers@.len() ==> #[trigger] tiers@[i] == DetailTier::Summary)
            ==> r is None,
        r matches Some(v) ==> string_views(v@).subrange(0, 13) == not_measured_by_projection_spec(),
        r matches Some(v) ==> (v@.len() == 13 <==> projected_lag_gaps == 0),
{
    proof {
        lemma_declaration_reads_every_gap(tiers@, projected_lag_gaps as nat);
    }
    let mut any_full = false;
    let mut i: usize = 0;
    while i < tiers.len()
        invariant
            i <= tiers@.len(),
            any_full <==> exists|j: int| 0 <= j < i && #[trigger] tiers@[j] == DetailTier::Full,
        decreases tiers.len() - i,
    {
        if tiers[i] == DetailTier::Full {
            any_full = true;
        }
        i = i + 1;
    }
    if !any_full {
        return None;
    }
    let mut fields = not_measured_by_projection();
    if projected_lag_gaps > 0 {
        let mut lag = projected_lag_decision_fields();
        fields.append(&mut lag);
    }
    let ghost want = declared_not_measured_spec(tiers@, projected_lag_gaps as nat)->0;
    assert(views(fields@) =~= want);
    let mut out: Vec<String> = Vec::new();
    let mut k: usize = 0;
    while k < fields.len()
        invariant
            k <= fields@.len(),
            views(fields@) == want,
            out@.len() == k,
            string_views(out@) =~= want.subrange(0, k as int),
        decreases fields.len() - k,
    {
        let item = String::from_str(fields[k]);
        assert(item@ == views(fields@)[k as int]);
        let ghost prev = out@;
        out.push(item);
        assert(out@ == prev.push(item));
        assert forall|j: int| 0 <= j < k + 1 implies #[trigger] string_views(out@)[j] == want[j] by {
            if j < k {
                assert(out@[j] == prev[j]);
                assert(string_views(prev)[j] == want.subrange(0, k as int)[j]);
            }
        }
        k = k + 1;
        assert(string_views(out@) =~= want.subrange(0, k as int));
    }
    assert(want.subrange(0, k as int) =~= want);
    Some(out)
}

/// Was a side rate-converted before measurement? `None` when its native rate was never recorded
/// — "unanswerable", which is not "no".
pub fn was_resampled(native_sample_rate: Option<u32>, sample_rate: u32) -> (r: Option<bool>)
    ensures
        r == match native_sample_rate {
            Some(native) => Some(native != sample_rate),
            None => None,
        },
{
    match native_sample_rate {
        Some(native) => Some(native != sample_rate),
        None => None,
    }
}

/// Do the two sides' native channel layouts disagree? A pairwise measurement must then be
/// refused rather than reading B at A's layout.
pub fn channel_layout_mismatch(a_native_channels: u16, b_native_channels: u16) -> (r: bool)
    ensures
        r == (a_native_channels != b_native_channels),
{
    a_native_channels != b_native_channels
}

/// A source's sample format as its container reported it.
#[derive(Debug, Clone, Copy, PartialEq, Eq, Structural)]
pub enum BitDepth {
    Int16,
    Int24,
    Int32,
    Float32,
    /// Any other width, in bits.
    Other(u32),
}

/// The wire token of a sample format: `s16` | `s24` | `s32` | `f32` | `other:<bits>`.
pub open spec fn bit_depth_text(depth: BitDepth) -> Seq<char> {
    match depth {
        BitDepth::Int16 => "s16"@,
        BitDepth::Int24 => "s24"@,
        BitDepth::Int32 => "s32"@,
        BitDepth::Float32 => "f32"@,
        BitDepth::Other(bits) => "other:"@ + decimal(bits as nat),
    }
}

/// The wire token of a sample format. The token set is a contract: consumers stratify on it.
pub fn bit_depth_str(depth: BitDepth) -> (r: String)
    ensures
        r@ == bit_depth_text(depth),
{
    match depth {
        BitDepth::Int16 => String::from_str("s16"),
        BitDepth::Int24 => String::from_str("s24"),
        BitDepth::Int32 => String::from_str("s32"),
        BitDepth::Float32 => String::from_str("f32"),
        BitDepth::Other(bits) => {
            let mut r = String::from_str("other:");
            append_decimal(&mut r, bits as u64);
            r
        },
    }
}

/// An `other:<bits>` token keeps the width: after the `other:` prefix come the decimal digits
/// of the bit count, which read back as that count.
pub proof fn lemma_other_bit_depth_reads_back(bits: u32)
    ensures
        bit_depth_text(BitDepth::Other(bits)).subrange(0, 6) == "other:"@,
        digits_value(bit_depth_text(BitDepth::Other(bits)).subrange(
            6,
            bit_depth_text(BitDepth::Other(bits)).len() as int,
        )) == bits,
{
    reveal_strlit("other:");
    let t = bit_depth_text(BitDepth::Other(bits));
    assert(t.subrange(0, 6) =~= "other:"@);
    assert(t.subrange(6, t.len() as int) =~= decimal(bits as nat));
    lemma_decimal_parses_back(bits as nat);
}

} // verus!
